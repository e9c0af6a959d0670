# einkaufsliste

A shared shopping list: a server that stores lists, items, articles and shops
per user, and the client-side logic of the apps that edit them.

- `src/` is the library, verified with Verus: the data model and its views,
  access control, password hashing and checking, sessions, the rules of the
  API (encodings, errors and status codes, request bodies), the client's
  endpoints and error handling, the state of the desktop app and its pages,
  batching of list changes, the rules of the route derive, and the decisions
  of the development runner. Calls into `argon2`, `blake3`, `rand` and the
  system clock sit behind a few trusted wrappers whose contracts are stated
  next to them.
- `app/` is the server program: actix-web handlers, sled storage, rkyv and
  serde encodings, TLS and configuration loading. The library decides what
  is accepted, answered and stored; the handlers decide the order of the
  database reads and writes (for example: store an item, append it to its
  list, then give it the list's access-control list), which is not verified.
  Request bodies are read with `futures-util`'s stream helpers. The desktop
  and web clients and the development runner have no program here: their
  decisions are in the library.
- `tests/` runs the library on concrete values.
