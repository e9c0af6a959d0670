//! Password hashing and verification.

use vstd::prelude::*;
use vstd::utf8::encode_utf8;

use crate::db::DbError;
use crate::model::requests::LoginUserV1;
use crate::model::user::{Password, UserWithPassword};

verus! {

/// The 32-byte Argon2id digest (default parameters) of `password` salted
/// with `salt`.
pub uninterp spec fn argon2_digest(password: Seq<u8>, salt: Seq<u8>) -> Seq<u8>;

/// The 32-byte BLAKE3 digest of `input`.
pub uninterp spec fn blake3_digest(input: Seq<u8>) -> Seq<u8>;

/// The password and salt lengths Argon2 accepts.
pub open spec fn argon2_accepts(password: Seq<u8>, salt: Seq<u8>) -> bool {
    &&& password.len() <= 0xFFFF_FFFF
    &&& 8 <= salt.len() <= 0xFFFF_FFFF
}

/// Calls `argon2::Argon2::default().hash_password_into` with a 32-byte
/// output buffer. With default parameters and that buffer the call fails
/// exactly on a password longer than `u32::MAX` bytes or a salt shorter than
/// 8 or longer than `u32::MAX` bytes; the error comes back as its message.
/// Otherwise the buffer holds the digest, named `argon2_digest`.
#[verifier::external_body]
fn argon2_hash_into(password: &[u8], salt: &[u8]) -> (r: Result<Vec<u8>, String>)
    ensures
        r is Ok <==> argon2_accepts(password@, salt@),
        r matches Ok(h) ==> h@ == argon2_digest(password@, salt@) && h@.len() == 32,
{
    let mut bytes = vec![0u8; 32];
    match argon2::Argon2::default().hash_password_into(password, salt, &mut bytes) {
        Ok(()) => Ok(bytes),
        Err(e) => Err(e.to_string()),
    }
}

/// Calls `blake3::hash` on `input` and returns the 32 bytes of the digest,
/// named `blake3_digest`.
#[verifier::external_body]
fn blake3_hash(input: &[u8]) -> (r: Vec<u8>)
    ensures
        r@ == blake3_digest(input@),
        r@.len() == 32,
{
    blake3::hash(input).as_bytes().to_vec()
}

/// Calls `rand::Rng::fill` on `rand::thread_rng()` for 32 bytes. The bytes
/// are random: nothing but their number is stated.
#[verifier::external_body]
fn random_salt() -> (salt: Vec<u8>)
    ensures
        salt@.len() == 32,
{
    let mut salt = [0u8; 32];
    rand::Rng::fill(&mut rand::thread_rng(), &mut salt);
    salt.to_vec()
}

/// Hashes `password` with `salt` into 32 bytes using Argon2. Fails with an
/// `IO` error exactly when Argon2 rejects the lengths.
pub fn hash_password_with_salt(password: &str, salt: &[u8]) -> (r: Result<Vec<u8>, DbError>)
    ensures
        r is Ok <==> argon2_accepts(encode_utf8(password@), salt@),
        r matches Ok(h) ==> h@ == argon2_digest(encode_utf8(password@), salt@),
        r matches Err(e) ==> e is IO,
{
    match argon2_hash_into(password.as_bytes(), salt) {
        Ok(h) => Ok(h),
        Err(message) => Err(DbError::IO(message)),
    }
}

/// Hashes a new password with a fresh random 32-byte salt.
pub fn hash_password(password: &str) -> (r: Result<Password, DbError>)
    ensures
        r is Ok <==> encode_utf8(password@).len() <= 0xFFFF_FFFF,
        r matches Ok(p) ==> p.salt@.len() == 32 && p.hash@ == argon2_digest(
            encode_utf8(password@),
            p.salt@,
        ),
        r matches Err(e) ==> e is IO,
{
    let salt = random_salt();
    let hash = hash_password_with_salt(password, salt.as_slice());
    match hash {
        Ok(hash) => Ok(Password { hash, salt }),
        Err(e) => Err(e),
    }
}

/// The BLAKE3 digest of `password` followed by `salt`: hashing the two one
/// after the other is hashing their concatenation.
pub fn blake3_hash_password_with_salt(password: &str, salt: &[u8]) -> (h: Vec<u8>)
    ensures
        h@ == blake3_digest(encode_utf8(password@) + salt@),
        h@.len() == 32,
{
    let bytes = password.as_bytes();
    let mut input: Vec<u8> = Vec::new();
    let mut i: usize = 0;
    while i < bytes.len()
        invariant
            0 <= i <= bytes@.len(),
            input@ == bytes@.take(i as int),
        decreases bytes@.len() - i,
    {
        input.push(bytes[i]);
        assert(bytes@.take(i + 1) =~= bytes@.take(i as int).push(bytes@[i as int]));
        i = i + 1;
    }
    let mut j: usize = 0;
    while j < salt.len()
        invariant
            0 <= j <= salt@.len(),
            input@ == bytes@ + salt@.take(j as int),
        decreases salt@.len() - j,
    {
        input.push(salt[j]);
        assert(salt@.take(j + 1) =~= salt@.take(j as int).push(salt@[j as int]));
        j = j + 1;
    }
    assert(bytes@.take(bytes@.len() as int) =~= bytes@);
    assert(salt@.take(salt@.len() as int) =~= salt@);
    blake3_hash(input.as_slice())
}

/// Compares a freshly computed hash with the stored one: the user comes back
/// on a match, `Mismatch` otherwise; a hashing failure is passed on.
pub fn verify_password_hash(user: UserWithPassword, computed: Result<Vec<u8>, DbError>) -> (r:
    Result<UserWithPassword, DbError>)
    ensures
        computed matches Ok(h) && h@ == user.password.hash@ ==> r == Ok::<
            UserWithPassword,
            DbError,
        >(user),
        computed matches Ok(h) && h@ != user.password.hash@ ==> r matches Err(DbError::Mismatch),
        computed matches Err(e) ==> (r matches Err(f) && f == e),
{
    match computed {
        Ok(h) => {
            if bytes_equal(h.as_slice(), user.password.hash.as_slice()) {
                Ok(user)
            } else {
                Err(DbError::Mismatch)
            }
        },
        Err(e) => Err(e),
    }
}

/// Checks a login request against the stored user: the password is hashed
/// with the stored salt and compared with the stored hash.
pub fn check_password(login: &LoginUserV1, user: UserWithPassword) -> (r: Result<
    UserWithPassword,
    DbError,
>)
    ensures
        r is Ok <==> argon2_accepts(encode_utf8(login.password@), user.password.salt@)
            && argon2_digest(encode_utf8(login.password@), user.password.salt@)
            == user.password.hash@,
        r matches Ok(u) ==> u == user,
        !argon2_accepts(encode_utf8(login.password@), user.password.salt@) ==> r matches Err(
            DbError::IO(_),
        ),
        argon2_accepts(encode_utf8(login.password@), user.password.salt@) && argon2_digest(
            encode_utf8(login.password@),
            user.password.salt@,
        ) != user.password.hash@ ==> r matches Err(DbError::Mismatch),
{
    let computed = hash_password_with_salt(login.password.as_str(), user.password.salt.as_slice());
    verify_password_hash(user, computed)
}

/// Checks a login request against the login record stored under its name:
/// an unknown name is a mismatch, a known one is checked as by
/// `check_password`.
pub fn check_stored_password(login: &LoginUserV1, stored: Option<UserWithPassword>) -> (r: Result<
    UserWithPassword,
    DbError,
>)
    ensures
        stored is None ==> r matches Err(DbError::Mismatch),
        stored matches Some(user) ==> (r is Ok <==> argon2_accepts(
            encode_utf8(login.password@),
            user.password.salt@,
        ) && argon2_digest(encode_utf8(login.password@), user.password.salt@)
            == user.password.hash@),
        stored matches Some(user) ==> (r matches Ok(u) ==> u == user),
        stored matches Some(user) ==> (!argon2_accepts(
            encode_utf8(login.password@),
            user.password.salt@,
        ) ==> r matches Err(DbError::IO(_))),
        stored matches Some(user) ==> (argon2_accepts(
            encode_utf8(login.password@),
            user.password.salt@,
        ) && argon2_digest(encode_utf8(login.password@), user.password.salt@)
            != user.password.hash@ ==> r matches Err(DbError::Mismatch)),
{
    match stored {
        None => Err(DbError::Mismatch),
        Some(user) => check_password(login, user),
    }
}

/// A password hashed at registration passes the login check with the same
/// password: the stored salt is accepted and hashing again gives the stored
/// hash.
pub proof fn lemma_registered_password_verifies(password: Seq<char>, stored: Password)
    requires
        encode_utf8(password).len() <= 0xFFFF_FFFF,
        stored.salt@.len() == 32,
        stored.hash@ == argon2_digest(encode_utf8(password), stored.salt@),
    ensures
        argon2_accepts(encode_utf8(password), stored.salt@),
        argon2_digest(encode_utf8(password), stored.salt@) == stored.hash@,
{
}

/// Compares two byte strings.
pub fn bytes_equal(a: &[u8], b: &[u8]) -> (r: bool)
    ensures
        r == (a@ == b@),
{
    if a.len() != b.len() {
        return false;
    }
    let mut i: usize = 0;
    while i < a.len()
        invariant
            a@.len() == b@.len(),
            0 <= i <= a@.len(),
            forall|j: int| 0 <= j < i ==> a@[j] == b@[j],
        decreases a@.len() - i,
    {
        if a[i] != b[i] {
            return false;
        }
        i = i + 1;
    }
    assert(a@ =~= b@);
    true
}

} // verus!
