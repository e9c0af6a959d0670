//! Content types of the static files served in development.

use vstd::prelude::*;

use crate::text::str_equals;

verus! {

/// The kinds of static files the development server distinguishes.
#[derive(Debug, Clone, Copy, PartialEq, Eq, Structural)]
pub enum FileType {
    Html,
    Css,
    Js,
    Wasm,
    Svg,
    Other,
}

/// The file type of a file extension.
pub open spec fn spec_file_type(ext: Seq<char>) -> FileType {
    if ext == "html"@ {
        FileType::Html
    } else if ext == "css"@ {
        FileType::Css
    } else if ext == "js"@ {
        FileType::Js
    } else if ext == "wasm"@ {
        FileType::Wasm
    } else if ext == "svg"@ {
        FileType::Svg
    } else {
        FileType::Other
    }
}

/// The media type a file type is served as.
pub open spec fn spec_mime_type(ft: FileType) -> Seq<char> {
    match ft {
        FileType::Html => "text/html; charset=utf-8"@,
        FileType::Css => "text/css; charset=utf-8"@,
        FileType::Js => "application/javascript; charset=utf-8"@,
        FileType::Wasm => "application/wasm"@,
        FileType::Svg => "image/svg+xml"@,
        FileType::Other => "text/plain; charset=utf-8"@,
    }
}

impl FileType {
    /// Classifies a file by its extension; unknown extensions are `Other`.
    pub fn from_extension(ext: &str) -> (ft: Self)
        ensures
            ft == spec_file_type(ext@),
    {
        if str_equals(ext, "html") {
            FileType::Html
        } else if str_equals(ext, "css") {
            FileType::Css
        } else if str_equals(ext, "js") {
            FileType::Js
        } else if str_equals(ext, "wasm") {
            FileType::Wasm
        } else if str_equals(ext, "svg") {
            FileType::Svg
        } else {
            FileType::Other
        }
    }

    /// The media type the file is served as.
    pub fn mime_type(&self) -> (m: &'static str)
        ensures
            m@ == spec_mime_type(*self),
    {
        match self {
            FileType::Html => "text/html; charset=utf-8",
            FileType::Css => "text/css; charset=utf-8",
            FileType::Js => "application/javascript; charset=utf-8",
            FileType::Wasm => "application/wasm",
            FileType::Svg => "image/svg+xml",
            FileType::Other => "text/plain; charset=utf-8",
        }
    }
}


/// Each kind of static file is served with a media type of its own: no two
/// kinds share one, only unknown files are served as plain text, and
/// scripts (`.js`) are served as JavaScript, so browsers run them.
pub proof fn lemma_media_types(a: FileType, b: FileType)
    ensures
        a != b ==> spec_mime_type(a) != spec_mime_type(b),
        a != FileType::Other ==> spec_mime_type(a) != "text/plain; charset=utf-8"@,
        spec_mime_type(spec_file_type("js"@)) == "application/javascript; charset=utf-8"@,
        spec_mime_type(spec_file_type("html"@)) == "text/html; charset=utf-8"@,
{
    reveal_strlit("text/html; charset=utf-8");
    reveal_strlit("text/css; charset=utf-8");
    reveal_strlit("application/javascript; charset=utf-8");
    reveal_strlit("application/wasm");
    reveal_strlit("image/svg+xml");
    reveal_strlit("text/plain; charset=utf-8");
    reveal_strlit("html");
    reveal_strlit("css");
    reveal_strlit("js");
    assert("js"@.len() == 2 && "html"@.len() == 4 && "css"@.len() == 3);
    assert("text/html; charset=utf-8"@.len() == 24);
    assert("text/css; charset=utf-8"@.len() == 23);
    assert("application/javascript; charset=utf-8"@.len() == 37);
    assert("application/wasm"@.len() == 16);
    assert("image/svg+xml"@.len() == 13);
    assert("text/plain; charset=utf-8"@.len() == 25);
    assert(spec_mime_type(a).len() != spec_mime_type(b).len() || a == b);
}

} // verus!
