//! Shared model, encoding negotiation and request/response logic of the
//! shopping-list service, with its contracts proved by Verus.

use vstd::prelude::*;

pub mod model;
pub mod client;
pub mod config;
pub mod db;
pub mod errors;
pub mod files;
pub mod handlers;
pub mod identity;
pub mod numbers;
pub mod password;
pub mod payload;
pub mod response;
pub mod routing;
pub mod runner;
pub mod session_store;
pub mod text;
pub mod ui;

verus! {

/// Wire format negotiated between client and server.
#[derive(Debug, Clone, Copy, PartialEq, Eq, Structural)]
pub enum Encoding {
    JSON,
    Rkyv,
}

impl Default for Encoding {
    /// The binary archive format is the default encoding.
    fn default() -> (e: Self)
        ensures
            e == Encoding::Rkyv,
    {
        Encoding::Rkyv
    }
}

/// The media type naming an encoding.
pub open spec fn spec_mime_type(e: Encoding) -> Seq<char> {
    match e {
        Encoding::JSON => "application/json"@,
        Encoding::Rkyv => "application/rkyv"@,
    }
}

impl Encoding {
    /// The encoding a request asks for through its `Content-Type` or
    /// `Accept` header: JSON when it names `application/json`, the default
    /// otherwise.
    pub fn from_header(value: Option<&str>) -> (e: Self)
        ensures
            value matches Some(v) && v@ == "application/json"@ ==> e == Encoding::JSON,
            !(value matches Some(v) && v@ == "application/json"@) ==> e == Encoding::Rkyv,
    {
        match value {
            Some(v) => if text::str_equals(v, "application/json") {
                Encoding::JSON
            } else {
                Encoding::default()
            },
            None => Encoding::default(),
        }
    }

    /// The media type sent in `Content-Type` and `Accept` headers.
    pub fn mime_type(&self) -> (m: &'static str)
        ensures
            m@ == spec_mime_type(*self),
    {
        match self {
            Encoding::JSON => "application/json",
            Encoding::Rkyv => "application/rkyv",
        }
    }
}

/// The server answers in the encoding a client names in its headers.
pub proof fn lemma_encoding_header_roundtrip(e: Encoding)
    ensures
        (e == Encoding::JSON) <==> spec_mime_type(e) == "application/json"@,
{
    reveal_strlit("application/json");
    reveal_strlit("application/rkyv");
    if e == Encoding::Rkyv {
        assert("application/rkyv"@[12] != "application/json"@[12]);
    }
}

/// Marker for the objects that travel between client and server in either
/// encoding.
pub trait ApiObject {

}

impl ApiObject for () {

}

impl ApiObject for u64 {

}

impl ApiObject for u32 {

}

impl ApiObject for u16 {

}

impl ApiObject for u8 {

}

impl ApiObject for i64 {

}

impl ApiObject for i32 {

}

impl ApiObject for i16 {

}

impl ApiObject for i8 {

}

impl<T: ApiObject> ApiObject for Vec<T> {

}

} // verus!
