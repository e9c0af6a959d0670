//! The API client's own logic: endpoints, negotiated headers and how
//! transport outcomes become client errors.

use vstd::prelude::*;
use vstd::string::*;

use crate::numbers::{be_value, u64_from_be_slice, u64_to_decimal, decimal_digits};
use crate::text::{join2, join3};
use crate::{spec_mime_type, Encoding};

verus! {

/// The ways an API call can fail, as seen by the client.
#[derive(Debug)]
pub enum APIError {
    /// The server could not be reached; carries the transport message.
    Network(String),
    InternalServer,
    Unauthorized,
    Unauthenticated,
    /// The request could not be encoded; carries the message.
    Encoding(String),
    /// The response could not be decoded; carries the message.
    Decoding(String),
    /// Any other failure, described by its message.
    Unknown(String),
}

/// The message of a client error.
pub open spec fn spec_api_error_message(e: APIError) -> Seq<char> {
    match e {
        APIError::Network(m) => "A network error occurred: "@ + m@,
        APIError::InternalServer => "An internal server error occured."@,
        APIError::Unauthorized => "You are not authorized to access the requested resource."@,
        APIError::Unauthenticated =>
            "You must authenticate yourself to access the requested resource."@,
        APIError::Encoding(m) => "An unexpected error occurred while encoding the request: "@ + m@,
        APIError::Decoding(m) => "An unexpected error occurred while decoding the response: "@ + m@,
        APIError::Unknown(m) => "Unknown error: "@ + m@,
    }
}

impl APIError {
    /// The human-readable description of the error.
    pub fn message(&self) -> (m: String)
        ensures
            m@ == spec_api_error_message(*self),
    {
        match self {
            APIError::Network(e) => join2("A network error occurred: ", e.as_str()),
            APIError::InternalServer => String::from_str("An internal server error occured."),
            APIError::Unauthorized => String::from_str(
                "You are not authorized to access the requested resource.",
            ),
            APIError::Unauthenticated => String::from_str(
                "You must authenticate yourself to access the requested resource.",
            ),
            APIError::Encoding(e) => join2(
                "An unexpected error occurred while encoding the request: ",
                e.as_str(),
            ),
            APIError::Decoding(e) => join2(
                "An unexpected error occurred while decoding the response: ",
                e.as_str(),
            ),
            APIError::Unknown(e) => join2("Unknown error: ", e.as_str()),
        }
    }

    /// Classifies a failed HTTP exchange. `status` is the response status
    /// code, if a response came back, and `status_text` its printed form;
    /// `message` describes the failure.
    pub fn from_http_failure(status: Option<u16>, status_text: &str, message: String) -> (e: Self)
        ensures
            status is None ==> (e matches APIError::Network(m) && m@ == message@),
            status == Some(401u16) ==> e is Unauthenticated,
            status == Some(403u16) ==> e is Unauthorized,
            status == Some(500u16) ==> e is InternalServer,
            status matches Some(c) && c != 401 && c != 403 && c != 500 ==> (e matches APIError::Unknown(
                m,
            ) && m@ == "Unexpected status code: "@ + status_text@ + " with message "@ + message@),
    {
        match status {
            None => APIError::Network(message),
            Some(code) => if code == 401 {
                APIError::Unauthenticated
            } else if code == 403 {
                APIError::Unauthorized
            } else if code == 500 {
                APIError::InternalServer
            } else {
                let head = join3("Unexpected status code: ", status_text, " with message ");
                APIError::Unknown(join2(head.as_str(), message.as_str()))
            },
        }
    }

    /// Classifies a failed HTTP exchange the way the web client does: there a
    /// 401 answer means missing authorization and a 403 answer a missing
    /// login. Everything else is classified as by `from_http_failure`.
    pub fn from_web_http_failure(status: Option<u16>, status_text: &str, message: String) -> (e: Self)
        ensures
            status is None ==> (e matches APIError::Network(m) && m@ == message@),
            status == Some(401u16) ==> e is Unauthorized,
            status == Some(403u16) ==> e is Unauthenticated,
            status == Some(500u16) ==> e is InternalServer,
            status matches Some(c) && c != 401 && c != 403 && c != 500 ==> (e matches APIError::Unknown(
                m,
            ) && m@ == "Unexpected status code: "@ + status_text@ + " with message "@ + message@),
    {
        match status {
            Some(401) => APIError::Unauthorized,
            Some(403) => APIError::Unauthenticated,
            _ => APIError::from_http_failure(status, status_text, message),
        }
    }

    /// A JSON failure: an I/O failure happens while writing the request, any
    /// other while reading the response.
    pub fn from_json_failure(is_io: bool, message: String) -> (e: Self)
        ensures
            is_io ==> (e matches APIError::Encoding(m) && m@ == message@),
            !is_io ==> (e matches APIError::Decoding(m) && m@ == message@),
    {
        if is_io {
            APIError::Encoding(message)
        } else {
            APIError::Decoding(message)
        }
    }
}

/// Settings of the API client.
#[derive(Debug, Clone)]
pub struct ClientConfig {
    pub encoding: Encoding,
    /// Directory the cookie store is saved in.
    pub cookie_store_base_path: String,
}

impl ClientConfig {
    /// The default encoding with the cookie store in `cookie_store_base_path`.
    pub fn with_base_path(cookie_store_base_path: String) -> (c: Self)
        ensures
            c.encoding == Encoding::Rkyv,
            c.cookie_store_base_path@ == cookie_store_base_path@,
    {
        ClientConfig { encoding: Encoding::default(), cookie_store_base_path }
    }
}

/// The client's view of the server: its address and the negotiated settings.
#[derive(Debug, Clone)]
pub struct ApiClient {
    base_url: String,
    config: ClientConfig,
}

/// The address of an endpoint below the server's base address.
pub open spec fn endpoint(base: Seq<char>, path: Seq<char>) -> Seq<char> {
    base + path
}

impl ApiClient {
    pub closed spec fn spec_base_url(&self) -> Seq<char> {
        self.base_url@
    }

    pub closed spec fn spec_cookie_store_base_path(&self) -> Seq<char> {
        self.config.cookie_store_base_path@
    }

    pub closed spec fn spec_encoding(&self) -> Encoding {
        self.config.encoding
    }

    /// A client for the server at `base_url` with the given settings.
    pub fn new_with_config(base_url: String, config: ClientConfig) -> (c: Self)
        ensures
            c.spec_base_url() == base_url@,
            c.spec_encoding() == config.encoding,
            c.spec_cookie_store_base_path() == config.cookie_store_base_path@,
    {
        ApiClient { base_url, config }
    }

    /// A client for the server at `base_url` with the default encoding.
    pub fn new(base_url: String, cookie_store_base_path: String) -> (c: Self)
        ensures
            c.spec_base_url() == base_url@,
            c.spec_encoding() == Encoding::Rkyv,
            c.spec_cookie_store_base_path() == cookie_store_base_path@,
    {
        ApiClient { base_url, config: ClientConfig::with_base_path(cookie_store_base_path) }
    }

    /// Switches the encoding used for later requests.
    pub fn set_encoding(&mut self, encoding: Encoding)
        ensures
            final(self).spec_encoding() == encoding,
            final(self).spec_base_url() == old(self).spec_base_url(),
            final(self).spec_cookie_store_base_path() == old(self).spec_cookie_store_base_path(),
    {
        self.config.encoding = encoding;
    }

    /// The encoding currently used.
    pub fn encoding(&self) -> (e: Encoding)
        ensures
            e == self.spec_encoding(),
    {
        self.config.encoding
    }

    /// The directory the cookie store is saved in.
    pub fn cookie_store_base_path(&self) -> (p: &str)
        ensures
            p@ == self.spec_cookie_store_base_path(),
    {
        self.config.cookie_store_base_path.as_str()
    }

    /// The `Content-Type` and `Accept` header values of every request: both
    /// name the current encoding.
    pub fn request_headers(&self) -> (h: (&'static str, &'static str))
        ensures
            h.0@ == spec_mime_type(self.spec_encoding()),
            h.1@ == spec_mime_type(self.spec_encoding()),
    {
        let m = self.config.encoding.mime_type();
        (m, m)
    }

    /// The login endpoint.
    pub fn login_url(&self) -> (u: String)
        ensures
            u@ == endpoint(self.spec_base_url(), "/login/v1"@),
    {
        join2(self.base_url.as_str(), "/login/v1")
    }

    /// The registration endpoint.
    pub fn register_url(&self) -> (u: String)
        ensures
            u@ == endpoint(self.spec_base_url(), "/register/v1"@),
    {
        join2(self.base_url.as_str(), "/register/v1")
    }

    /// The endpoint listing the user's lists.
    pub fn all_lists_url(&self) -> (u: String)
        ensures
            u@ == endpoint(self.spec_base_url(), "/user/lists"@),
    {
        join2(self.base_url.as_str(), "/user/lists")
    }

    /// The endpoint lists are created and updated at.
    pub fn item_list_url(&self) -> (u: String)
        ensures
            u@ == endpoint(self.spec_base_url(), "/itemList"@),
    {
        join2(self.base_url.as_str(), "/itemList")
    }

    /// The endpoint new items of a list are posted to.
    pub fn new_item_url(&self) -> (u: String)
        ensures
            u@ == endpoint(self.spec_base_url(), "/item/attached"@),
    {
        join2(self.base_url.as_str(), "/item/attached")
    }

    /// The endpoint items are deleted at.
    pub fn delete_item_url(&self) -> (u: String)
        ensures
            u@ == endpoint(self.spec_base_url(), "/item"@),
    {
        join2(self.base_url.as_str(), "/item")
    }

    /// The endpoint of a list together with its items.
    pub fn fetch_list_url(&self, list_id: u64) -> (u: String)
        ensures
            u@ == endpoint(
                self.spec_base_url(),
                "/itemList/"@ + decimal_digits(list_id as nat) + "/flat"@,
            ),
    {
        let id = u64_to_decimal(list_id);
        let head = join2(self.base_url.as_str(), "/itemList/");
        join3(head.as_str(), id.as_str(), "/flat")
    }

    /// The address of an image.
    pub fn get_img_url(&self, image_id: u64) -> (u: String)
        ensures
            u@ == endpoint(self.spec_base_url(), "/image/"@ + decimal_digits(image_id as nat)),
    {
        let id = u64_to_decimal(image_id);
        join3(self.base_url.as_str(), "/image/", id.as_str())
    }
}

/// Reads the id the server answers a creation with: exactly eight bytes,
/// big-endian. Any other length is a decoding error.
pub fn decode_created_id(body: &[u8]) -> (r: Result<u64, APIError>)
    ensures
        body@.len() == 8 ==> (r matches Ok(id) && id as nat == be_value(body@)),
        body@.len() != 8 ==> (r matches Err(APIError::Decoding(m)) && m@
            == "could not convert slice to array"@),
{
    match u64_from_be_slice(body) {
        Some(id) => Ok(id),
        None => Err(APIError::Decoding(String::from_str("could not convert slice to array"))),
    }
}

} // verus!
