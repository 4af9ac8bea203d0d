//! Client adapter for a remote text-generation HTTP endpoint.
//!
//! The library builds the JSON request body and target URL for one
//! generation exchange, and classifies the raw HTTP reply (status code
//! plus JSON body) into either an ordered sequence of generated text
//! segments or a typed error. Transport itself (the HTTP round trip)
//! is left to the caller.

use vstd::prelude::*;

pub mod codec;
pub mod json;
pub mod request;
pub mod response;

verus! {

/// An opaque API credential. The secret string is reachable only through
/// [`Credential::expose`], which callers use solely to fill the API-key
/// header of an outgoing request; the secret never appears in responses
/// or errors.
pub struct Credential {
    secret: String,
}

impl View for Credential {
    type V = Seq<char>;

    closed spec fn view(&self) -> Seq<char> {
        self.secret@
    }
}

impl Credential {
    /// Wrap a secret key string.
    pub fn new(secret: String) -> (r: Credential)
        ensures
            r@ == secret@,
    {
        Credential { secret }
    }

    /// The secret value, for header construction only.
    pub fn expose(&self) -> (r: &str)
        ensures
            r@ == self@,
    {
        self.secret.as_str()
    }
}

} // verus!
