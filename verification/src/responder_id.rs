//! The responder ID type: a node's unique identifier, expected to take the
//! form `host:port`.

use vstd::prelude::*;
use vstd::string::StringSliceAdditionalSpecFns;

verus! {

/// Why a string failed to parse as a responder ID.
#[derive(Clone, Debug, PartialEq, Eq, PartialOrd, Ord)]
pub enum ResponderIdParseError {
    /// The input bytes were not valid UTF-8.
    FromUtf8Error(Vec<u8>),
    /// The input lacks the expected `host:port` shape.
    InvalidFormat(String),
}

/// Node unique identifier.
#[derive(Clone, Debug, PartialEq, Eq, PartialOrd, Ord, Hash)]
pub struct ResponderId(pub String);

/// Whether the bytes hold at least one colon, the sanity test that the
/// `host:port` shape asks for.
pub open spec fn has_colon(bytes: Seq<u8>) -> bool {
    exists|i: int| 0 <= i < bytes.len() && bytes[i] == 58u8
}

impl ResponderId {
    /// Parse a responder ID from a string: any string holding at least one
    /// colon is accepted as it stands, and any other is rejected as
    /// malformed, handed back inside the error.
    pub fn from_str(src: &str) -> (r: Result<ResponderId, ResponderIdParseError>)
        ensures
            has_colon(src.spec_bytes()) ==> (r matches Ok(id) && id.0@ == src@),
            !has_colon(src.spec_bytes()) ==> (r matches Err(
                ResponderIdParseError::InvalidFormat(t),
            ) && t@ == src@),
    {
        let bytes = src.as_bytes();
        let n = bytes.len();
        let mut i: usize = 0;
        let mut found = false;
        while i < n
            invariant
                i <= n,
                n == bytes@.len(),
                bytes@ == src.spec_bytes(),
                found <==> exists|j: int| 0 <= j < i && bytes@[j] == 58u8,
            decreases n - i,
        {
            if bytes[i] == 58u8 {
                found = true;
            }
            i = i + 1;
        }
        if found {
            Ok(ResponderId(src.to_owned()))
        } else {
            Err(ResponderIdParseError::InvalidFormat(src.to_owned()))
        }
    }

    /// The identifier as a plain string, as it would be displayed.
    pub fn to_display_string(&self) -> (r: String)
        ensures
            r@ == self.0@,
    {
        self.0.clone()
    }

    /// This identifier itself, borrowed.
    pub fn as_ref(&self) -> (r: &ResponderId)
        ensures
            r == self,
    {
        self
    }
}

impl Default for ResponderId {
    /// The empty identifier.
    fn default() -> (r: Self)
        ensures
            r.0@ == Seq::<char>::empty(),
    {
        ResponderId(String::new())
    }
}

} // verus!
