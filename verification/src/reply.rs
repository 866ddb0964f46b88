use vstd::prelude::*;

use crate::error::GlueError;

verus! {

/// A decoded reply from the store, held as plain values.
///
/// The variants mirror the shapes a reply can take on the wire once the
/// client library has parsed it: nothing, an "OK" confirmation, another
/// status line, an integer, a binary payload, or a list of further replies.
#[derive(Debug, PartialEq, Eq)]
pub enum Reply {
    /// A nil reply.
    Nil,
    /// The canonical "OK" status reply.
    Okay,
    /// Any other status line.
    Status(String),
    /// An integer reply.
    Int(i64),
    /// A binary payload.
    Data(Vec<u8>),
    /// A list of nested replies.
    Bulk(Vec<Reply>),
}

/// What a byte payload decodes to as UTF-8, if it decodes at all.
/// The result depends on the bytes alone.
pub uninterp spec fn utf8_decode(bytes: Seq<u8>) -> Option<Seq<char>>;

/// Relies on std's String::from_utf8: whether a byte payload is valid
/// UTF-8, and what string it then is, are functions of the bytes alone.
#[verifier::external_body]
fn utf8_string(bytes: Vec<u8>) -> (r: Result<String, GlueError>)
    ensures
        match r {
            Ok(s) => utf8_decode(bytes@) == Some(s@),
            Err(e) => utf8_decode(bytes@) is None && e == GlueError::TypeMismatch,
        },
{
    match String::from_utf8(bytes) {
        Ok(s) => Ok(s),
        Err(_) => Err(GlueError::TypeMismatch),
    }
}

/// The string a reply decodes to, or the error class when it has no
/// string shape: a status line is itself, the "OK" confirmation is "OK",
/// a binary payload must be valid UTF-8, and every other shape is a
/// type mismatch.
pub open spec fn spec_decode_string(r: Reply) -> Result<Seq<char>, GlueError> {
    match r {
        Reply::Status(s) => Ok(s@),
        Reply::Okay => Ok("OK"@),
        Reply::Data(b) => match utf8_decode(b@) {
            Some(s) => Ok(s),
            None => Err(GlueError::TypeMismatch),
        },
        _ => Err(GlueError::TypeMismatch),
    }
}

/// The integer a reply decodes to, or a type mismatch when the reply is
/// not an integer.
pub open spec fn spec_decode_int(r: Reply) -> Result<i64, GlueError> {
    match r {
        Reply::Int(v) => Ok(v),
        _ => Err(GlueError::TypeMismatch),
    }
}

/// The byte payload a reply carries, or a type mismatch when it carries
/// none.
pub open spec fn spec_decode_bytes(r: Reply) -> Result<Seq<u8>, GlueError> {
    match r {
        Reply::Data(b) => Ok(b@),
        _ => Err(GlueError::TypeMismatch),
    }
}

impl Reply {
    /// Decode the reply as a string, exactly as `spec_decode_string` says.
    pub fn into_string(self) -> (r: Result<String, GlueError>)
        ensures
            match r {
                Ok(s) => spec_decode_string(self) == Ok::<Seq<char>, GlueError>(s@),
                Err(e) => spec_decode_string(self) == Err::<Seq<char>, GlueError>(e),
            },
    {
        match self {
            Reply::Status(s) => Ok(s),
            Reply::Okay => Ok("OK".to_owned()),
            Reply::Data(b) => utf8_string(b),
            _ => Err(GlueError::TypeMismatch),
        }
    }

    /// Decode the reply as an integer, exactly as `spec_decode_int` says.
    pub fn into_int(self) -> (r: Result<i64, GlueError>)
        ensures
            r == spec_decode_int(self),
    {
        match self {
            Reply::Int(v) => Ok(v),
            _ => Err(GlueError::TypeMismatch),
        }
    }

    /// Decode the reply as a byte payload, exactly as `spec_decode_bytes`
    /// says.
    pub fn into_bytes(self) -> (r: Result<Vec<u8>, GlueError>)
        ensures
            match r {
                Ok(b) => spec_decode_bytes(self) == Ok::<Seq<u8>, GlueError>(b@),
                Err(e) => spec_decode_bytes(self) == Err::<Seq<u8>, GlueError>(e),
            },
    {
        match self {
            Reply::Data(b) => Ok(b),
            _ => Err(GlueError::TypeMismatch),
        }
    }

    /// Decode the reply as a bare acknowledgement. Every reply shape
    /// counts as acknowledged, matching the client library's own rule for
    /// callers that ask for nothing back.
    pub fn into_unit(self) -> (r: Result<(), GlueError>)
        ensures
            r == Ok::<(), GlueError>(()),
    {
        Ok(())
    }
}

} // verus!
