use vstd::prelude::*;

verus! {

/// The error classes that this layer reports to its callers.
///
/// Failures during construction (an address that does not parse, or an
/// initial connection that cannot be opened) are `Connection` errors.
/// Failures while a command is in flight are `Transport` (the link dropped
/// or timed out), `Protocol` (the reply could not be understood) or
/// `TypeMismatch` (the reply was understood but does not have the shape the
/// caller asked for).
#[derive(Clone, Copy, Debug, PartialEq, Eq, Structural)]
pub enum GlueError {
    /// An address was unparsable or the initial connect failed.
    Connection,
    /// The connection dropped, timed out, or redirects were exhausted.
    Transport,
    /// The reply could not be parsed.
    Protocol,
    /// The reply does not decode into the requested shape.
    TypeMismatch,
}

impl GlueError {
    /// A short human-readable description of the error class.
    pub fn describe(&self) -> (r: String)
        ensures
            *self is Connection ==> r@ == "could not configure or open a connection"@,
            *self is Transport ==> r@ == "the connection failed while a command was in flight"@,
            *self is Protocol ==> r@ == "the reply could not be parsed"@,
            *self is TypeMismatch ==> r@ == "the reply does not have the requested shape"@,
    {
        match self {
            GlueError::Connection => "could not configure or open a connection".to_owned(),
            GlueError::Transport => "the connection failed while a command was in flight".to_owned(),
            GlueError::Protocol => "the reply could not be parsed".to_owned(),
            GlueError::TypeMismatch => "the reply does not have the requested shape".to_owned(),
        }
    }
}

} // verus!
