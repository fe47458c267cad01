//! Why a request is refused before anything is sent to the backend.

use vstd::prelude::*;

verus! {

/// The part of a request body that is at fault.
#[derive(Clone, Copy, Debug, PartialEq, Eq, Structural)]
pub enum Field {
    /// The body as a whole: it is not UTF-8 text.
    Body,
    /// The key.
    Key,
    /// The value.
    Value,
}

/// Why a request did not become a command. Each of these is the client's
/// fault; none of them is ever followed by a call to the backend.
#[derive(Clone, Copy, Debug, PartialEq, Eq, Structural)]
pub enum MapError {
    /// The body is not the text `key=value`; the field says which part is at
    /// fault.
    MalformedBody(Field),
    /// The key in the path does not decode to a text that is not empty.
    MalformedPath,
    /// The number of arguments is not the one that the command takes.
    WrongArity,
    /// The method and path are not those of a command.
    NoCommand,
}

} // verus!
