//! Translation of what became of a request into the response that reports it.
//!
//! | Outcome                           | Status | Body                  |
//! |-----------------------------------|--------|-----------------------|
//! | lookup carried out                | 200    | `found`               |
//! | lookup turned down                | 404    | `not found`           |
//! | binding carried out               | 200    | `set ok`              |
//! | binding turned down               | 404    | `set err`             |
//! | removal carried out               | 200    | `del ok`              |
//! | removal turned down               | 404    | `del err`             |
//! | body that is not text             | 400    | `malformed body`      |
//! | body with a malformed key         | 400    | `malformed key`       |
//! | body with a malformed value       | 400    | `malformed value`     |
//! | path with a malformed key         | 400    | `malformed path`      |
//! | wrong number of arguments         | 400    | `malformed arguments` |
//! | not a command                     | 404    | empty                 |
//! | the backend could not be reached  | 502    | `backend unavailable` |
//!
//! A binding or a removal that the backend turns down is reported as 404,
//! like a lookup that finds nothing. Clients rely on these codes, so they are
//! kept as they are.

use vstd::prelude::*;

use crate::command::{CommandKind, RpcResult, TransportError};
use crate::http::{
    HttpResponse, ResponseView, STATUS_BAD_GATEWAY, STATUS_BAD_REQUEST, STATUS_NOT_FOUND,
    STATUS_OK,
};
use crate::error::{Field, MapError};

verus! {

/// What became of a request.
#[derive(Clone, Debug, PartialEq, Eq)]
pub enum Outcome {
    /// The request was refused before any call was made.
    Refused(MapError),
    /// The call to the backend did not complete.
    Failed(TransportError),
    /// The backend answered a command of the given kind.
    Answered(CommandKind, RpcResult),
}

/// The outcome that the backend's reply to a command of kind `kind` makes.
pub open spec fn outcome_of_reply(kind: CommandKind, reply: Result<RpcResult, TransportError>)
    -> Outcome {
    match reply {
        Ok(result) => Outcome::Answered(kind, result),
        Err(e) => Outcome::Failed(e),
    }
}

/// The response that reports a refused request.
pub open spec fn refusal_spec(e: MapError) -> ResponseView {
    match e {
        MapError::MalformedBody(Field::Body) => ResponseView {
            status: STATUS_BAD_REQUEST,
            body: "malformed body"@,
        },
        MapError::MalformedBody(Field::Key) => ResponseView {
            status: STATUS_BAD_REQUEST,
            body: "malformed key"@,
        },
        MapError::MalformedBody(Field::Value) => ResponseView {
            status: STATUS_BAD_REQUEST,
            body: "malformed value"@,
        },
        MapError::MalformedPath => ResponseView {
            status: STATUS_BAD_REQUEST,
            body: "malformed path"@,
        },
        MapError::WrongArity => ResponseView {
            status: STATUS_BAD_REQUEST,
            body: "malformed arguments"@,
        },
        MapError::NoCommand => ResponseView { status: STATUS_NOT_FOUND, body: ""@ },
    }
}

/// The response that reports the backend's answer to a command of kind
/// `kind`: 200 where it carried the command out, 404 where it did not.
pub open spec fn answer_spec(kind: CommandKind, ok: bool) -> ResponseView {
    match kind {
        CommandKind::GetKey => if ok {
            ResponseView { status: STATUS_OK, body: "found"@ }
        } else {
            ResponseView { status: STATUS_NOT_FOUND, body: "not found"@ }
        },
        CommandKind::SetKey => if ok {
            ResponseView { status: STATUS_OK, body: "set ok"@ }
        } else {
            ResponseView { status: STATUS_NOT_FOUND, body: "set err"@ }
        },
        CommandKind::DelKey => if ok {
            ResponseView { status: STATUS_OK, body: "del ok"@ }
        } else {
            ResponseView { status: STATUS_NOT_FOUND, body: "del err"@ }
        },
    }
}

/// The response that reports a call that did not complete. It says nothing
/// of why the call failed.
pub open spec fn failure_spec() -> ResponseView {
    ResponseView { status: STATUS_BAD_GATEWAY, body: "backend unavailable"@ }
}

/// The response that reports `outcome`.
pub open spec fn translate_spec(outcome: Outcome) -> ResponseView {
    match outcome {
        Outcome::Refused(e) => refusal_spec(e),
        Outcome::Failed(_) => failure_spec(),
        Outcome::Answered(kind, result) => answer_spec(kind, result.ok),
    }
}

/// Makes the outcome of the backend's reply to a command of kind `kind`.
pub fn outcome_from_reply(kind: CommandKind, reply: Result<RpcResult, TransportError>) -> (o:
    Outcome)
    ensures
        o == outcome_of_reply(kind, reply),
{
    match reply {
        Ok(result) => Outcome::Answered(kind, result),
        Err(e) => Outcome::Failed(e),
    }
}

/// Translates what became of a request into the response that reports it.
pub fn translate(outcome: &Outcome) -> (r: HttpResponse)
    ensures
        r@ == translate_spec(*outcome),
{
    match outcome {
        Outcome::Refused(e) => match e {
            MapError::MalformedBody(Field::Body) => HttpResponse::new(
                STATUS_BAD_REQUEST,
                "malformed body",
            ),
            MapError::MalformedBody(Field::Key) => HttpResponse::new(
                STATUS_BAD_REQUEST,
                "malformed key",
            ),
            MapError::MalformedBody(Field::Value) => HttpResponse::new(
                STATUS_BAD_REQUEST,
                "malformed value",
            ),
            MapError::MalformedPath => HttpResponse::new(STATUS_BAD_REQUEST, "malformed path"),
            MapError::WrongArity => HttpResponse::new(STATUS_BAD_REQUEST, "malformed arguments"),
            MapError::NoCommand => HttpResponse::new(STATUS_NOT_FOUND, ""),
        },
        Outcome::Failed(_) => HttpResponse::new(STATUS_BAD_GATEWAY, "backend unavailable"),
        Outcome::Answered(kind, result) => match kind {
            CommandKind::GetKey => if result.ok {
                HttpResponse::new(STATUS_OK, "found")
            } else {
                HttpResponse::new(STATUS_NOT_FOUND, "not found")
            },
            CommandKind::SetKey => if result.ok {
                HttpResponse::new(STATUS_OK, "set ok")
            } else {
                HttpResponse::new(STATUS_NOT_FOUND, "set err")
            },
            CommandKind::DelKey => if result.ok {
                HttpResponse::new(STATUS_OK, "del ok")
            } else {
                HttpResponse::new(STATUS_NOT_FOUND, "del err")
            },
        },
    }
}

} // verus!
