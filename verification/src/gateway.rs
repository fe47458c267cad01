//! The gateway's decisions: what to do with a request, and what to answer
//! once the backend has replied.
//!
//! The gateway keeps nothing between requests. Handling one request takes two
//! steps with the call to the backend between them: [`dispatch`] says whether
//! to answer at once, to show a form, or to send a command; [`complete`]
//! turns the backend's reply to that command into the response.

use vstd::prelude::*;

use crate::command::{CommandKind, CommandView, RpcCommand, RpcResult, TransportError};
use crate::error::MapError;
use crate::http::{
    HttpRequest, HttpResponse, Method, ResponseView, STATUS_METHOD_NOT_ALLOWED,
    STATUS_NOT_FOUND, STATUS_OK,
};
use crate::mapper::{
    map_del, map_del_spec, map_get, map_get_spec, map_set, map_set_spec, mapped_view,
};
use crate::routes::{key_segment, key_segment_spec, route, route_spec, Route};
use crate::translator::{
    outcome_from_reply, outcome_of_reply, refusal_spec, translate, translate_spec, Outcome,
};

verus! {

/// The two forms the gateway serves.
#[derive(Clone, Copy, Debug, PartialEq, Eq, Structural)]
pub enum Form {
    /// The form that posts to `/set`.
    SetKey,
    /// The form that posts to `/del`.
    DelKey,
}

/// What to do with a request.
#[derive(Clone, Debug, PartialEq, Eq)]
pub enum Action {
    /// Answer at once, without a call to the backend.
    Respond(HttpResponse),
    /// Answer at once with a static form.
    ShowForm(Form),
    /// Send the command to the backend and answer with what [`complete`]
    /// makes of the reply.
    Invoke(RpcCommand),
}

/// What an action is, with responses and commands taken by their views.
pub ghost enum ActionView {
    Respond(ResponseView),
    ShowForm(Form),
    Invoke(CommandView),
}

impl View for Action {
    type V = ActionView;

    open spec fn view(&self) -> ActionView {
        match self {
            Action::Respond(response) => ActionView::Respond(response@),
            Action::ShowForm(form) => ActionView::ShowForm(*form),
            Action::Invoke(cmd) => ActionView::Invoke(cmd@),
        }
    }
}

/// The answer to the liveness probe.
pub open spec fn pong_spec() -> ResponseView {
    ResponseView { status: STATUS_OK, body: "pong"@ }
}

/// The action that follows a mapping: send the command, or report why there
/// is none.
pub open spec fn mapped_action(mapped: Result<CommandView, MapError>) -> ActionView {
    match mapped {
        Ok(cmd) => ActionView::Invoke(cmd),
        Err(e) => ActionView::Respond(refusal_spec(e)),
    }
}

/// What to do with a request of the given method, path and body.
pub open spec fn dispatch_spec(method: Method, path: Seq<char>, body: Seq<u8>) -> ActionView {
    match route_spec(method, path) {
        Route::Ping => ActionView::Respond(pong_spec()),
        Route::GetKey => mapped_action(map_get_spec(key_segment_spec(path).unwrap())),
        Route::SetForm => ActionView::ShowForm(Form::SetKey),
        Route::SetKey => mapped_action(map_set_spec(body)),
        Route::DelForm => ActionView::ShowForm(Form::DelKey),
        Route::DelKey => mapped_action(map_del_spec(body)),
        Route::MethodNotAllowed => ActionView::Respond(
            ResponseView { status: STATUS_METHOD_NOT_ALLOWED, body: ""@ },
        ),
        Route::NotFound => ActionView::Respond(
            ResponseView { status: STATUS_NOT_FOUND, body: ""@ },
        ),
    }
}

/// The response to a request whose command of kind `kind` got `reply`.
pub open spec fn complete_spec(kind: CommandKind, reply: Result<RpcResult, TransportError>)
    -> ResponseView {
    translate_spec(outcome_of_reply(kind, reply))
}

/// Answers the liveness probe: always 200 with the body `pong`. The backend
/// has no part in it.
pub fn ping() -> (r: HttpResponse)
    ensures
        r@ == pong_spec(),
{
    HttpResponse::new(STATUS_OK, "pong")
}

/// Turns a mapping into the action that follows it.
fn act_on(mapped: Result<RpcCommand, MapError>) -> (a: Action)
    ensures
        a@ == mapped_action(mapped_view(mapped)),
{
    match mapped {
        Ok(cmd) => Action::Invoke(cmd),
        Err(e) => Action::Respond(translate(&Outcome::Refused(e))),
    }
}

/// First step of `GET /get/{key}`: a lookup of the key that the
/// percent-encoded `segment` names, or a 400 where it names none.
pub fn get_key(segment: &str) -> (a: Action)
    ensures
        a@ == mapped_action(map_get_spec(segment@)),
{
    act_on(map_get(segment))
}

/// First step of `POST /set`: the command that binds the key of the body
/// `key=value`, or a 400 where the body does not read so.
pub fn set_key(body: &[u8]) -> (a: Action)
    ensures
        a@ == mapped_action(map_set_spec(body@)),
{
    act_on(map_set(body))
}

/// First step of `POST /del`: the command that removes the key of the body
/// `key=<name>`, or a 400 where the body does not read so.
pub fn del_key(body: &[u8]) -> (a: Action)
    ensures
        a@ == mapped_action(map_del_spec(body@)),
{
    act_on(map_del(body))
}

/// Decides what to do with a request.
pub fn dispatch(request: &HttpRequest) -> (a: Action)
    ensures
        a@ == dispatch_spec(request.method, request.path@, request.body@),
{
    let path = request.path.as_str();
    let body = request.body.as_slice();
    match route(request.method, path) {
        Route::Ping => Action::Respond(ping()),
        Route::GetKey => match key_segment(path) {
            Some(segment) => get_key(segment),
            None => Action::Respond(HttpResponse::new(STATUS_NOT_FOUND, "")),
        },
        Route::SetForm => Action::ShowForm(Form::SetKey),
        Route::SetKey => set_key(body),
        Route::DelForm => Action::ShowForm(Form::DelKey),
        Route::DelKey => del_key(body),
        Route::MethodNotAllowed => Action::Respond(
            HttpResponse::new(STATUS_METHOD_NOT_ALLOWED, ""),
        ),
        Route::NotFound => Action::Respond(HttpResponse::new(STATUS_NOT_FOUND, "")),
    }
}

/// Second step of a request that sent a command of kind `kind`: the response
/// that reports the backend's reply.
pub fn complete(kind: CommandKind, reply: Result<RpcResult, TransportError>) -> (r: HttpResponse)
    ensures
        r@ == complete_spec(kind, reply),
{
    translate(&outcome_from_reply(kind, reply))
}

} // verus!
