use http_rpc::command::{CommandKind, RpcResult, TransportError};
use http_rpc::http::HttpResponse;
use http_rpc::error::{Field, MapError};
use http_rpc::translator::{outcome_from_reply, translate, Outcome};

fn http_response(status: u16, body: &str) -> HttpResponse {
    HttpResponse { status, body: body.to_string() }
}

fn answered(kind: CommandKind, ok: bool) -> Outcome {
    Outcome::Answered(kind, RpcResult { ok, payload: None })
}

#[test]
fn successful_answers_are_200() {
    assert_eq!(translate(&answered(CommandKind::GetKey, true)), http_response(200, "found"));
    assert_eq!(translate(&answered(CommandKind::SetKey, true)), http_response(200, "set ok"));
    assert_eq!(translate(&answered(CommandKind::DelKey, true)), http_response(200, "del ok"));
}

#[test]
fn rejected_answers_are_404() {
    assert_eq!(translate(&answered(CommandKind::GetKey, false)), http_response(404, "not found"));
    assert_eq!(translate(&answered(CommandKind::SetKey, false)), http_response(404, "set err"));
    assert_eq!(translate(&answered(CommandKind::DelKey, false)), http_response(404, "del err"));
}

#[test]
fn payload_does_not_change_the_response() {
    let with = Outcome::Answered(
        CommandKind::GetKey,
        RpcResult { ok: true, payload: Some("bar".to_string()) },
    );
    assert_eq!(translate(&with), http_response(200, "found"));
    let with = Outcome::Answered(
        CommandKind::GetKey,
        RpcResult { ok: false, payload: Some("bar".to_string()) },
    );
    assert_eq!(translate(&with), http_response(404, "not found"));
}

#[test]
fn malformed_requests_are_400_and_name_the_field() {
    assert_eq!(
        translate(&Outcome::Refused(MapError::MalformedBody(Field::Key))),
        http_response(400, "malformed key")
    );
    assert_eq!(
        translate(&Outcome::Refused(MapError::MalformedBody(Field::Value))),
        http_response(400, "malformed value")
    );
    assert_eq!(
        translate(&Outcome::Refused(MapError::MalformedBody(Field::Body))),
        http_response(400, "malformed body")
    );
    assert_eq!(
        translate(&Outcome::Refused(MapError::MalformedPath)),
        http_response(400, "malformed path")
    );
    assert_eq!(
        translate(&Outcome::Refused(MapError::WrongArity)),
        http_response(400, "malformed arguments")
    );
}

#[test]
fn no_command_is_an_empty_404() {
    assert_eq!(translate(&Outcome::Refused(MapError::NoCommand)), http_response(404, ""));
}

#[test]
fn transport_failure_is_502_with_a_fixed_body() {
    assert_eq!(translate(&Outcome::Failed(TransportError)), http_response(502, "backend unavailable"));
}

#[test]
fn outcome_from_reply_keeps_kind_and_result() {
    let result = RpcResult { ok: true, payload: Some("p".to_string()) };
    assert_eq!(
        outcome_from_reply(CommandKind::SetKey, Ok(result.clone())),
        Outcome::Answered(CommandKind::SetKey, result)
    );
    assert_eq!(
        outcome_from_reply(CommandKind::GetKey, Err(TransportError)),
        Outcome::Failed(TransportError)
    );
}
