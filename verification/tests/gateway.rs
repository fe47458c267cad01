use std::collections::HashMap;

use http_rpc::command::{CommandKind, RpcCommand, RpcResult, TransportError};
use http_rpc::gateway::{complete, del_key, dispatch, get_key, ping, set_key, Action, Form};
use http_rpc::http::{HttpRequest, HttpResponse, Method};

fn response(status: u16, body: &str) -> HttpResponse {
    HttpResponse { status, body: body.to_string() }
}

fn request(method: Method, path: &str, body: &[u8]) -> HttpRequest {
    HttpRequest { method, path: path.to_string(), body: body.to_vec() }
}

fn ok(ok: bool) -> Result<RpcResult, TransportError> {
    Ok(RpcResult { ok, payload: None })
}

/// A backend that lives in the test: a map, a switch that makes every call
/// fail, and a count of the calls it got.
struct Backend {
    store: HashMap<String, String>,
    reachable: bool,
    calls: usize,
}

impl Backend {
    fn new() -> Backend {
        Backend { store: HashMap::new(), reachable: true, calls: 0 }
    }

    fn invoke(&mut self, cmd: &RpcCommand) -> Result<RpcResult, TransportError> {
        self.calls += 1;
        if !self.reachable {
            return Err(TransportError);
        }
        let args = cmd.arguments();
        match cmd.kind() {
            CommandKind::GetKey => {
                let found = self.store.get(&args[0]).cloned();
                Ok(RpcResult { ok: found.is_some(), payload: found })
            }
            CommandKind::SetKey => {
                self.store.insert(args[0].clone(), args[1].clone());
                Ok(RpcResult { ok: true, payload: None })
            }
            CommandKind::DelKey => {
                let removed = self.store.remove(&args[0]);
                Ok(RpcResult { ok: removed.is_some(), payload: None })
            }
        }
    }

    fn serve(&mut self, method: Method, path: &str, body: &[u8]) -> HttpResponse {
        match dispatch(&request(method, path, body)) {
            Action::Respond(response) => response,
            Action::ShowForm(_) => panic!("a form where a response was expected"),
            Action::Invoke(cmd) => {
                let reply = self.invoke(&cmd);
                complete(cmd.kind(), reply)
            }
        }
    }
}

#[test]
fn ping_is_pong() {
    assert_eq!(ping(), response(200, "pong"));
}

#[test]
fn dispatch_ping_answers_at_once() {
    assert_eq!(
        dispatch(&request(Method::Get, "/ping", b"")),
        Action::Respond(response(200, "pong"))
    );
    assert_eq!(
        dispatch(&request(Method::Get, "/ping", b"a=b")),
        Action::Respond(response(200, "pong"))
    );
    assert_eq!(
        dispatch(&request(Method::Get, "/ping", b"\xff\xfe")),
        Action::Respond(response(200, "pong"))
    );
}

#[test]
fn ping_never_reaches_the_backend() {
    let mut backend = Backend::new();
    assert_eq!(backend.serve(Method::Get, "/ping", b""), response(200, "pong"));
    backend.reachable = false;
    assert_eq!(backend.serve(Method::Get, "/ping", b""), response(200, "pong"));
    assert_eq!(backend.calls, 0);
}

#[test]
fn get_key_sends_a_lookup() {
    assert_eq!(get_key("foo"), Action::Invoke(RpcCommand::get("foo".to_string())));
    assert_eq!(get_key("a%2Fb"), Action::Invoke(RpcCommand::get("a/b".to_string())));
}

#[test]
fn get_key_refuses_a_malformed_segment() {
    assert_eq!(get_key("%ff"), Action::Respond(response(400, "malformed path")));
    assert_eq!(get_key(""), Action::Respond(response(400, "malformed path")));
}

#[test]
fn set_key_sends_a_binding() {
    assert_eq!(
        set_key(b"foo=bar"),
        Action::Invoke(RpcCommand::set("foo".to_string(), "bar".to_string()))
    );
    assert_eq!(
        set_key(b"a=b=c"),
        Action::Invoke(RpcCommand::set("a".to_string(), "b=c".to_string()))
    );
}

#[test]
fn set_key_without_separator_is_400() {
    assert_eq!(set_key(b"foo"), Action::Respond(response(400, "malformed value")));
    assert_eq!(set_key(b""), Action::Respond(response(400, "malformed value")));
}

#[test]
fn set_key_with_empty_key_is_400() {
    assert_eq!(set_key(b"=bar"), Action::Respond(response(400, "malformed key")));
}

#[test]
fn set_key_with_a_body_that_is_not_text_is_400() {
    assert_eq!(set_key(b"k=\xff"), Action::Respond(response(400, "malformed body")));
}

#[test]
fn del_key_sends_a_removal() {
    assert_eq!(del_key(b"key=foo"), Action::Invoke(RpcCommand::delete("foo".to_string())));
}

#[test]
fn del_key_without_separator_is_400() {
    assert_eq!(del_key(b"foo"), Action::Respond(response(400, "malformed key")));
    assert_eq!(del_key(b""), Action::Respond(response(400, "malformed key")));
}

#[test]
fn del_key_with_a_body_that_is_not_text_is_400() {
    assert_eq!(del_key(b"\xff=foo"), Action::Respond(response(400, "malformed body")));
}

#[test]
fn malformed_bodies_never_reach_the_backend() {
    let mut backend = Backend::new();
    assert_eq!(backend.serve(Method::Post, "/set", b"foo").status, 400);
    assert_eq!(backend.serve(Method::Post, "/set", b"=bar").status, 400);
    assert_eq!(backend.serve(Method::Post, "/del", b"foo").status, 400);
    assert_eq!(backend.serve(Method::Post, "/set", b"\xff").status, 400);
    assert_eq!(backend.serve(Method::Get, "/get/%ff", b"").status, 400);
    assert_eq!(backend.calls, 0);
}

#[test]
fn dispatch_follows_the_route_table() {
    assert_eq!(
        dispatch(&request(Method::Get, "/get/foo", b"")),
        Action::Invoke(RpcCommand::get("foo".to_string()))
    );
    assert_eq!(dispatch(&request(Method::Get, "/set", b"")), Action::ShowForm(Form::SetKey));
    assert_eq!(
        dispatch(&request(Method::Post, "/set", b"foo=bar")),
        Action::Invoke(RpcCommand::set("foo".to_string(), "bar".to_string()))
    );
    assert_eq!(dispatch(&request(Method::Get, "/del", b"")), Action::ShowForm(Form::DelKey));
    assert_eq!(
        dispatch(&request(Method::Post, "/del", b"key=foo")),
        Action::Invoke(RpcCommand::delete("foo".to_string()))
    );
}

#[test]
fn dispatch_answers_404_to_unknown_paths() {
    assert_eq!(
        dispatch(&request(Method::Get, "/nowhere", b"")),
        Action::Respond(response(404, ""))
    );
    assert_eq!(dispatch(&request(Method::Get, "/get/", b"")), Action::Respond(response(404, "")));
    assert_eq!(
        dispatch(&request(Method::Get, "/get/a/b", b"")),
        Action::Respond(response(404, ""))
    );
    assert_eq!(dispatch(&request(Method::Post, "/", b"a=b")), Action::Respond(response(404, "")));
}

#[test]
fn dispatch_answers_405_to_other_methods() {
    assert_eq!(
        dispatch(&request(Method::Post, "/ping", b"")),
        Action::Respond(response(405, ""))
    );
    assert_eq!(
        dispatch(&request(Method::Post, "/get/foo", b"")),
        Action::Respond(response(405, ""))
    );
    assert_eq!(
        dispatch(&request(Method::Other, "/set", b"a=b")),
        Action::Respond(response(405, ""))
    );
    assert_eq!(
        dispatch(&request(Method::Other, "/del", b"key=a")),
        Action::Respond(response(405, ""))
    );
}

#[test]
fn complete_reports_the_reply() {
    assert_eq!(complete(CommandKind::GetKey, ok(true)), response(200, "found"));
    assert_eq!(complete(CommandKind::GetKey, ok(false)), response(404, "not found"));
    assert_eq!(complete(CommandKind::SetKey, ok(true)), response(200, "set ok"));
    assert_eq!(complete(CommandKind::SetKey, ok(false)), response(404, "set err"));
    assert_eq!(complete(CommandKind::DelKey, ok(true)), response(200, "del ok"));
    assert_eq!(complete(CommandKind::DelKey, ok(false)), response(404, "del err"));
}

#[test]
fn complete_reports_a_transport_failure_as_5xx() {
    for kind in [CommandKind::GetKey, CommandKind::SetKey, CommandKind::DelKey] {
        let r = complete(kind, Err(TransportError));
        assert!(500 <= r.status && r.status <= 599);
        assert_eq!(r, response(502, "backend unavailable"));
    }
}

#[test]
fn set_then_get_then_del_then_get() {
    let mut backend = Backend::new();
    assert_eq!(backend.serve(Method::Post, "/set", b"foo=bar"), response(200, "set ok"));
    assert_eq!(backend.serve(Method::Get, "/get/foo", b""), response(200, "found"));
    assert_eq!(backend.serve(Method::Post, "/del", b"key=foo"), response(200, "del ok"));
    assert_eq!(backend.serve(Method::Get, "/get/foo", b""), response(404, "not found"));
}

#[test]
fn a_key_that_was_set_is_found_under_its_encoded_path() {
    let cases: [(&[u8], &str); 5] = [
        (b"a/b=1", "/get/a%2Fb"),
        (b"hello world=1", "/get/hello%20world"),
        ("你好=1".as_bytes(), "/get/%E4%BD%A0%E5%A5%BD"),
        (b"100%=1", "/get/100%25"),
        (b"k=v=w", "/get/k"),
    ];
    for (body, path) in cases {
        let mut backend = Backend::new();
        assert_eq!(backend.serve(Method::Get, path, b""), response(404, "not found"));
        assert_eq!(backend.serve(Method::Post, "/set", body), response(200, "set ok"));
        assert_eq!(backend.serve(Method::Get, path, b""), response(200, "found"));
    }
}

#[test]
fn a_key_that_was_deleted_is_not_found() {
    let mut backend = Backend::new();
    assert_eq!(backend.serve(Method::Post, "/set", b"a/b=1"), response(200, "set ok"));
    assert_eq!(backend.serve(Method::Post, "/del", b"key=a/b"), response(200, "del ok"));
    assert_eq!(backend.serve(Method::Get, "/get/a%2Fb", b""), response(404, "not found"));
    // deleting what is not there is turned down, and the key stays unknown
    assert_eq!(backend.serve(Method::Post, "/del", b"key=a/b"), response(404, "del err"));
    assert_eq!(backend.serve(Method::Get, "/get/a%2Fb", b""), response(404, "not found"));
}

#[test]
fn sets_of_distinct_keys_do_not_depend_on_order() {
    let mut one = Backend::new();
    assert_eq!(one.serve(Method::Post, "/set", b"k1=v1"), response(200, "set ok"));
    assert_eq!(one.serve(Method::Post, "/set", b"k2=v2"), response(200, "set ok"));
    let mut other = Backend::new();
    assert_eq!(other.serve(Method::Post, "/set", b"k2=v2"), response(200, "set ok"));
    assert_eq!(other.serve(Method::Post, "/set", b"k1=v1"), response(200, "set ok"));
    assert_eq!(one.store, other.store);
    assert_eq!(one.store.get("k1"), Some(&"v1".to_string()));
    assert_eq!(one.store.get("k2"), Some(&"v2".to_string()));
}

#[test]
fn a_transport_failure_is_5xx_and_later_requests_are_served() {
    let mut backend = Backend::new();
    backend.reachable = false;
    for (method, path, body) in [
        (Method::Get, "/get/foo", &b""[..]),
        (Method::Post, "/set", &b"foo=bar"[..]),
        (Method::Post, "/del", &b"key=foo"[..]),
    ] {
        let r = backend.serve(method, path, body);
        assert!(500 <= r.status && r.status <= 599);
        assert_eq!(r.body, "backend unavailable");
    }
    backend.reachable = true;
    assert_eq!(backend.serve(Method::Post, "/set", b"foo=bar"), response(200, "set ok"));
    assert_eq!(backend.serve(Method::Get, "/get/foo", b""), response(200, "found"));
    assert_eq!(backend.serve(Method::Get, "/ping", b""), response(200, "pong"));
}
