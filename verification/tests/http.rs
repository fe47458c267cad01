use http_rpc::http::{
    HttpResponse, STATUS_BAD_GATEWAY, STATUS_BAD_REQUEST, STATUS_METHOD_NOT_ALLOWED,
    STATUS_NOT_FOUND, STATUS_OK,
};

#[test]
fn status_codes() {
    assert_eq!(STATUS_OK, 200);
    assert_eq!(STATUS_BAD_REQUEST, 400);
    assert_eq!(STATUS_NOT_FOUND, 404);
    assert_eq!(STATUS_METHOD_NOT_ALLOWED, 405);
    assert_eq!(STATUS_BAD_GATEWAY, 502);
}

#[test]
fn new_response_holds_status_and_body() {
    let r = HttpResponse::new(200, "pong");
    assert_eq!(r.status, 200);
    assert_eq!(r.body, "pong");
    let r = HttpResponse::new(404, "");
    assert_eq!(r, HttpResponse { status: 404, body: String::new() });
}
