//! The gateway together with a backend that behaves like a map from keys to
//! values, and what holds of the two.
//!
//! The backend itself is a service of its own and not part of this crate.
//! What is stated here holds with any backend that carries a binding out by
//! keeping it, a removal by forgetting the key, and a lookup exactly where
//! the key is bound.

use vstd::prelude::*;
use vstd::utf8::encode_utf8;

use crate::command::{
    del_command, get_command, set_command, CommandKind, CommandView, RpcResult, TransportError,
};
use crate::gateway::{complete_spec, dispatch_spec, pong_spec, ActionView, Form};
use crate::http::{Method, ResponseView};
use crate::mapper::lemma_split_pair_joined;
use crate::routes::lemma_key_path;
use crate::text::{
    lemma_first_index_of_absent, lemma_no_separator_byte_no_separator,
    lemma_utf8_text_of_encoding, utf8_text,
};
use crate::translator::failure_spec;
use crate::urlcode::{
    lemma_url_decoded_inverts_encoded, lemma_url_encoded_shape, url_encoded,
};

verus! {

/// What the backend holds: the value bound to each key.
pub type Store = Map<Seq<char>, Seq<char>>;

/// What the backend is left with after a command, and whether it carried the
/// command out.
pub ghost struct BackendStep {
    pub store: Store,
    pub ok: bool,
}

/// What a request was answered with.
pub ghost enum Served {
    Response(ResponseView),
    Form(Form),
}

/// What the backend is left with after a request, and the answer.
pub ghost struct Exchange {
    pub store: Store,
    pub served: Served,
}

/// How the backend takes a command: a lookup succeeds where the key is bound,
/// a binding always, a removal where there was something to remove.
pub open spec fn backend_step(store: Store, cmd: CommandView) -> BackendStep
    recommends
        cmd.well_formed(),
{
    let key = cmd.arguments[0];
    match cmd.kind {
        CommandKind::GetKey => BackendStep { store, ok: store.dom().contains(key) },
        CommandKind::SetKey => BackendStep { store: store.insert(key, cmd.arguments[1]), ok: true },
        CommandKind::DelKey => BackendStep {
            store: store.remove(key),
            ok: store.dom().contains(key),
        },
    }
}

/// One request served from beginning to end against a reachable backend.
pub open spec fn serve(store: Store, method: Method, path: Seq<char>, body: Seq<u8>)
    -> Exchange {
    match dispatch_spec(method, path, body) {
        ActionView::Respond(response) => Exchange { store, served: Served::Response(response) },
        ActionView::ShowForm(form) => Exchange { store, served: Served::Form(form) },
        ActionView::Invoke(cmd) => {
            let step = backend_step(store, cmd);
            Exchange {
                store: step.store,
                served: Served::Response(
                    complete_spec(cmd.kind, Ok(RpcResult { ok: step.ok, payload: None })),
                ),
            }
        },
    }
}

/// The body that asks `POST /set` to bind `key` to `value`.
pub open spec fn set_body(key: Seq<char>, value: Seq<char>) -> Seq<u8> {
    encode_utf8(key + seq!['='] + value)
}

/// The body that asks `POST /del` to remove `key`, under the field name
/// `field`.
pub open spec fn del_body_under(field: Seq<char>, key: Seq<char>) -> Seq<u8> {
    encode_utf8(field + seq!['='] + key)
}

/// The body `key=<name>` that asks `POST /del` to remove `key`.
pub open spec fn del_body(key: Seq<char>) -> Seq<u8> {
    del_body_under("key"@, key)
}

/// The path that asks for a lookup of `key`.
pub open spec fn get_path(key: Seq<char>) -> Seq<char> {
    "/get/"@ + url_encoded(key)
}

/// A key fit for `POST /set`: not empty and free of `=`.
pub open spec fn is_settable_key(key: Seq<char>) -> bool {
    key.len() > 0 && !key.contains('=')
}

/// `POST /set` with the body `key=value` sends the binding of `key` to
/// `value`.
pub proof fn law_set_maps_to_binding(key: Seq<char>, value: Seq<char>)
    requires
        is_settable_key(key),
    ensures
        dispatch_spec(Method::Post, "/set"@, set_body(key, value)) == ActionView::Invoke(
            set_command(key, value),
        ),
{
    reveal_strlit("/ping");
    reveal_strlit("/set");
    lemma_utf8_text_of_encoding(key + seq!['='] + value);
    lemma_split_pair_joined(key, value);
}

/// `POST /del` with the body `field=key` sends the removal of `key`,
/// whatever the field is called.
pub proof fn law_del_maps_to_removal(field: Seq<char>, key: Seq<char>)
    requires
        !field.contains('='),
    ensures
        dispatch_spec(Method::Post, "/del"@, del_body_under(field, key)) == ActionView::Invoke(
            del_command(key),
        ),
{
    reveal_strlit("/ping");
    reveal_strlit("/set");
    reveal_strlit("/del");
    assert("/del"@[1] == 'd');
    lemma_utf8_text_of_encoding(field + seq!['='] + key);
    lemma_split_pair_joined(field, key);
}

/// `GET /get/{key}`, with the key percent-encoded into the path, sends the
/// lookup of `key`. The body plays no part.
pub proof fn law_get_maps_to_lookup(key: Seq<char>, body: Seq<u8>)
    requires
        key.len() > 0,
    ensures
        dispatch_spec(Method::Get, get_path(key), body) == ActionView::Invoke(get_command(key)),
{
    lemma_url_encoded_shape(key);
    lemma_key_path(Method::Get, url_encoded(key));
    lemma_url_decoded_inverts_encoded(key);
}

/// A key that was set is found: after `POST /set` with `key=value`, which
/// is answered 200 `set ok`, `GET /get/{key}` is answered 200 `found`.
pub proof fn law_get_after_set_finds(store: Store, key: Seq<char>, value: Seq<char>)
    requires
        is_settable_key(key),
    ensures
        ({
            let set = serve(store, Method::Post, "/set"@, set_body(key, value));
            let get = serve(set.store, Method::Get, get_path(key), Seq::empty());
            &&& set.served == Served::Response(ResponseView { status: 200, body: "set ok"@ })
            &&& get.served == Served::Response(ResponseView { status: 200, body: "found"@ })
        }),
{
    law_set_maps_to_binding(key, value);
    law_get_maps_to_lookup(key, Seq::empty());
}

/// A key that was deleted is not found: after `POST /del` with the body
/// `key=<name>`, `GET /get/{name}` is answered 404 `not found`.
pub proof fn law_get_after_del_finds_nothing(store: Store, key: Seq<char>)
    requires
        key.len() > 0,
    ensures
        ({
            let del = serve(store, Method::Post, "/del"@, del_body(key));
            let get = serve(del.store, Method::Get, get_path(key), Seq::empty());
            get.served == Served::Response(ResponseView { status: 404, body: "not found"@ })
        }),
{
    reveal_strlit("key");
    law_del_maps_to_removal("key"@, key);
    law_get_maps_to_lookup(key, Seq::empty());
}

/// `GET /ping` is answered 200 `pong` whatever the body and whatever the
/// backend holds; no command is sent and the backend is left as it was.
pub proof fn law_ping_never_calls(store: Store, body: Seq<u8>)
    ensures
        dispatch_spec(Method::Get, "/ping"@, body) == ActionView::Respond(pong_spec()),
        pong_spec() == (ResponseView { status: 200, body: "pong"@ }),
        serve(store, Method::Get, "/ping"@, body) == (Exchange {
            store,
            served: Served::Response(pong_spec()),
        }),
{
}

/// A body without `=` posted to `/set` is answered 400 at once; no command
/// is sent.
pub proof fn law_set_without_separator_is_refused(body: Seq<u8>)
    requires
        !body.contains(0x3du8),
    ensures
        dispatch_spec(Method::Post, "/set"@, body) == ActionView::Respond(
            ResponseView {
                status: 400,
                body: if utf8_text(body) is Some {
                    "malformed value"@
                } else {
                    "malformed body"@
                },
            },
        ),
{
    reveal_strlit("/ping");
    reveal_strlit("/set");
    lemma_no_separator_byte_no_separator(body);
    match utf8_text(body) {
        Some(text) => {
            lemma_first_index_of_absent(text, '=');
        },
        None => {},
    }
}

/// A body without `=` posted to `/del` is answered 400 at once; no command
/// is sent.
pub proof fn law_del_without_separator_is_refused(body: Seq<u8>)
    requires
        !body.contains(0x3du8),
    ensures
        dispatch_spec(Method::Post, "/del"@, body) == ActionView::Respond(
            ResponseView {
                status: 400,
                body: if utf8_text(body) is Some {
                    "malformed key"@
                } else {
                    "malformed body"@
                },
            },
        ),
{
    reveal_strlit("/ping");
    reveal_strlit("/set");
    reveal_strlit("/del");
    assert("/del"@[1] == 'd');
    lemma_no_separator_byte_no_separator(body);
    match utf8_text(body) {
        Some(text) => {
            lemma_first_index_of_absent(text, '=');
        },
        None => {},
    }
}

/// Two `POST /set` requests with different keys do not depend on their
/// order: both are answered 200 `set ok` either way, and the backend ends
/// up holding the same.
pub proof fn law_sets_of_distinct_keys_commute(
    store: Store,
    key1: Seq<char>,
    value1: Seq<char>,
    key2: Seq<char>,
    value2: Seq<char>,
)
    requires
        is_settable_key(key1),
        is_settable_key(key2),
        key1 != key2,
    ensures
        ({
            let first1 = serve(store, Method::Post, "/set"@, set_body(key1, value1));
            let then2 = serve(first1.store, Method::Post, "/set"@, set_body(key2, value2));
            let first2 = serve(store, Method::Post, "/set"@, set_body(key2, value2));
            let then1 = serve(first2.store, Method::Post, "/set"@, set_body(key1, value1));
            let set_ok = Served::Response(ResponseView { status: 200, body: "set ok"@ });
            &&& first1.served == set_ok
            &&& then2.served == set_ok
            &&& first2.served == set_ok
            &&& then1.served == set_ok
            &&& then2.store == then1.store
        }),
{
    law_set_maps_to_binding(key1, value1);
    law_set_maps_to_binding(key2, value2);
    assert(store.insert(key1, value1).insert(key2, value2) =~= store.insert(key2, value2).insert(
        key1,
        value1,
    ));
}

/// A call that does not complete is answered with a status of the 5xx
/// class and a fixed body, whatever the command was and whatever went
/// wrong.
pub proof fn law_transport_failure_is_server_error(kind: CommandKind, error: TransportError)
    ensures
        complete_spec(kind, Err(error)) == failure_spec(),
        500 <= failure_spec().status <= 599,
{
}

} // verus!
