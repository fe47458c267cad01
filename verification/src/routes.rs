//! The route table: which handler a method and a path lead to.
//!
//! | Method | Path         | Route     |
//! |--------|--------------|-----------|
//! | GET    | `/ping`      | `Ping`    |
//! | GET    | `/get/{key}` | `GetKey`  |
//! | GET    | `/set`       | `SetForm` |
//! | POST   | `/set`       | `SetKey`  |
//! | GET    | `/del`       | `DelForm` |
//! | POST   | `/del`       | `DelKey`  |
//!
//! `{key}` is one path segment that is not empty. A path of the table met
//! with another method is `MethodNotAllowed`; any other path is `NotFound`.

use vstd::prelude::*;

use crate::http::Method;
use crate::text::{find_char, str_eq, strip_prefix, strip_prefix_spec};

verus! {

/// Where a request leads.
#[derive(Clone, Copy, Debug, PartialEq, Eq, Structural)]
pub enum Route {
    /// The liveness probe.
    Ping,
    /// Look up the key named in the path.
    GetKey,
    /// Show the form that posts to `/set`.
    SetForm,
    /// Bind the key named in the body.
    SetKey,
    /// Show the form that posts to `/del`.
    DelForm,
    /// Remove the key named in the body.
    DelKey,
    /// The path is in the table, but not with this method.
    MethodNotAllowed,
    /// The path is not in the table.
    NotFound,
}

/// The segment after `/get/` in `path`, where `path` is `/get/` followed by
/// exactly one segment that is not empty.
pub open spec fn key_segment_spec(path: Seq<char>) -> Option<Seq<char>> {
    match strip_prefix_spec(path, "/get/"@) {
        Some(segment) => if segment.len() > 0 && !segment.contains('/') {
            Some(segment)
        } else {
            None
        },
        None => None,
    }
}

/// Where `method` and `path` lead.
pub open spec fn route_spec(method: Method, path: Seq<char>) -> Route {
    if path == "/ping"@ {
        match method {
            Method::Get => Route::Ping,
            _ => Route::MethodNotAllowed,
        }
    } else if path == "/set"@ {
        match method {
            Method::Get => Route::SetForm,
            Method::Post => Route::SetKey,
            Method::Other => Route::MethodNotAllowed,
        }
    } else if path == "/del"@ {
        match method {
            Method::Get => Route::DelForm,
            Method::Post => Route::DelKey,
            Method::Other => Route::MethodNotAllowed,
        }
    } else if key_segment_spec(path) is Some {
        match method {
            Method::Get => Route::GetKey,
            _ => Route::MethodNotAllowed,
        }
    } else {
        Route::NotFound
    }
}

/// `/get/` followed by one segment that is not empty leads a `GET` to the
/// lookup of that segment, and no other method anywhere but to a refusal.
pub proof fn lemma_key_path(method: Method, segment: Seq<char>)
    requires
        segment.len() > 0,
        !segment.contains('/'),
    ensures
        key_segment_spec("/get/"@ + segment) == Some(segment),
        route_spec(method, "/get/"@ + segment) == if method == Method::Get {
            Route::GetKey
        } else {
            Route::MethodNotAllowed
        },
{
    reveal_strlit("/get/");
    reveal_strlit("/ping");
    reveal_strlit("/set");
    reveal_strlit("/del");
    let path = "/get/"@ + segment;
    assert(path.skip(5) =~= segment);
    assert(path[1] == 'g');
}

/// The segment after `/get/` in `path`, if `path` is `/get/` followed by
/// exactly one segment that is not empty.
pub fn key_segment<'a>(path: &'a str) -> (r: Option<&'a str>)
    ensures
        match r {
            Some(segment) => key_segment_spec(path@) == Some(segment@),
            None => key_segment_spec(path@) is None,
        },
{
    match strip_prefix(path, "/get/") {
        Some(segment) => {
            if segment.is_empty() {
                None
            } else if find_char(segment, '/').is_some() {
                None
            } else {
                Some(segment)
            }
        },
        None => None,
    }
}

/// Finds the route that `method` and `path` lead to.
pub fn route(method: Method, path: &str) -> (r: Route)
    ensures
        r == route_spec(method, path@),
{
    if str_eq(path, "/ping") {
        match method {
            Method::Get => Route::Ping,
            _ => Route::MethodNotAllowed,
        }
    } else if str_eq(path, "/set") {
        match method {
            Method::Get => Route::SetForm,
            Method::Post => Route::SetKey,
            Method::Other => Route::MethodNotAllowed,
        }
    } else if str_eq(path, "/del") {
        match method {
            Method::Get => Route::DelForm,
            Method::Post => Route::DelKey,
            Method::Other => Route::MethodNotAllowed,
        }
    } else if key_segment(path).is_some() {
        match method {
            Method::Get => Route::GetKey,
            _ => Route::MethodNotAllowed,
        }
    } else {
        Route::NotFound
    }
}

} // verus!
