//! Translation of a request into the one command it stands for.
//!
//! Nothing here talks to the backend: a request either becomes a command or
//! is refused before any call is made.

use vstd::prelude::*;
use vstd::string::StrSliceExecFns;

use crate::command::{del_command, get_command, set_command, CommandView, RpcCommand};
use crate::error::{Field, MapError};
use crate::http::Method;
use crate::routes::{key_segment, key_segment_spec, route, route_spec, Route};
use crate::text::{find_char, first_index_of, lemma_first_index_of_found, str_from_utf8, utf8_text};
use crate::urlcode::{url_decode, url_decoded};

verus! {

/// The two sides of the first `=` in `body`, if there is one.
pub open spec fn split_pair_spec(body: Seq<char>) -> Option<(Seq<char>, Seq<char>)> {
    match first_index_of(body, '=') {
        Some(i) => Some((body.take(i), body.skip(i + 1))),
        None => None,
    }
}

/// The command that a lookup of the percent-encoded `segment` stands for.
pub open spec fn map_get_spec(segment: Seq<char>) -> Result<CommandView, MapError> {
    match url_decoded(segment) {
        Some(key) => if key.len() > 0 {
            Ok(get_command(key))
        } else {
            Err(MapError::MalformedPath)
        },
        None => Err(MapError::MalformedPath),
    }
}

/// The command that the text `key=value` stands for in a `POST /set`: the
/// first `=` parts the key from the value, and the key may not be empty.
pub open spec fn set_text_spec(text: Seq<char>) -> Result<CommandView, MapError> {
    match split_pair_spec(text) {
        Some((key, value)) => if key.len() > 0 {
            Ok(set_command(key, value))
        } else {
            Err(MapError::MalformedBody(Field::Key))
        },
        None => Err(MapError::MalformedBody(Field::Value)),
    }
}

/// The command that the text `key=<name>` stands for in a `POST /del`: what
/// stands before the first `=` is dropped, what follows it is the key.
pub open spec fn del_text_spec(text: Seq<char>) -> Result<CommandView, MapError> {
    match split_pair_spec(text) {
        Some((_, name)) => Ok(del_command(name)),
        None => Err(MapError::MalformedBody(Field::Key)),
    }
}

/// The command that the body of a `POST /set` stands for. The body is read
/// as UTF-8 text, not as form fields.
pub open spec fn map_set_spec(body: Seq<u8>) -> Result<CommandView, MapError> {
    match utf8_text(body) {
        Some(text) => set_text_spec(text),
        None => Err(MapError::MalformedBody(Field::Body)),
    }
}

/// The command that the body of a `POST /del` stands for. The body is read
/// as UTF-8 text, not as form fields.
pub open spec fn map_del_spec(body: Seq<u8>) -> Result<CommandView, MapError> {
    match utf8_text(body) {
        Some(text) => del_text_spec(text),
        None => Err(MapError::MalformedBody(Field::Body)),
    }
}

/// The command that a request stands for.
pub open spec fn map_spec(method: Method, path: Seq<char>, body: Seq<u8>) -> Result<
    CommandView,
    MapError,
> {
    match route_spec(method, path) {
        Route::GetKey => map_get_spec(key_segment_spec(path).unwrap()),
        Route::SetKey => map_set_spec(body),
        Route::DelKey => map_del_spec(body),
        _ => Err(MapError::NoCommand),
    }
}

/// What the outcome of a mapping is, with the command taken by its view.
pub open spec fn mapped_view(r: Result<RpcCommand, MapError>) -> Result<CommandView, MapError> {
    match r {
        Ok(cmd) => Ok(cmd@),
        Err(e) => Err(e),
    }
}

/// The body `key=value` parts into `key` and `value` again, whatever the
/// value holds, as long as the key holds no `=`.
pub proof fn lemma_split_pair_joined(key: Seq<char>, value: Seq<char>)
    requires
        !key.contains('='),
    ensures
        split_pair_spec(key + seq!['='] + value) == Some((key, value)),
{
    let body = key + seq!['='] + value;
    let i = key.len() as int;
    assert forall|j: int| 0 <= j < i implies body[j] != '=' by {
        assert(body[j] == key[j]);
        assert(key.contains(key[j]));
    }
    assert(body[i] == '=');
    lemma_first_index_of_found(body, '=', i);
    assert(body.take(i) =~= key);
    assert(body.skip(i + 1) =~= value);
}

/// Parts `body` at its first `=`.
pub fn split_pair<'a>(body: &'a str) -> (r: Option<(&'a str, &'a str)>)
    ensures
        match r {
            Some((key, value)) => split_pair_spec(body@) == Some((key@, value@)),
            None => split_pair_spec(body@) is None,
        },
        r is None <==> !body@.contains('='),
{
    match find_char(body, '=') {
        Some(i) => {
            let n = body.unicode_len();
            let key = body.substring_char(0, i);
            let value = body.substring_char(i + 1, n);
            Some((key, value))
        },
        None => None,
    }
}

/// Maps the percent-encoded path segment of a `GET /get/{key}` to a lookup.
pub fn map_get(segment: &str) -> (r: Result<RpcCommand, MapError>)
    ensures
        mapped_view(r) == map_get_spec(segment@),
{
    match url_decode(segment) {
        Some(key) => {
            if key.as_str().is_empty() {
                Err(MapError::MalformedPath)
            } else {
                Ok(RpcCommand::get(key))
            }
        },
        None => Err(MapError::MalformedPath),
    }
}

/// Maps the body of a `POST /set` to the command that binds its key.
pub fn map_set(body: &[u8]) -> (r: Result<RpcCommand, MapError>)
    ensures
        mapped_view(r) == map_set_spec(body@),
{
    match str_from_utf8(body) {
        Some(text) => match split_pair(text) {
            Some((key, value)) => {
                if key.is_empty() {
                    Err(MapError::MalformedBody(Field::Key))
                } else {
                    Ok(RpcCommand::set(key.to_owned(), value.to_owned()))
                }
            },
            None => Err(MapError::MalformedBody(Field::Value)),
        },
        None => Err(MapError::MalformedBody(Field::Body)),
    }
}

/// Maps the body of a `POST /del` to the command that removes its key.
pub fn map_del(body: &[u8]) -> (r: Result<RpcCommand, MapError>)
    ensures
        mapped_view(r) == map_del_spec(body@),
{
    match str_from_utf8(body) {
        Some(text) => match split_pair(text) {
            Some((_, name)) => Ok(RpcCommand::delete(name.to_owned())),
            None => Err(MapError::MalformedBody(Field::Key)),
        },
        None => Err(MapError::MalformedBody(Field::Body)),
    }
}

/// Maps a request to the one command it stands for, or refuses it.
pub fn map(method: Method, path: &str, body: &[u8]) -> (r: Result<RpcCommand, MapError>)
    ensures
        mapped_view(r) == map_spec(method, path@, body@),
{
    match route(method, path) {
        Route::GetKey => match key_segment(path) {
            Some(segment) => map_get(segment),
            None => Err(MapError::NoCommand),
        },
        Route::SetKey => map_set(body),
        Route::DelKey => map_del(body),
        _ => Err(MapError::NoCommand),
    }
}

} // verus!
