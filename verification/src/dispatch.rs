//! The dispatcher's decisions: what a reply from the transport means.
//!
//! The transport itself is not here. It hands over a [`Reply`]: either
//! nothing arrived, or a response with its status, its headers of interest
//! and its body. The functions of this module turn a reply into a typed
//! result. The shape of the expected value is the caller's: it comes as a
//! decoder from the body to an optional value.

use vstd::prelude::*;
use crate::error::Error;
use crate::error::ErrorView;

verus! {

/// What the server sent back.
#[derive(Debug, Clone, PartialEq, Eq)]
pub struct Response {
    pub status: u16,
    /// The entity tag of the representation, where the server gave one.
    pub etag: Option<String>,
    /// The continuation token of the next page, where the server gave one.
    pub next: Option<String>,
    pub body: Vec<u8>,
}

/// How an attempt to reach the server ended.
#[derive(Debug, Clone, PartialEq, Eq)]
pub enum Reply {
    /// No response arrived: the connection failed, timed out or the call was
    /// abandoned.
    Failed,
    Received(Response),
}

/// The four ways in which a status is treated.
#[derive(Debug, Clone, Copy, PartialEq, Eq, Structural)]
pub enum StatusClass {
    /// 200..=299: the body is decoded.
    Success,
    /// 304 in answer to a request that carried an entity tag.
    NotModified,
    /// 404.
    NotFound,
    /// Every other status. It is reported with its number.
    Failure,
}

/// Whether `status` is a success status.
pub open spec fn is_success(status: u16) -> bool {
    200 <= status <= 299
}

/// The class of `status`. `conditional` says whether the request carried an
/// entity tag: only then is 304 the answer "not modified".
pub open spec fn status_class(status: u16, conditional: bool) -> StatusClass {
    if is_success(status) {
        StatusClass::Success
    } else if status == 304 && conditional {
        StatusClass::NotModified
    } else if status == 404 {
        StatusClass::NotFound
    } else {
        StatusClass::Failure
    }
}

/// Classifies a status.
pub fn classify(status: u16, conditional: bool) -> (r: StatusClass)
    ensures
        r == status_class(status, conditional),
{
    if 200 <= status && status <= 299 {
        StatusClass::Success
    } else if status == 304 && conditional {
        StatusClass::NotModified
    } else if status == 404 {
        StatusClass::NotFound
    } else {
        StatusClass::Failure
    }
}

/// The string that the JSON document `body` holds under the key `field` of
/// its top-level object: `None` where `body` is no JSON document, where the
/// document is no object, where the object lacks the key, and where the
/// value under the key is no string.
pub uninterp spec fn json_text_field(body: Seq<u8>, field: Seq<char>) -> Option<Seq<char>>;

/// Reads one string field of a JSON object.
///
/// Not proved: the body parses `body` with `serde_json::from_slice` into a
/// `serde_json::Value`, looks `field` up with `Value::get` and reads what it
/// finds with `Value::as_str`. The contract claims that the outcome is a
/// function of the two arguments, named [`json_text_field`].
#[verifier::external_body]
fn read_text_field(body: &Vec<u8>, field: &str) -> (r: Option<String>)
    ensures
        match r {
            Some(text) => json_text_field(body@, field@) == Some(text@),
            None => json_text_field(body@, field@) is None,
        },
{
    let parsed: Result<serde_json::Value, serde_json::Error> = serde_json::from_slice(body);
    match parsed {
        Ok(document) => document.get(field).and_then(|found| found.as_str()).map(|text| text.to_owned()),
        Err(_) => None,
    }
}

/// The message of an error body: the string under `message`, or nothing.
pub open spec fn error_message(body: Seq<u8>) -> Seq<char> {
    match json_text_field(body, "message"@) {
        Some(text) => text,
        None => Seq::empty(),
    }
}

/// What a response with a status outside 200..=299 is reported as, 304 in
/// answer to a conditional request apart.
pub open spec fn rejection(status: u16, body: Seq<u8>) -> ErrorView {
    if status == 404 {
        ErrorView::NotFound
    } else {
        ErrorView::Api { status, message: error_message(body) }
    }
}

/// The error for a status outside 200..=299, given the message that was
/// found in the body, if one was.
pub fn rejection_with(status: u16, message: Option<String>) -> (r: Error)
    ensures
        r@ == if status == 404 {
            ErrorView::NotFound
        } else {
            ErrorView::Api {
                status,
                message: match message {
                    Some(text) => text@,
                    None => Seq::empty(),
                },
            }
        },
{
    if status == 404 {
        Error::NotFound
    } else {
        let message = match message {
            Some(text) => text,
            None => String::new(),
        };
        Error::Api { status, message }
    }
}

/// The error for a response with a status outside 200..=299.
pub fn reject(status: u16, body: &Vec<u8>) -> (r: Error)
    ensures
        r@ == rejection(status, body@),
{
    if status == 404 {
        Error::NotFound
    } else {
        rejection_with(status, read_text_field(body, "message"))
    }
}

/// The result of a plain fetch.
///
/// - No response: `Transport`.
/// - A status in 200..=299: the body goes to `decode`, once. What it decodes
///   to is returned; where it decodes to nothing, `Serialization` with the
///   length of the body.
/// - 404: `NotFound`, whatever the endpoint.
/// - Any other status: `Api` with the status and the server's message.
///
/// The decoder is called on the body of a success response and on nothing
/// else: only for that body must its precondition hold.
pub fn get<T, D: Fn(&Vec<u8>) -> Option<T>>(reply: &Reply, decode: D) -> (r: Result<T, Error>)
    requires
        match *reply {
            Reply::Failed => true,
            Reply::Received(response) => is_success(response.status) ==> decode.requires(
                (&response.body,),
            ),
        },
    ensures
        match *reply {
            Reply::Failed => r is Err && r->Err_0@ == ErrorView::Transport,
            Reply::Received(response) => if is_success(response.status) {
                match r {
                    Ok(value) => decode.ensures((&response.body,), Some(value)),
                    Err(e) => e@ == (ErrorView::Serialization { body_len: response.body@.len() })
                        && decode.ensures((&response.body,), None),
                }
            } else {
                r is Err && r->Err_0@ == rejection(response.status, response.body@)
            },
        },
{
    match reply {
        Reply::Failed => Err(Error::Transport),
        Reply::Received(response) => {
            match classify(response.status, false) {
                StatusClass::Success => settle(response.body.len(), decode(&response.body)),
                _ => Err(reject(response.status, &response.body)),
            }
        },
    }
}

/// The result for a success response whose body of `body_len` bytes decoded
/// to `decoded`.
pub fn settle<T>(body_len: usize, decoded: Option<T>) -> (r: Result<T, Error>)
    ensures
        match decoded {
            Some(value) => r == Ok::<T, Error>(value),
            None => r is Err && r->Err_0@ == (ErrorView::Serialization { body_len: body_len as nat }),
        },
{
    match decoded {
        Some(value) => Ok(value),
        None => Err(Error::Serialization { body_len }),
    }
}

} // verus!
