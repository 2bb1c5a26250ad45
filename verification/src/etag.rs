//! Conditional fetches: a cached representation, its entity tag, and what a
//! reply to a request that carried the tag means.

use vstd::prelude::*;
use crate::dispatch::Reply;
use crate::dispatch::StatusClass;
use crate::dispatch::classify;
use crate::dispatch::reject;
use crate::dispatch::rejection;
use crate::dispatch::settle;
use crate::dispatch::status_class;
use crate::error::Error;
use crate::error::ErrorView;
use crate::query::ParameterSet;
use crate::request::Request;
use crate::request::Target;

verus! {

/// A value together with the entity tag of the representation it was decoded
/// from. The tag is absent where the server gave none: the endpoint then
/// offers no conditional fetch.
#[derive(Debug, Clone, PartialEq, Eq)]
pub struct Etagged<T> {
    pub etag: Option<String>,
    pub value: T,
}

/// What a conditional fetch found.
#[derive(Debug, Clone, PartialEq, Eq)]
pub enum Outcome<T> {
    /// The server sent a representation: here it is, with its tag.
    Fresh(Etagged<T>),
    /// The server answered that the cached representation still holds.
    Unchanged,
}

/// The tag that a fetch sends for `cached`: the tag of the cached value,
/// where there is a cached value and it has one.
pub open spec fn sent_tag<T>(cached: Option<&Etagged<T>>) -> Option<Seq<char>> {
    match cached {
        Some(entry) => match entry.etag {
            Some(tag) => Some(tag@),
            None => None,
        },
        None => None,
    }
}

/// The request of a conditional fetch of `path`: it carries the tag of the
/// cached value as its precondition, where there is one.
pub fn conditional_request<T>(path: String, query: ParameterSet, cached: Option<&Etagged<T>>) -> (r:
    Request)
    ensures
        r.target == Target::Path(path),
        r.query == query,
        match sent_tag(cached) {
            Some(tag) => r.if_none_match is Some && r.if_none_match->Some_0@ == tag,
            None => r.if_none_match is None,
        },
{
    let tag = match cached {
        Some(entry) => match &entry.etag {
            Some(tag) => Some(tag.clone()),
            None => None,
        },
        None => None,
    };
    Request::conditional(path, query, tag)
}

/// The result of a conditional fetch whose request was made for `cached`.
///
/// - No response: `Transport`.
/// - 304 in answer to a request that carried a tag: `Unchanged`. The body is
///   not looked at and the decoder is not called.
/// - A status in 200..=299: the body goes to `decode`, once, and what it
///   decodes to comes back as `Fresh`, with the tag of this response,
///   whether or not the value differs from the cached one. Where it decodes
///   to nothing, `Serialization` with the length of the body.
/// - 404: `NotFound`. Any other status, a 304 that answers a request without
///   a tag among them: `Api` with the status and the server's message.
pub fn conditional_get<T, D: Fn(&Vec<u8>) -> Option<T>>(
    reply: Reply,
    cached: Option<&Etagged<T>>,
    decode: D,
) -> (r: Result<Outcome<T>, Error>)
    requires
        match reply {
            Reply::Failed => true,
            Reply::Received(response) => status_class(response.status, sent_tag(cached) is Some)
                == StatusClass::Success ==> decode.requires((&response.body,)),
        },
    ensures
        match reply {
            Reply::Failed => r is Err && r->Err_0@ == ErrorView::Transport,
            Reply::Received(response) => match status_class(
                response.status,
                sent_tag(cached) is Some,
            ) {
                StatusClass::Success => match r {
                    Ok(Outcome::Fresh(entry)) => entry.etag == response.etag && decode.ensures(
                        (&response.body,),
                        Some(entry.value),
                    ),
                    Ok(Outcome::Unchanged) => false,
                    Err(e) => e@ == (ErrorView::Serialization { body_len: response.body@.len() })
                        && decode.ensures((&response.body,), None),
                },
                StatusClass::NotModified => r is Ok && r->Ok_0 is Unchanged,
                _ => r is Err && r->Err_0@ == rejection(response.status, response.body@),
            },
        },
{
    let conditional = match cached {
        Some(entry) => entry.etag.is_some(),
        None => false,
    };
    match reply {
        Reply::Failed => Err(Error::Transport),
        Reply::Received(response) => {
            match classify(response.status, conditional) {
                StatusClass::Success => {
                    match settle(response.body.len(), decode(&response.body)) {
                        Ok(value) => Ok(Outcome::Fresh(Etagged { etag: response.etag, value })),
                        Err(e) => Err(e),
                    }
                },
                StatusClass::NotModified => Ok(Outcome::Unchanged),
                _ => Err(reject(response.status, &response.body)),
            }
        },
    }
}

impl<T> Outcome<T> {
    /// Whether the cached representation still holds.
    pub fn is_unchanged(&self) -> (r: bool)
        ensures
            r == (*self is Unchanged),
    {
        match self {
            Outcome::Unchanged => true,
            Outcome::Fresh(_) => false,
        }
    }

    /// The representation to go on with: the fresh one, or else the cached
    /// one.
    pub fn or_cached(self, cached: Option<Etagged<T>>) -> (r: Option<Etagged<T>>)
        ensures
            r == match self {
                Outcome::Fresh(entry) => Some(entry),
                Outcome::Unchanged => cached,
            },
    {
        match self {
            Outcome::Fresh(entry) => Some(entry),
            Outcome::Unchanged => cached,
        }
    }
}

} // verus!
