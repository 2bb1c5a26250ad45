//! Requests: what is asked of the server, and the address it is asked at.
//!
//! Every request is a GET. It names its target, carries the query parameters
//! that were set and, for a conditional fetch, the entity tag of the cached
//! representation.

use vstd::prelude::*;
use vstd::string::StringExecFns;
use vstd::string::StrSliceExecFns;
use crate::query::ParameterSet;
use crate::query::Param;
use crate::query::query_text;

verus! {

/// Where a request goes.
#[derive(Debug, Clone, PartialEq, Eq)]
pub enum Target {
    /// A path below the base address.
    Path(String),
    /// A continuation token that a page handed out. It is opaque and is used
    /// as the address, as it stands.
    Continuation(String),
}

/// One GET request.
#[derive(Debug, Clone, PartialEq, Eq)]
pub struct Request {
    pub target: Target,
    pub query: ParameterSet,
    /// The entity tag sent as a precondition, if any.
    pub if_none_match: Option<String>,
}

/// `s` without one trailing `/`.
pub open spec fn trim_end_slash(s: Seq<char>) -> Seq<char> {
    if s.len() > 0 && s.last() == '/' {
        s.drop_last()
    } else {
        s
    }
}

/// `s` without one leading `/`.
pub open spec fn trim_start_slash(s: Seq<char>) -> Seq<char> {
    if s.len() > 0 && s.first() == '/' {
        s.skip(1)
    } else {
        s
    }
}

/// The base address and a path, joined by exactly one `/` between them.
pub open spec fn join(base: Seq<char>, path: Seq<char>) -> Seq<char> {
    trim_end_slash(base) + seq!['/'] + trim_start_slash(path)
}

/// The part of an address that carries the parameters: nothing where there are
/// none, else `?` and the query string.
pub open spec fn query_suffix(params: Seq<Param>) -> Seq<char> {
    if params.len() == 0 {
        Seq::empty()
    } else {
        seq!['?'] + query_text(params)
    }
}

/// The full address of a request.
pub open spec fn url_text(base: Seq<char>, target: Target, params: Seq<Param>) -> Seq<char> {
    match target {
        Target::Path(path) => join(base, path@) + query_suffix(params),
        Target::Continuation(token) => token@,
    }
}

/// Whether two requests ask for the same thing: the same target, the same
/// parameters and the same entity tag.
pub open spec fn same_request(a: Request, b: Request) -> bool {
    &&& match (a.target, b.target) {
        (Target::Path(p), Target::Path(q)) => p@ == q@,
        (Target::Continuation(p), Target::Continuation(q)) => p@ == q@,
        _ => false,
    }
    &&& a.query@ == b.query@
    &&& match (a.if_none_match, b.if_none_match) {
        (Some(s), Some(t)) => s@ == t@,
        (None, None) => true,
        _ => false,
    }
}

/// Joins the base address and a path.
pub fn join_text(base: &str, path: &str) -> (r: String)
    ensures
        r@ == join(base@, path@),
{
    let base_len = base.unicode_len();
    let path_len = path.unicode_len();
    let head = if base_len > 0 && base.get_char(base_len - 1) == '/' {
        base.substring_char(0, base_len - 1)
    } else {
        base
    };
    let tail = if path_len > 0 && path.get_char(0) == '/' {
        path.substring_char(1, path_len)
    } else {
        path
    };
    proof {
        reveal_strlit("/");
        assert("/"@ =~= seq!['/']);
        assert(head@ =~= trim_end_slash(base@));
        assert(tail@ =~= trim_start_slash(path@));
    }
    let mut out = String::from_str(head);
    out.append("/");
    out.append(tail);
    out
}

impl Request {
    /// A plain fetch of `path` with the given parameters.
    pub fn get(path: String, query: ParameterSet) -> (r: Request)
        ensures
            r.target == Target::Path(path),
            r.query == query,
            r.if_none_match is None,
    {
        Request { target: Target::Path(path), query, if_none_match: None }
    }

    /// A fetch of `path` that sends `tag`, where there is one, as its
    /// precondition.
    pub fn conditional(path: String, query: ParameterSet, tag: Option<String>) -> (r: Request)
        ensures
            r.target == Target::Path(path),
            r.query == query,
            r.if_none_match == tag,
    {
        Request { target: Target::Path(path), query, if_none_match: tag }
    }

    /// The fetch of the page that `token` stands for. The token takes the
    /// place of the explicit parameters: the request carries none.
    pub fn following(token: String) -> (r: Request)
        ensures
            r.target == Target::Continuation(token),
            r.query@ == Seq::<Param>::empty(),
            r.if_none_match is None,
    {
        Request { target: Target::Continuation(token), query: ParameterSet::empty(), if_none_match: None }
    }

    /// A copy of this request.
    pub fn duplicate(&self) -> (r: Request)
        ensures
            same_request(r, *self),
    {
        let target = match &self.target {
            Target::Path(path) => Target::Path(path.clone()),
            Target::Continuation(token) => Target::Continuation(token.clone()),
        };
        let if_none_match = match &self.if_none_match {
            Some(tag) => Some(tag.clone()),
            None => None,
        };
        Request { target, query: self.query.duplicate(), if_none_match }
    }

    /// Whether the request carries an entity tag.
    pub fn is_conditional(&self) -> (r: bool)
        ensures
            r == (self.if_none_match is Some),
    {
        self.if_none_match.is_some()
    }

    /// The full address of the request below `base`.
    pub fn url(&self, base: &str) -> (r: String)
        ensures
            r@ == url_text(base@, self.target, self.query@),
    {
        match &self.target {
            Target::Path(path) => {
                let mut out = join_text(base, path.as_str());
                if !self.query.is_empty() {
                    let query = self.query.to_query();
                    out.append("?");
                    out.append(query.as_str());
                    proof {
                        reveal_strlit("?");
                        assert("?"@ =~= seq!['?']);
                        assert(out@ =~= join(base@, path@) + query_suffix(self.query@));
                    }
                } else {
                    assert(out@ =~= join(base@, path@) + query_suffix(self.query@));
                }
                out
            },
            Target::Continuation(token) => token.clone(),
        }
    }
}

} // verus!
