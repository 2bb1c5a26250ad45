//! The client handle and the endpoint families that hang off it.

use vstd::prelude::*;
use vstd::string::StringExecFns;
use crate::api::repos::RepoHandler;
use crate::request::Request;
use crate::request::url_text;

pub mod repos;

verus! {

/// The client: the one piece of configuration that every endpoint shares. It
/// is made once and only read afterwards.
#[derive(Debug, Clone)]
pub struct Octocrab {
    base_url: String,
}

impl Octocrab {
    /// The base address, as text.
    pub closed spec fn spec_base_url(&self) -> Seq<char> {
        self.base_url@
    }

    /// A client for the server at `base_url`.
    pub fn new(base_url: &str) -> (r: Octocrab)
        ensures
            r.spec_base_url() == base_url@,
    {
        Octocrab { base_url: String::from_str(base_url) }
    }

    /// The base address.
    pub fn base_url(&self) -> (r: &str)
        ensures
            r@ == self.spec_base_url(),
    {
        self.base_url.as_str()
    }

    /// The full address that `request` goes to.
    pub fn url_of(&self, request: &Request) -> (r: String)
        ensures
            r@ == url_text(self.spec_base_url(), request.target, request.query@),
    {
        request.url(self.base_url.as_str())
    }

    /// The endpoints of the repository `owner`/`repo`.
    pub fn repos(&self, owner: String, repo: String) -> (r: RepoHandler<'_>)
        ensures
            r.crab == self,
            r.owner == owner,
            r.repo == repo,
    {
        RepoHandler { crab: self, owner, repo }
    }
}

} // verus!
