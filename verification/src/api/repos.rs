//! The endpoints of one repository.

use vstd::prelude::*;
use vstd::string::StringExecFns;
use crate::api::Octocrab;
use crate::api::repos::deploy_keys::ListDeployKeysBuilder;
use crate::query::ParameterSet;
use crate::query::Param;
use crate::request::Request;
use crate::request::Target;

pub mod deploy_keys;

verus! {

/// The handle of one repository: the client, and the two names that every
/// path of the repository starts with.
#[derive(Debug, Clone)]
pub struct RepoHandler<'octo> {
    pub crab: &'octo Octocrab,
    pub owner: String,
    pub repo: String,
}

/// The path of the deploy keys of a repository.
pub open spec fn keys_path(owner: Seq<char>, repo: Seq<char>) -> Seq<char> {
    "repos/"@ + owner + "/"@ + repo + "/keys"@
}

/// The path of one deploy key of a repository.
pub open spec fn key_path(owner: Seq<char>, repo: Seq<char>, id: Seq<char>) -> Seq<char> {
    keys_path(owner, repo) + "/"@ + id
}

impl<'octo> RepoHandler<'octo> {
    /// The path of the list of deploy keys.
    pub fn deploy_keys_path(&self) -> (r: String)
        ensures
            r@ == keys_path(self.owner@, self.repo@),
    {
        let mut path = String::from_str("repos/");
        path.append(self.owner.as_str());
        path.append("/");
        path.append(self.repo.as_str());
        path.append("/keys");
        path
    }

    /// The path of the deploy key `id`.
    pub fn deploy_key_path(&self, id: &str) -> (r: String)
        ensures
            r@ == key_path(self.owner@, self.repo@, id@),
    {
        let mut path = self.deploy_keys_path();
        path.append("/");
        path.append(id);
        path
    }

    /// A builder for the request that lists the deploy keys.
    pub fn list_deploy_keys<'r>(&'r self) -> (r: ListDeployKeysBuilder<'octo, 'r>)
        ensures
            r.spec_handler() == self,
            r.spec_per_page() is None,
            r.spec_page() is None,
    {
        ListDeployKeysBuilder::new(self)
    }

    /// The request that fetches the deploy key `id`: its path, no parameter,
    /// no entity tag.
    pub fn get_deploy_key(&self, id: &str) -> (r: Request)
        ensures
            r.target matches Target::Path(path) && path@ == key_path(self.owner@, self.repo@, id@),
            r.query@ == Seq::<Param>::empty(),
            r.if_none_match is None,
    {
        Request::get(self.deploy_key_path(id), ParameterSet::empty())
    }
}

} // verus!
