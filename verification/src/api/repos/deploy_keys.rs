//! Listing the deploy keys of a repository.

use vstd::prelude::*;
use crate::api::repos::RepoHandler;
use crate::api::repos::keys_path;
use crate::query::ParameterSet;
use crate::query::QueryError;
use crate::query::selected;
use crate::query::valid_per_page;
use crate::request::Request;
use crate::request::Target;

verus! {

/// The request that lists the deploy keys of a repository, in the making.
///
/// Each setter takes the builder and gives back a new one. A field that was
/// never set is left out of the request. `page` is sent as it was given: a
/// zero is sent as `page=0`, not left out. `per_page` must lie in 1..=100;
/// [`ListDeployKeysBuilder::build`] rejects any other value.
#[derive(Debug, Clone, Copy)]
pub struct ListDeployKeysBuilder<'octo, 'r> {
    handler: &'r RepoHandler<'octo>,
    per_page: Option<u8>,
    page: Option<u32>,
}

impl<'octo, 'r> ListDeployKeysBuilder<'octo, 'r> {
    /// The repository whose keys are listed.
    pub closed spec fn spec_handler(&self) -> &'r RepoHandler<'octo> {
        self.handler
    }

    /// The page size, where it was set.
    pub closed spec fn spec_per_page(&self) -> Option<u8> {
        self.per_page
    }

    /// The page number, where it was set.
    pub closed spec fn spec_page(&self) -> Option<u32> {
        self.page
    }

    /// A builder with no optional field set.
    pub fn new(handler: &'r RepoHandler<'octo>) -> (r: Self)
        ensures
            r.spec_handler() == handler,
            r.spec_per_page() is None,
            r.spec_page() is None,
    {
        Self { handler, per_page: None, page: None }
    }

    /// The repository whose keys are listed.
    pub fn handler(&self) -> (r: &'r RepoHandler<'octo>)
        ensures
            r == self.spec_handler(),
    {
        self.handler
    }

    /// Results per page (max 100).
    pub fn per_page(self, per_page: u8) -> (r: Self)
        ensures
            r.spec_handler() == self.spec_handler(),
            r.spec_per_page() == Some(per_page),
            r.spec_page() == self.spec_page(),
    {
        let mut next = self;
        next.per_page = Some(per_page);
        next
    }

    /// Page number of the results to fetch.
    pub fn page(self, page: u32) -> (r: Self)
        ensures
            r.spec_handler() == self.spec_handler(),
            r.spec_per_page() == self.spec_per_page(),
            r.spec_page() == Some(page),
    {
        let mut next = self;
        next.page = Some(page);
        next
    }

    /// The parameters of the request: the fields that were set, `per_page`
    /// before `page`. A page size outside 1..=100 is rejected.
    pub fn params(&self) -> (r: Result<ParameterSet, QueryError>)
        ensures
            match r {
                Ok(set) => valid_per_page(self.spec_per_page()) && set@ == selected(
                    self.spec_per_page(),
                    self.spec_page(),
                ) && set.wf(),
                Err(e) => !valid_per_page(self.spec_per_page()) && e == (
                QueryError::PerPageOutOfRange { given: self.spec_per_page()->Some_0 }),
            },
    {
        ParameterSet::checked(self.per_page, self.page)
    }

    /// The request: a plain fetch of the repository's key list with the
    /// parameters that were set. A page size outside 1..=100 is rejected.
    pub fn build(&self) -> (r: Result<Request, QueryError>)
        ensures
            match r {
                Ok(request) => {
                    &&& valid_per_page(self.spec_per_page())
                    &&& request.target matches Target::Path(path) && path@ == keys_path(
                        self.spec_handler().owner@,
                        self.spec_handler().repo@,
                    )
                    &&& request.query@ == selected(self.spec_per_page(), self.spec_page())
                    &&& request.if_none_match is None
                },
                Err(e) => !valid_per_page(self.spec_per_page()) && e == (
                QueryError::PerPageOutOfRange { given: self.spec_per_page()->Some_0 }),
            },
    {
        match self.params() {
            Ok(query) => Ok(Request::get(self.handler.deploy_keys_path(), query)),
            Err(e) => Err(e),
        }
    }
}

} // verus!
