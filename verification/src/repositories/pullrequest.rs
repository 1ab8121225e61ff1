//! One pull request of a repository. It holds what addresses the pull
//! request; no endpoint is defined for it.

use vstd::prelude::*;
use vstd::string::*;

verus! {

#[derive(Clone, Debug)]
pub struct PullrequestBuilder {
    _username: String,
    _repo_slug: String,
    _id: String,
}

impl PullrequestBuilder {
    /// The owner of the repository.
    pub closed spec fn owner(&self) -> Seq<char> {
        self._username@
    }

    /// The short name of the repository.
    pub closed spec fn slug(&self) -> Seq<char> {
        self._repo_slug@
    }

    /// The number of the pull request, as text.
    pub closed spec fn id(&self) -> Seq<char> {
        self._id@
    }

    pub fn new(username: &str, repo_slug: &str, id: &str) -> (builder: PullrequestBuilder)
        ensures
            builder.owner() == username@,
            builder.slug() == repo_slug@,
            builder.id() == id@,
    {
        PullrequestBuilder {
            _username: username.to_owned(),
            _repo_slug: repo_slug.to_owned(),
            _id: id.to_owned(),
        }
    }
}

} // verus!
