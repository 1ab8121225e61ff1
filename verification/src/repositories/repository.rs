//! One repository.

use vstd::prelude::*;
use vstd::string::*;
use crate::api::{BitBucketQuery, GetQueryBuilder};
use crate::repositories::branchrestrictions::BranchRestrictionBuilder;
use crate::repositories::pullrequests::PullrequestsBuilder;
use crate::repositories::Repository;

verus! {

#[derive(Clone, Debug)]
pub struct RepositoryBuilder {
    username: String,
    repo_slug: String,
}

impl RepositoryBuilder {
    /// The owner of the repository.
    pub closed spec fn owner(&self) -> Seq<char> {
        self.username@
    }

    /// The short name of the repository.
    pub closed spec fn slug(&self) -> Seq<char> {
        self.repo_slug@
    }

    pub fn new(username: &str, repo_slug: &str) -> (builder: RepositoryBuilder)
        ensures
            builder.owner() == username@,
            builder.slug() == repo_slug@,
    {
        RepositoryBuilder { username: username.to_owned(), repo_slug: repo_slug.to_owned() }
    }

    pub fn pullrequests(&self) -> (builder: PullrequestsBuilder)
        ensures
            builder.owner() == self.owner(),
            builder.slug() == self.slug(),
    {
        PullrequestsBuilder::new(self.username.as_str(), self.repo_slug.as_str())
    }

    pub fn branch_restrictions(&self) -> (builder: BranchRestrictionBuilder)
        ensures
            builder.owner() == self.owner(),
            builder.slug() == self.slug(),
    {
        BranchRestrictionBuilder::new(self.username.as_str(), self.repo_slug.as_str())
    }
}

impl GetQueryBuilder for RepositoryBuilder {
    type Item = Repository;

    open spec fn path(&self) -> Seq<char> {
        "repositories/"@ + self.owner() + "/"@ + self.slug()
    }

    fn get_query(&self) -> (query: BitBucketQuery) {
        let mut url_path = String::from_str("repositories/");
        url_path.append(self.username.as_str());
        url_path.append("/");
        url_path.append(self.repo_slug.as_str());
        BitBucketQuery::new(url_path)
    }
}

} // verus!
