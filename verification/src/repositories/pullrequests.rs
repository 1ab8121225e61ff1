//! The pull requests of one repository.

use vstd::prelude::*;
use vstd::string::*;
use crate::api::{BitBucketQuery, GetQueryBuilder};
use crate::pullrequests::PullRequest;
use crate::repositories::pullrequest::PullrequestBuilder;

verus! {

#[derive(Clone, Debug)]
pub struct PullrequestsBuilder {
    username: String,
    repo_slug: String,
}

impl PullrequestsBuilder {
    /// The owner of the repository.
    pub closed spec fn owner(&self) -> Seq<char> {
        self.username@
    }

    /// The short name of the repository.
    pub closed spec fn slug(&self) -> Seq<char> {
        self.repo_slug@
    }

    pub fn new(username: &str, repo_slug: &str) -> (builder: PullrequestsBuilder)
        ensures
            builder.owner() == username@,
            builder.slug() == repo_slug@,
    {
        PullrequestsBuilder { username: username.to_owned(), repo_slug: repo_slug.to_owned() }
    }

    pub fn id(&self, id: &str) -> (builder: PullrequestBuilder)
        ensures
            builder.owner() == self.owner(),
            builder.slug() == self.slug(),
            builder.id() == id@,
    {
        PullrequestBuilder::new(self.username.as_str(), self.repo_slug.as_str(), id)
    }
}

impl GetQueryBuilder for PullrequestsBuilder {
    type Item = PullRequest;

    open spec fn path(&self) -> Seq<char> {
        "repositories/"@ + self.owner() + "/"@ + self.slug() + "/pullrequests?pagelen=50"@
    }

    fn get_query(&self) -> (query: BitBucketQuery) {
        let mut url_path = String::from_str("repositories/");
        url_path.append(self.username.as_str());
        url_path.append("/");
        url_path.append(self.repo_slug.as_str());
        url_path.append("/pullrequests?pagelen=50");
        BitBucketQuery::new(url_path)
    }
}

} // verus!
