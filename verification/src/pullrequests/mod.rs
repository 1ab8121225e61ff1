//! The pull requests of one user.

use vstd::prelude::*;
use vstd::string::*;
use std::collections::HashMap;
use crate::api::{BitBucketQuery, GetQueryBuilder, Link, Sourctination};
use crate::json::Json;
use crate::users::User;

verus! {

#[derive(Clone, Debug)]
pub struct PullrequestsBuilder {
    username: String,
}

impl PullrequestsBuilder {
    /// The user whose pull requests are listed.
    pub closed spec fn name(&self) -> Seq<char> {
        self.username@
    }

    pub fn new(username: &str) -> (builder: PullrequestsBuilder)
        ensures
            builder.name() == username@,
    {
        PullrequestsBuilder { username: username.to_owned() }
    }
}

impl GetQueryBuilder for PullrequestsBuilder {
    type Item = PullRequest;

    open spec fn path(&self) -> Seq<char> {
        "pullrequests/"@ + self.name() + "?pagelen=50"@
    }

    fn get_query(&self) -> (query: BitBucketQuery) {
        let mut url_path = String::from_str("pullrequests/");
        url_path.append(self.username.as_str());
        url_path.append("?pagelen=50");
        BitBucketQuery::new(url_path)
    }
}

/// BitBucket data structure representing a single Pullrequest
#[derive(Debug, Clone)]
pub struct PullRequest {
    pub id: u64,
    pub title: String,
    pub state: PullRequestState,
    pub summary: Json,
    pub description: String,
    pub author: User,
    pub close_source_branch: bool,
    pub closed_by: Json,
    pub comment_count: u32,
    pub created_on: String,
    pub destination: Sourctination,
    pub source: Sourctination,
    pub links: HashMap<String, Link>,
    pub merge_commit: Json,
    pub reason: String,
    pub task_count: u32,
    pub updated_on: String,
}

/// BitBucket data structure representing all possible states for a PullRequest
#[derive(Debug, Copy, Clone)]
pub enum PullRequestState {
    MERGED,
    SUPERSEDED,
    OPEN,
    DECLINED,
}

impl PullRequestState {
    /// The state as it is shown to a reader.
    pub open spec fn label(self) -> Seq<char> {
        match self {
            PullRequestState::MERGED => "Merged"@,
            PullRequestState::SUPERSEDED => "Superseeded"@,
            PullRequestState::OPEN => "Open"@,
            PullRequestState::DECLINED => "Declined"@,
        }
    }

    pub fn to_string(&self) -> (shown: String)
        ensures
            shown@ == self.label(),
    {
        match self {
            PullRequestState::MERGED => String::from_str("Merged"),
            PullRequestState::SUPERSEDED => String::from_str("Superseeded"),
            PullRequestState::OPEN => String::from_str("Open"),
            PullRequestState::DECLINED => String::from_str("Declined"),
        }
    }
}

} // verus!
