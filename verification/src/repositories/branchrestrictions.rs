//! The branch restrictions of one repository.

use vstd::prelude::*;
use vstd::string::*;
use std::collections::HashMap;
use crate::api::{BitBucketQuery, GetQueryBuilder, Link};
use crate::json::Json;

verus! {

#[derive(Clone, Debug)]
pub struct BranchRestrictionBuilder {
    username: String,
    repo_slug: String,
}

impl BranchRestrictionBuilder {
    /// The owner of the repository.
    pub closed spec fn owner(&self) -> Seq<char> {
        self.username@
    }

    /// The short name of the repository.
    pub closed spec fn slug(&self) -> Seq<char> {
        self.repo_slug@
    }

    pub fn new(username: &str, repo_slug: &str) -> (builder: BranchRestrictionBuilder)
        ensures
            builder.owner() == username@,
            builder.slug() == repo_slug@,
    {
        BranchRestrictionBuilder {
            username: username.to_owned(),
            repo_slug: repo_slug.to_owned(),
        }
    }
}

impl GetQueryBuilder for BranchRestrictionBuilder {
    type Item = BranchPermission;

    open spec fn path(&self) -> Seq<char> {
        "repositories/"@ + self.owner() + "/"@ + self.slug() + "/branch-restrictions"@
    }

    fn get_query(&self) -> (query: BitBucketQuery) {
        let mut url_path = String::from_str("repositories/");
        url_path.append(self.username.as_str());
        url_path.append("/");
        url_path.append(self.repo_slug.as_str());
        url_path.append("/branch-restrictions");
        BitBucketQuery::new(url_path)
    }
}

/// BitBucket data structure representing a single branch restriction
#[derive(Debug, Clone)]
pub struct BranchPermission {
    pub id: u64,
    pub kind: String,
    pub links: HashMap<String, Link>,
    pub pattern: String,
    pub bb_type: String,
    pub users: Json,
    pub groups: Json,
    pub value: Option<Json>,
}

/// A branch restriction as it is written to the API: without its links.
#[derive(Debug, Clone)]
pub struct NewBranchPermission {
    pub id: u64,
    pub kind: String,
    pub pattern: String,
    pub bb_type: String,
    pub users: Json,
    pub groups: Vec<String>,
}

#[derive(Debug, Clone)]
#[allow(non_camel_case_types)]
pub enum Kind {
    require_tasks_to_be_completed,
    require_passing_builds_to_merge,
    force,
    require_all_dependencies_merged,
    push,
    require_approvals_to_merge,
    enforce_merge_checks,
    restrict_merges,
    reset_pullrequest_approvals_on_change,
    delete,
}

} // verus!
