//! One user account.

use vstd::prelude::*;
use vstd::string::*;
use std::collections::HashMap;
use crate::api::{BitBucketQuery, GetQueryBuilder, Link};

verus! {

#[derive(Clone, Debug)]
pub struct UsersBuilder {
    username: String,
}

impl UsersBuilder {
    /// The account that is asked for.
    pub closed spec fn name(&self) -> Seq<char> {
        self.username@
    }

    pub fn new(username: &str) -> (builder: UsersBuilder)
        ensures
            builder.name() == username@,
    {
        UsersBuilder { username: username.to_owned() }
    }
}

impl GetQueryBuilder for UsersBuilder {
    type Item = User;

    open spec fn path(&self) -> Seq<char> {
        "users/"@ + self.name()
    }

    fn get_query(&self) -> (query: BitBucketQuery) {
        let mut url_path = String::from_str("users/");
        url_path.append(self.username.as_str());
        BitBucketQuery::new(url_path)
    }
}

/// BitBucket data structure representing a single User
#[derive(Debug, Clone)]
pub struct User {
    pub username: String,
    pub nickname: String,
    pub display_name: String,
    pub account_id: Option<String>,
    pub uuid: String,
    pub account_status: Option<String>,
    pub created_on: Option<String>,
    pub is_staff: Option<bool>,
    pub links: HashMap<String, Link>,
    pub location: Option<String>,
    pub website: Option<String>,
}

} // verus!
