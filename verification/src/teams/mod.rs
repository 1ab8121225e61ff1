//! One team, and from there its members.

pub mod members;

use vstd::prelude::*;
use vstd::string::*;
use std::collections::HashMap;
use crate::api::{BitBucketQuery, GetQueryBuilder, Link};
use self::members::MembersBuilder;

verus! {

#[derive(Clone, Debug)]
pub struct TeamsBuilder {
    teamname: String,
}

impl TeamsBuilder {
    /// The team that is asked for.
    pub closed spec fn name(&self) -> Seq<char> {
        self.teamname@
    }

    pub fn new(username: &str) -> (builder: TeamsBuilder)
        ensures
            builder.name() == username@,
    {
        TeamsBuilder { teamname: username.to_owned() }
    }

    pub fn members(&self) -> (builder: MembersBuilder)
        ensures
            builder.team() == self.name(),
    {
        MembersBuilder::new(self.teamname.as_str())
    }
}

impl GetQueryBuilder for TeamsBuilder {
    type Item = Team;

    open spec fn path(&self) -> Seq<char> {
        "teams/"@ + self.name()
    }

    fn get_query(&self) -> (query: BitBucketQuery) {
        let mut url_path = String::from_str("teams/");
        url_path.append(self.teamname.as_str());
        BitBucketQuery::new(url_path)
    }
}

#[derive(Debug, Clone)]
pub struct Team {
    pub username: String,
    pub display_name: String,
    pub uuid: String,
    pub links: HashMap<String, Link>,
}

} // verus!
