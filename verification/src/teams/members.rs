//! The members of one team.

use vstd::prelude::*;
use vstd::string::*;
use crate::api::{BitBucketQuery, GetQueryBuilder};
use crate::users::User;

verus! {

#[derive(Clone, Debug)]
pub struct MembersBuilder {
    teamname: String,
}

impl MembersBuilder {
    /// The team whose members are listed.
    pub closed spec fn team(&self) -> Seq<char> {
        self.teamname@
    }

    pub fn new(username: &str) -> (builder: MembersBuilder)
        ensures
            builder.team() == username@,
    {
        MembersBuilder { teamname: username.to_owned() }
    }
}

impl GetQueryBuilder for MembersBuilder {
    type Item = User;

    open spec fn path(&self) -> Seq<char> {
        "teams/"@ + self.team() + "/members"@
    }

    fn get_query(&self) -> (query: BitBucketQuery) {
        let mut url_path = String::from_str("teams/");
        url_path.append(self.teamname.as_str());
        url_path.append("/members");
        BitBucketQuery::new(url_path)
    }
}

} // verus!
