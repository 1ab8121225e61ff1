//! The repositories of one owner, and what narrows down from there.

pub mod branchrestrictions;
pub mod pullrequest;
pub mod pullrequests;
pub mod repository;

use vstd::prelude::*;
use vstd::string::*;
use std::collections::HashMap;
use crate::api::{BitBucketQuery, GetQueryBuilder, Link};
use crate::encoding::{is_plain, lemma_encoded_is_plain, percent_encode, percent_encoded};
use self::repository::RepositoryBuilder;

verus! {

/// The path that lists an owner's repositories, 75 to a page, and asks for
/// those whose name contains the filter where one is set. Of the query
/// `name~"<filter>"` only the filter is percent-encoded; the two quotes
/// around it stand as they are.
pub open spec fn repositories_path(owner: Seq<char>, filter: Option<Seq<char>>) -> Seq<char> {
    match filter {
        Some(name) => "repositories/"@ + owner + "?pagelen=75&q=name~\""@ + percent_encoded(name)
            + "\""@,
        None => "repositories/"@ + owner + "?pagelen=75"@,
    }
}

/// In the path of a filtered listing the filter stands encoded between
/// two quotes, and whatever the filter was, what stands between them
/// holds no space and no quote: the second quote ends the filter.
pub proof fn lemma_filter_is_enclosed(owner: Seq<char>, name: Seq<char>)
    ensures
        repositories_path(owner, Some(name)) == "repositories/"@ + owner
            + "?pagelen=75&q=name~"@ + seq!['"'] + percent_encoded(name) + seq!['"'],
        forall|i: int|
            0 <= i < percent_encoded(name).len() ==> {
                &&& is_plain(#[trigger] percent_encoded(name)[i])
                &&& percent_encoded(name)[i] != ' '
                &&& percent_encoded(name)[i] != '"'
            },
{
    lemma_encoded_is_plain(name);
    reveal_strlit("?pagelen=75&q=name~\"");
    reveal_strlit("?pagelen=75&q=name~");
    reveal_strlit("\"");
    assert("?pagelen=75&q=name~\""@ =~= "?pagelen=75&q=name~"@ + seq!['"']);
    assert("\""@ =~= seq!['"']);
    assert(repositories_path(owner, Some(name)) =~= "repositories/"@ + owner
        + "?pagelen=75&q=name~"@ + seq!['"'] + percent_encoded(name) + seq!['"']);
}

#[derive(Clone, Debug)]
pub struct RepositoriesBuilder {
    username: String,
    filter: Option<String>,
}

impl RepositoriesBuilder {
    /// The owner whose repositories are listed.
    pub closed spec fn owner(&self) -> Seq<char> {
        self.username@
    }

    /// The name filter, where one is set.
    pub closed spec fn name_filter(&self) -> Option<Seq<char>> {
        match self.filter {
            Some(name) => Some(name@),
            None => None,
        }
    }

    pub fn new(username: &str) -> (builder: RepositoriesBuilder)
        ensures
            builder.owner() == username@,
            builder.name_filter() is None,
    {
        RepositoriesBuilder { username: username.to_owned(), filter: None }
    }

    pub fn repo_slug(&self, repo_slug: &str) -> (builder: RepositoryBuilder)
        ensures
            builder.owner() == self.owner(),
            builder.slug() == repo_slug@,
    {
        RepositoryBuilder::new(self.username.as_str(), repo_slug)
    }

    pub fn repo(&self, repo: &Repository) -> (builder: RepositoryBuilder)
        ensures
            builder.owner() == self.owner(),
            builder.slug() == repo.slug@,
    {
        RepositoryBuilder::new(self.username.as_str(), repo.slug.as_str())
    }

    pub fn filter(&mut self, filter: &str) -> (builder: &mut RepositoriesBuilder)
        ensures
            builder.owner() == old(self).owner(),
            builder.name_filter() == Some(filter@),
            *final(self) == *final(builder),
    {
        self.filter = Some(filter.to_owned());
        self
    }
}

impl GetQueryBuilder for RepositoriesBuilder {
    type Item = Repository;

    open spec fn path(&self) -> Seq<char> {
        repositories_path(self.owner(), self.name_filter())
    }

    fn get_query(&self) -> (query: BitBucketQuery) {
        let mut url_path = String::from_str("repositories/");
        url_path.append(self.username.as_str());
        match &self.filter {
            Some(name) => {
                let encoded = percent_encode(name.as_str());
                url_path.append("?pagelen=75&q=name~\"");
                url_path.append(encoded.as_str());
                url_path.append("\"");
            },
            None => {
                url_path.append("?pagelen=75");
            },
        }
        BitBucketQuery::new(url_path)
    }
}

/// BitBucket data structure representing a single Repository
#[derive(Debug, Clone)]
pub struct Repository {
    pub name: String,
    pub full_name: String,
    pub description: String,
    pub uuid: String,
    pub links: HashMap<String, Link>,
    pub slug: String,
    pub is_private: bool,
}

} // verus!
