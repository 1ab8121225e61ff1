//! The entry point of the library: the client object, the address of a
//! request, and the trait that ties a builder to what its endpoint returns.

use vstd::prelude::*;
use vstd::string::*;
use std::collections::HashMap;
use crate::fetch::{begun, Fetch, Step};
use crate::json::Json;
use crate::pullrequests::PullrequestsBuilder;
use crate::repositories::RepositoriesBuilder;
use crate::teams::TeamsBuilder;
use crate::text::starts_with;
use crate::users::UsersBuilder;

pub use crate::pullrequests::PullRequest;
pub use crate::repositories::branchrestrictions::BranchPermission;
pub use crate::repositories::Repository;
pub use crate::response::BitBucketResponse;
pub use crate::users::User;

verus! {

/// Api is used to handle authentication.
#[derive(Debug, Clone)]
pub struct Api {
    user: String,
    key: String,
}

/// One authenticated GET request, as the transport is to send it.
#[derive(Debug, Clone, PartialEq, Eq)]
pub struct Request {
    /// The full URL.
    pub url: String,
    /// The name for HTTP Basic authentication.
    pub username: String,
    /// The password for HTTP Basic authentication.
    pub password: String,
    /// The content encoding that is asked for.
    pub accept_encoding: String,
}

impl Api {
    /// The name that requests are made under.
    pub closed spec fn username(&self) -> Seq<char> {
        self.user@
    }

    /// The app password that proves the name.
    pub closed spec fn password(&self) -> Seq<char> {
        self.key@
    }

    /// Get a new API Object by passing Username and Bitbucket App Password.
    /// Please do NOT use your account password.
    pub fn new(user: &str, key: &str) -> (api: Api)
        ensures
            api.username() == user@,
            api.password() == key@,
    {
        Api { user: user.to_owned(), key: key.to_owned() }
    }

    /// Operations on Repositories Endpoint
    pub fn repositories(&self, username: &str) -> (builder: RepositoriesBuilder)
        ensures
            builder.owner() == username@,
            builder.name_filter() is None,
    {
        RepositoriesBuilder::new(username)
    }

    /// Operations on Pullrequests Endpoint
    pub fn pullrequests(&self, username: &str) -> (builder: PullrequestsBuilder)
        ensures
            builder.name() == username@,
    {
        PullrequestsBuilder::new(username)
    }

    /// Operations on User Endpoint
    pub fn user(&self, username: &str) -> (builder: UsersBuilder)
        ensures
            builder.name() == username@,
    {
        UsersBuilder::new(username)
    }

    /// Operations on Team Endpoint
    pub fn team(&self, teamname: &str) -> (builder: TeamsBuilder)
        ensures
            builder.name() == teamname@,
    {
        TeamsBuilder::new(teamname)
    }

    /// Begins the retrieval of what a builder addresses. The step that
    /// comes back asks for the builder's own request; the steps after it
    /// come from [`Fetch::accept`].
    pub fn get<B: GetQueryBuilder>(&self, query: &B) -> (step: Step<B::Item>)
        ensures
            step@ == begun::<B::Item>(query.path()),
    {
        Step::Call { fetch: Fetch::First, query: query.get_query() }
    }

    /// The request that fetches `query` under the credentials of this
    /// object.
    pub fn request(&self, query: &BitBucketQuery) -> (request: Request)
        ensures
            request.url@ == resolved(query@),
            request.username@ == self.username(),
            request.password@ == self.password(),
            request.accept_encoding@ == "application/json"@,
    {
        Request {
            url: query.get_url(),
            username: self.user.clone(),
            password: self.key.clone(),
            accept_encoding: String::from_str("application/json"),
        }
    }
}

/// The address every relative request path is appended to.
pub open spec fn base_url() -> Seq<char> {
    "https://api.bitbucket.org/2.0/"@
}

/// Whether a request path already is a full URL.
pub open spec fn is_absolute(path: Seq<char>) -> bool {
    "http://"@.is_prefix_of(path) || "https://"@.is_prefix_of(path)
}

/// The URL that a request path stands for: the path itself where it is a
/// full URL, and the path behind the base address otherwise.
pub open spec fn resolved(path: Seq<char>) -> Seq<char> {
    if is_absolute(path) {
        path
    } else {
        base_url() + path
    }
}

/// Every request goes to a full URL: whatever the path, what it resolves
/// to is absolute, and so resolves to itself. A full URL, such as the
/// link to a next page, is requested as it stands.
pub proof fn lemma_resolved_is_absolute(path: Seq<char>)
    ensures
        is_absolute(resolved(path)),
        resolved(resolved(path)) == resolved(path),
        is_absolute(path) ==> resolved(path) == path,
{
    if !is_absolute(path) {
        reveal_strlit("https://");
        reveal_strlit("https://api.bitbucket.org/2.0/");
        assert((base_url() + path).subrange(0, 8) =~= "https://"@);
    }
}

/// The address of one request: a path below the API's base address, or a
/// full URL.
#[derive(Debug, Clone, PartialEq, Eq)]
pub struct BitBucketQuery {
    url_path: String,
}

impl View for BitBucketQuery {
    type V = Seq<char>;

    closed spec fn view(&self) -> Seq<char> {
        self.url_path@
    }
}

impl BitBucketQuery {
    pub fn new(url_path: String) -> (query: BitBucketQuery)
        ensures
            query@ == url_path@,
    {
        BitBucketQuery { url_path }
    }

    /// Appends relative URLs to the API base URL, or returns absolute URLs as is.
    pub fn get_url(&self) -> (url: String)
        ensures
            url@ == resolved(self@),
    {
        if starts_with(self.url_path.as_str(), "http://") || starts_with(
            self.url_path.as_str(),
            "https://",
        ) {
            self.url_path.clone()
        } else {
            let mut url = String::from_str("https://api.bitbucket.org/2.0/");
            url.append(self.url_path.as_str());
            url
        }
    }
}

/// The GetQueryBuilder Trait defines the datastructure returned when passed to API::get.
/// Implementing it requires also the definition of the exact Rest Endpoint Called by the Query.
pub trait GetQueryBuilder {
    /// The associated type Item defines the data structure returned by the BitBucketQuery
    type Item;

    /// The address of the endpoint, as a function of what the builder holds.
    spec fn path(&self) -> Seq<char>;

    /// The get_query method defines the exact Rest API Endpoint to be called
    /// relative to the API base url https://api.bitbucket.org/2.0/
    fn get_query(&self) -> (query: BitBucketQuery)
        ensures
            query@ == self.path(),
    ;
}

/// Asking a builder for its query twice gives the same query: whatever
/// `get_query` hands out for a builder is the address that the builder's
/// fields spell, so any two of its results are equal.
pub proof fn lemma_get_query_repeats<B: GetQueryBuilder>(
    builder: B,
    first: BitBucketQuery,
    second: BitBucketQuery,
)
    requires
        call_ensures(B::get_query, (&builder,), first),
        call_ensures(B::get_query, (&builder,), second),
    ensures
        first@ == second@,
        resolved(first@) == resolved(second@),
{
}

/// BitBucket data structure representing multiple kinds of Links
#[derive(Debug)]
pub enum Link {
    /// Some Links have multiple values e.g. Repository Clone has HTTPS and SSH.
    Multi(Vec<Link>),
    /// Single URL with optional name
    Link { href: String, name: Option<String> },
}

impl Clone for Link {
    fn clone(&self) -> (copy: Self)
        decreases self,
    {
        match self {
            Link::Multi(links) => {
                let mut copies: Vec<Link> = Vec::new();
                let mut i: usize = 0;
                while i < links.len()
                    invariant
                        i <= links.len(),
                        self == Link::Multi(*links),
                    decreases links.len() - i,
                {
                    assert(decreases_to!(*self => self->Multi_0));
                    copies.push(links[i].clone());
                    i += 1;
                }
                Link::Multi(copies)
            },
            Link::Link { href, name } => Link::Link { href: href.clone(), name: name.clone() },
        }
    }
}

/// Branch defined by its name
#[derive(Debug, Clone)]
pub struct Branch {
    /// Name of the Branch
    pub name: String,
}

/// Commit hash with Links
#[derive(Debug, Clone)]
pub struct Commit {
    /// Digest representing a specific commit commit
    pub hash: String,
    /// Various Links related to a specific commit
    pub links: HashMap<String, Link>,
}

/// Represents PullRequest data structure, Pointing to Source/Destination Branch,Commit,Repo
#[derive(Debug, Clone)]
pub struct Sourctination {
    pub branch: Branch,
    pub commit: Commit,
    pub repository: Json,
}

} // verus!
