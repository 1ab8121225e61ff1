//! The two shapes of a response body.
//!
//! A body is a page where it is an object with an array under `values`,
//! and where `page`, `pagelen`, `size` and `next`, as far as they are
//! there, are counts and a string. Any other body is a single item.

use vstd::prelude::*;
use vstd::string::*;
use crate::error::FetchError;
use crate::json::{member, number_as_u64, number_u64, parse, position, document, Json};

verus! {

/// This is the main wrapper type for (successful) BitBucket API Responses.
/// For now it handles either single Item Responses, as well as Paged Multi-Item Responses.
#[derive(Debug, PartialEq, Eq)]
pub enum BitBucketResponse<T> {
    /// The Paged enum variant corresponds to a paged BitBucket API Response.
    /// page and size are currently unused values. All values are gathered following the
    /// next value which contains the URL to the next page or null.
    Paged {
        /// Number of current page
        page: Option<usize>,
        /// Number of Items on current page
        pagelen: Option<usize>,
        /// Total number of Items in the Query
        size: Option<usize>,
        /// Values
        values: Vec<T>,
        /// URL to the next page containing the rest of the Items or nothing.
        next: Option<String>,
    },
    /// The Item enum variant corresponds to a single Item BitBucket API Response.
    Item(T),
}

/// A response as the contracts speak of it.
pub enum Envelope<T> {
    Paged {
        page: Option<usize>,
        pagelen: Option<usize>,
        size: Option<usize>,
        values: Seq<T>,
        next: Option<Seq<char>>,
    },
    Item(T),
}

impl<T> View for BitBucketResponse<T> {
    type V = Envelope<T>;

    open spec fn view(&self) -> Envelope<T> {
        match *self {
            BitBucketResponse::Paged { page, pagelen, size, values, next } => Envelope::Paged {
                page,
                pagelen,
                size,
                values: values@,
                next: match next {
                    Some(url) => Some(url@),
                    None => None,
                },
            },
            BitBucketResponse::Item(item) => Envelope::Item(item),
        }
    }
}

/// Whether `outcome` is what becomes of a response when `read` is applied
/// to its items, in order, until one fails. Where all are read, the
/// outcome is the same response over what `read` gave for each item. Where
/// one fails, the outcome is its error, and the items before it had been
/// read.
pub open spec fn read_as<A, T, F: Fn(A) -> Result<T, FetchError>>(
    read: F,
    raw: Envelope<A>,
    outcome: Result<Envelope<T>, FetchError>,
) -> bool {
    match raw {
        Envelope::Item(item) => match outcome {
            Ok(Envelope::Item(read_item)) => call_ensures(read, (item,), Ok(read_item)),
            Ok(_) => false,
            Err(error) => call_ensures(read, (item,), Err(error)),
        },
        Envelope::Paged { page, pagelen, size, values, next } => match outcome {
            Ok(Envelope::Paged { page: p, pagelen: l, size: s, values: read_values, next: n }) => {
                &&& p == page
                &&& l == pagelen
                &&& s == size
                &&& n == next
                &&& all_read(read, values, read_values)
            },
            Ok(_) => false,
            Err(error) => exists|before: Seq<T>|
                before.len() < values.len() && #[trigger] all_read(
                    read,
                    values.take(before.len() as int),
                    before,
                ) && call_ensures(read, (values[before.len() as int],), Err(error)),
        },
    }
}

/// Whether `read` gave each item of `to` for the item of `from` in the
/// same place.
pub open spec fn all_read<A, T, F: Fn(A) -> Result<T, FetchError>>(
    read: F,
    from: Seq<A>,
    to: Seq<T>,
) -> bool {
    &&& to.len() == from.len()
    &&& forall|i: int| 0 <= i < from.len() ==> call_ensures(read, (from[i],), Ok(#[trigger] to[i]))
}

impl<A> BitBucketResponse<A> {
    /// Reads each item of the response with `read`, keeping the order, and
    /// stops at the first item that `read` refuses.
    pub fn typed<T, F: Fn(A) -> Result<T, FetchError>>(self, read: F) -> (outcome: Result<
        BitBucketResponse<T>,
        FetchError,
    >)
        requires
            forall|item: A| call_requires(read, (item,)),
        ensures
            read_as(
                read,
                self@,
                match outcome {
                    Ok(response) => Ok(response@),
                    Err(error) => Err(error),
                },
            ),
    {
        match self {
            BitBucketResponse::Item(item) => match read(item) {
                Ok(read_item) => Ok(BitBucketResponse::Item(read_item)),
                Err(error) => Err(error),
            },
            BitBucketResponse::Paged { page, pagelen, size, values, next } => {
                let ghost raw = values@;
                let mut read_values: Vec<T> = Vec::new();
                for item in it: values
                    invariant
                        it.seq() == raw,
                        self@ matches Envelope::Paged { values: all, .. } && all == raw,
                        forall|item: A| call_requires(read, (item,)),
                        all_read(read, raw.take(it.index() as int), read_values@),
                {
                    match read(item) {
                        Ok(read_item) => {
                            read_values.push(read_item);
                        },
                        Err(error) => {
                            return Err(error);
                        },
                    }
                }
                Ok(BitBucketResponse::Paged { page, pagelen, size, values: read_values, next })
            },
        }
    }
}

/// What an optional count says. A member that is missing or null says
/// nothing, which is in order; one that is no count breaks the shape.
pub open spec fn count_of(found: Option<Json>) -> Option<Option<usize>> {
    match found {
        None => Some(None),
        Some(Json::Null) => Some(None),
        Some(Json::Number(number)) => match number_u64(number) {
            Some(count) => if count <= usize::MAX {
                Some(Some(count as usize))
            } else {
                None
            },
            None => None,
        },
        Some(_) => None,
    }
}

/// What the optional link to the next page says, in the same way.
pub open spec fn link_of(found: Option<Json>) -> Option<Option<Seq<char>>> {
    match found {
        None => Some(None),
        Some(Json::Null) => Some(None),
        Some(Json::String(url)) => Some(Some(url@)),
        Some(_) => None,
    }
}

/// The page that a list of members spells, where it has the shape of one.
pub open spec fn page_of(members: Seq<(String, Json)>) -> Option<Envelope<Json>> {
    match (
        member(members, "values"@),
        count_of(member(members, "page"@)),
        count_of(member(members, "pagelen"@)),
        count_of(member(members, "size"@)),
        link_of(member(members, "next"@)),
    ) {
        (Some(Json::Array(values)), Some(page), Some(pagelen), Some(size), Some(next)) => Some(
            Envelope::Paged { page, pagelen, size, values: values@, next },
        ),
        _ => None,
    }
}

/// The response that a document spells: a page where it has the shape of
/// one, and otherwise an item that is the whole document.
pub open spec fn envelope(json: Json) -> Envelope<Json> {
    match json {
        Json::Object(members) => match page_of(members@) {
            Some(page) => page,
            None => Envelope::Item(json),
        },
        _ => Envelope::Item(json),
    }
}

fn count(members: &Vec<(String, Json)>, name: &str) -> (outcome: Option<Option<usize>>)
    ensures
        outcome == count_of(member(members@, name@)),
{
    match position(members, name) {
        None => Some(None),
        Some(at) => match &members[at].1 {
            Json::Null => Some(None),
            Json::Number(number) => match number_as_u64(number) {
                Some(count) => if count <= usize::MAX as u64 {
                    Some(Some(count as usize))
                } else {
                    None
                },
                None => None,
            },
            _ => None,
        },
    }
}

fn link(members: &Vec<(String, Json)>, name: &str) -> (outcome: Option<Option<String>>)
    ensures
        match outcome {
            Some(Some(url)) => link_of(member(members@, name@)) == Some(Some(url@)),
            Some(None) => link_of(member(members@, name@)) == Some(None::<Seq<char>>),
            None => link_of(member(members@, name@)) is None,
        },
{
    match position(members, name) {
        None => Some(None),
        Some(at) => match &members[at].1 {
            Json::Null => Some(None),
            Json::String(url) => Some(Some(url.clone())),
            _ => None,
        },
    }
}

/// Where the array of items stands, if the members hold one under `values`.
fn items_at(members: &Vec<(String, Json)>) -> (at: Option<usize>)
    ensures
        match at {
            Some(i) => i < members.len() && members[i as int].1 is Array && member(
                members@,
                "values"@,
            ) == Some(members[i as int].1),
            None => !(member(members@, "values"@) matches Some(Json::Array(_))),
        },
{
    match position(members, "values") {
        None => None,
        Some(at) => match &members[at].1 {
            Json::Array(_) => Some(at),
            _ => None,
        },
    }
}

/// Tells a page from a single item.
pub fn classify(json: Json) -> (response: BitBucketResponse<Json>)
    ensures
        response@ == envelope(json),
{
    match json {
        Json::Object(members) => {
            let at = items_at(&members);
            let page = count(&members, "page");
            let pagelen = count(&members, "pagelen");
            let size = count(&members, "size");
            let next = link(&members, "next");
            match (at, page, pagelen, size, next) {
                (Some(at), Some(page), Some(pagelen), Some(size), Some(next)) => {
                    let mut members = members;
                    let (_, items) = members.remove(at);
                    match items {
                        Json::Array(values) => BitBucketResponse::Paged {
                            page,
                            pagelen,
                            size,
                            values,
                            next,
                        },
                        _ => unreached(),
                    }
                },
                _ => BitBucketResponse::Item(Json::Object(members)),
            }
        },
        other => BitBucketResponse::Item(other),
    }
}

/// Reads a response body.
pub fn decode(body: &[u8]) -> (outcome: Result<BitBucketResponse<Json>, FetchError>)
    ensures
        match document(body@) {
            Ok(json) => outcome matches Ok(response) && response@ == envelope(json),
            Err(message) => outcome matches Err(FetchError::Deserialization(m)) && m@ == message,
        },
{
    match parse(body) {
        Ok(json) => Ok(classify(json)),
        Err(error) => Err(error),
    }
}

} // verus!
