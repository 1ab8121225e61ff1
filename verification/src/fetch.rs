//! Following the pages of a listing.
//!
//! A retrieval is a sequence of requests. The library decides which request
//! comes next and what becomes of each response; the caller carries the
//! requests out. [`Step`] is what passes between the two: it either names
//! the next request, or ends the retrieval with the items or with an error.
//!
//! The first request is the builder's own. Each later one goes to the
//! address that the page before it gave as its `next`, as it stands. Items
//! are kept in the order in which they came. An error ends the retrieval
//! at once, and what had been gathered until then is dropped.

use vstd::prelude::*;
use crate::api::BitBucketQuery;
use crate::error::FetchError;
use crate::json::{document, Json};
use crate::response::{decode, envelope, read_as, BitBucketResponse, Envelope};

verus! {

/// A retrieval that waits for a response.
#[derive(Debug, PartialEq, Eq)]
pub enum Fetch<T> {
    /// It waits for the response to the builder's request.
    First,
    /// It waits for a further page, and holds the items of the pages
    /// before.
    Next(Vec<T>),
}

/// A waiting retrieval as the contracts speak of it.
pub enum Waiting<T> {
    First,
    Next(Seq<T>),
}

impl<T> Waiting<T> {
    /// The items gathered so far.
    pub open spec fn items(self) -> Seq<T> {
        match self {
            Waiting::First => Seq::empty(),
            Waiting::Next(items) => items,
        }
    }
}

impl<T> View for Fetch<T> {
    type V = Waiting<T>;

    open spec fn view(&self) -> Waiting<T> {
        match *self {
            Fetch::First => Waiting::First,
            Fetch::Next(items) => Waiting::Next(items@),
        }
    }
}

/// One step of a retrieval.
#[derive(Debug, PartialEq, Eq)]
pub enum Step<T> {
    /// The request at `query` is to be performed, and its response handed
    /// to `fetch`.
    Call { fetch: Fetch<T>, query: BitBucketQuery },
    /// The retrieval is complete, and these are its items.
    Done(Vec<T>),
    /// The retrieval has failed.
    Failed(FetchError),
}

/// A step as the contracts speak of it.
pub enum Move<T> {
    Call { fetch: Waiting<T>, query: Seq<char> },
    Done(Seq<T>),
    Failed(FetchError),
}

impl<T> View for Step<T> {
    type V = Move<T>;

    open spec fn view(&self) -> Move<T> {
        match *self {
            Step::Call { fetch, query } => Move::Call { fetch: fetch@, query: query@ },
            Step::Done(items) => Move::Done(items@),
            Step::Failed(error) => Move::Failed(error),
        }
    }
}

/// The step with which every retrieval begins: the request at `query`.
pub open spec fn begun<T>(query: Seq<char>) -> Move<T> {
    Move::Call { fetch: Waiting::First, query }
}

/// The step that follows when a waiting retrieval meets a response.
pub open spec fn accepted<T>(
    fetch: Waiting<T>,
    response: Result<Envelope<T>, FetchError>,
) -> Move<T> {
    match response {
        Err(error) => Move::Failed(error),
        Ok(Envelope::Item(item)) => match fetch {
            Waiting::First => Move::Done(seq![item]),
            Waiting::Next(_) => Move::Failed(FetchError::SingleItemOnNext),
        },
        Ok(Envelope::Paged { values, next, .. }) => match next {
            Some(url) => Move::Call { fetch: Waiting::Next(fetch.items() + values), query: url },
            None => Move::Done(fetch.items() + values),
        },
    }
}

/// A response as [`accepted`] takes it.
pub open spec fn seen<T>(response: Result<BitBucketResponse<T>, FetchError>) -> Result<
    Envelope<T>,
    FetchError,
> {
    match response {
        Ok(envelope) => Ok(envelope@),
        Err(error) => Err(error),
    }
}

impl<T> Fetch<T> {
    /// Takes the response to the request that the retrieval waits for, or
    /// the error that came in its place, and says how to go on.
    pub fn accept(self, response: Result<BitBucketResponse<T>, FetchError>) -> (step: Step<T>)
        ensures
            step@ == accepted(self@, seen(response)),
    {
        match response {
            Err(error) => Step::Failed(error),
            Ok(BitBucketResponse::Item(item)) => match self {
                Fetch::First => {
                    let mut items: Vec<T> = Vec::new();
                    items.push(item);
                    Step::Done(items)
                },
                Fetch::Next(_) => Step::Failed(FetchError::SingleItemOnNext),
            },
            Ok(BitBucketResponse::Paged { values, next, .. }) => {
                let mut values = values;
                let items = match self {
                    Fetch::First => {
                        values
                    },
                    Fetch::Next(mut items) => {
                        items.append(&mut values);
                        items
                    },
                };
                match next {
                    Some(url) => Step::Call {
                        fetch: Fetch::Next(items),
                        query: BitBucketQuery::new(url),
                    },
                    None => Step::Done(items),
                }
            },
        }
    }
}

/// Whether `step` is what follows when a waiting retrieval is handed the
/// outcome of its request: the body that came back, or the error of the
/// transport. An error of the transport ends the retrieval. A body that
/// is no JSON ends it with the decoder's message. Any other body is told
/// apart as a page or an item, its items are read with `read`, and the
/// retrieval goes on as [`accepted`] says.
pub open spec fn received<T, F: Fn(Json) -> Result<T, FetchError>>(
    fetch: Waiting<T>,
    body: Result<Seq<u8>, FetchError>,
    read: F,
    step: Move<T>,
) -> bool {
    match body {
        Err(error) => step == Move::<T>::Failed(error),
        Ok(text) => match document(text) {
            Err(message) => step matches Move::Failed(FetchError::Deserialization(m)) && m@
                == message,
            Ok(json) => exists|outcome: Result<Envelope<T>, FetchError>|
                #[trigger] read_as(read, envelope(json), outcome) && step == accepted(
                    fetch,
                    outcome,
                ),
        },
    }
}

impl<T> Fetch<T> {
    /// Takes what the transport brought back for the request that the
    /// retrieval waits for, reads it, and says how to go on.
    pub fn receive<F: Fn(Json) -> Result<T, FetchError>>(
        self,
        body: Result<Vec<u8>, FetchError>,
        read: F,
    ) -> (step: Step<T>)
        requires
            forall|item: Json| call_requires(read, (item,)),
        ensures
            received(
                self@,
                match body {
                    Ok(text) => Ok(text@),
                    Err(error) => Err(error),
                },
                read,
                step@,
            ),
    {
        match body {
            Err(error) => Step::Failed(error),
            Ok(text) => match decode(text.as_slice()) {
                Err(error) => Step::Failed(error),
                Ok(raw) => {
                    let response = raw.typed(read);
                    self.accept(response)
                },
            },
        }
    }
}

/// Where a retrieval stands once the responses have been handed to it, one
/// for each request it makes, for as long as it makes requests and
/// responses are left.
pub open spec fn run<T>(step: Move<T>, responses: Seq<Result<Envelope<T>, FetchError>>) -> Move<T>
    decreases responses.len(),
{
    match step {
        Move::Call { fetch, .. } => if responses.len() == 0 {
            step
        } else {
            run(accepted(fetch, responses[0]), responses.drop_first())
        },
        _ => step,
    }
}

/// The addresses of the requests that were answered during that run, in
/// the order in which they were made.
pub open spec fn requested<T>(
    step: Move<T>,
    responses: Seq<Result<Envelope<T>, FetchError>>,
) -> Seq<Seq<char>>
    decreases responses.len(),
{
    match step {
        Move::Call { fetch, query } => if responses.len() == 0 {
            Seq::empty()
        } else {
            seq![query] + requested(accepted(fetch, responses[0]), responses.drop_first())
        },
        _ => Seq::empty(),
    }
}

/// Whether every one of the responses is a page that links to a next one.
pub open spec fn all_linked<T>(pages: Seq<Envelope<T>>) -> bool {
    forall|i: int| 0 <= i < pages.len() ==> (#[trigger] pages[i] matches Envelope::Paged {
        next,
        ..
    } && next is Some)
}

/// Whether the responses are the pages of one listing: each but the last
/// links to a next page, and the last links to none.
pub open spec fn chained<T>(pages: Seq<Envelope<T>>) -> bool {
    &&& pages.len() > 0
    &&& all_linked(pages.drop_last())
    &&& pages.last() matches Envelope::Paged { next, .. } && next is None
}

/// The items of a page.
pub open spec fn values_of<T>(page: Envelope<T>) -> Seq<T> {
    match page {
        Envelope::Paged { values, .. } => values,
        Envelope::Item(item) => seq![item],
    }
}

/// The address that a page links to.
pub open spec fn link_in<T>(page: Envelope<T>) -> Seq<char> {
    match page {
        Envelope::Paged { next: Some(url), .. } => url,
        _ => Seq::empty(),
    }
}

/// The items of all the pages, page after page.
pub open spec fn gathered<T>(pages: Seq<Envelope<T>>) -> Seq<T>
    decreases pages.len(),
{
    if pages.len() == 0 {
        Seq::empty()
    } else {
        values_of(pages[0]) + gathered(pages.drop_first())
    }
}

/// The pages as the responses of a server that never fails.
pub open spec fn answers<T>(pages: Seq<Envelope<T>>) -> Seq<Result<Envelope<T>, FetchError>> {
    Seq::new(pages.len(), |i: int| Ok(pages[i]))
}

/// The addresses that the pages link to.
pub open spec fn links<T>(pages: Seq<Envelope<T>>) -> Seq<Seq<char>> {
    Seq::new(pages.len(), |i: int| link_in(pages[i]))
}

/// The step at which a retrieval stands after pages that all link on: it
/// asks for the page that the last of them links to, and holds the items
/// of them all.
pub open spec fn resumed<T>(fetch: Waiting<T>, query: Seq<char>, pages: Seq<Envelope<T>>) -> Move<
    T,
> {
    if pages.len() == 0 {
        Move::Call { fetch, query }
    } else {
        Move::Call {
            fetch: Waiting::Next(fetch.items() + gathered(pages)),
            query: link_in(pages.last()),
        }
    }
}

proof fn lemma_gathered_last<T>(pages: Seq<Envelope<T>>)
    requires
        pages.len() > 0,
    ensures
        gathered(pages) == gathered(pages.drop_last()) + values_of(pages.last()),
    decreases pages.len(),
{
    if pages.len() == 1 {
        assert(gathered(pages.drop_first()) =~= Seq::<T>::empty());
    } else {
        let tail = pages.drop_first();
        lemma_gathered_last(tail);
        assert(tail.drop_last() =~= pages.drop_last().drop_first());
    }
}

proof fn lemma_linked_pages<T>(
    fetch: Waiting<T>,
    query: Seq<char>,
    pages: Seq<Envelope<T>>,
    rest: Seq<Result<Envelope<T>, FetchError>>,
)
    requires
        all_linked(pages),
        rest.len() > 0,
    ensures
        run(Move::Call { fetch, query }, answers(pages) + rest) == run(
            resumed(fetch, query, pages),
            rest,
        ),
        requested(Move::Call { fetch, query }, answers(pages) + rest) == (seq![query] + links(
            pages,
        )).drop_last() + requested(resumed(fetch, query, pages), rest),
    decreases pages.len(),
{
    let responses = answers(pages) + rest;
    if pages.len() > 0 {
        let first = pages[0];
        let tail = pages.drop_first();
        let after = Waiting::Next(fetch.items() + values_of(first));
        assert(responses.drop_first() =~= answers(tail) + rest);
        assert(all_linked(tail)) by {
            assert forall|i: int| 0 <= i < tail.len() implies (#[trigger] tail[i] matches Envelope::Paged {
                next,
                ..
            } && next is Some) by {
                assert(tail[i] == pages[i + 1]);
            }
        }
        lemma_linked_pages(after, link_in(first), tail, rest);
        if tail.len() == 0 {
            assert(gathered(pages) =~= values_of(first));
        } else {
            assert(after.items() + gathered(tail) =~= fetch.items() + gathered(pages));
        }
        assert((seq![query] + links(pages)).drop_last() =~= seq![query] + (seq![link_in(first)]
            + links(tail)).drop_last());
    } else {
        assert(responses =~= rest);
        assert((seq![query] + links(pages)).drop_last() =~= Seq::<Seq<char>>::empty());
    }
}

/// A listing whose pages chain `next` links is gathered whole: handed the
/// pages one by one, the retrieval makes one request for each page, the
/// first at the builder's address and each later one at the address that
/// the page before it linked to, and then ends with the items of all the
/// pages, in the order in which the pages held them, each item once.
pub proof fn lemma_pages_are_gathered<T>(query: Seq<char>, pages: Seq<Envelope<T>>)
    requires
        chained(pages),
    ensures
        run(begun(query), answers(pages)) == Move::Done(gathered(pages)),
        requested(begun::<T>(query), answers(pages)) == seq![query] + links(pages.drop_last()),
        requested(begun::<T>(query), answers(pages)).len() == pages.len(),
{
    let body = pages.drop_last();
    let last = pages.last();
    let rest = seq![Ok::<Envelope<T>, FetchError>(last)];
    let waiting = resumed(Waiting::<T>::First, query, body);
    assert(answers(pages) =~= answers(body) + rest);
    lemma_linked_pages(Waiting::<T>::First, query, body, rest);
    lemma_gathered_last(pages);
    assert(run(waiting, rest) == Move::Done(gathered(pages))) by {
        assert(waiting->fetch.items() + values_of(last) =~= gathered(pages));
        assert(run(waiting, rest) == run(
            accepted(waiting->fetch, rest[0]),
            rest.drop_first(),
        ));
    }
    assert(requested(waiting, rest) == seq![waiting->query]) by {
        assert(requested(waiting, rest) == seq![waiting->query] + requested(
            accepted(waiting->fetch, rest[0]),
            rest.drop_first(),
        ));
    }
    assert((seq![query] + links(body)).drop_last() + seq![waiting->query] =~= seq![query] + links(
        body,
    ));
}

/// A response that is a single item makes the whole result, where it
/// answers the builder's own request.
pub proof fn lemma_single_item<T>(query: Seq<char>, item: T)
    ensures
        run(begun(query), seq![Ok::<Envelope<T>, FetchError>(Envelope::Item(item))]) == Move::Done(
            seq![item],
        ),
        requested(
            begun::<T>(query),
            seq![Ok::<Envelope<T>, FetchError>(Envelope::Item(item))],
        ) == seq![query],
{
    let responses = seq![Ok::<Envelope<T>, FetchError>(Envelope::Item(item))];
    let end = accepted(Waiting::<T>::First, responses[0]);
    assert(run(begun(query), responses) == run(end, responses.drop_first()));
    assert(requested(begun::<T>(query), responses) == seq![query] + requested(
        end,
        responses.drop_first(),
    ));
}

/// An error ends the retrieval with that error, whichever request it
/// strikes and whatever the pages before it held: none of their items is
/// handed out, and no further request is made.
pub proof fn lemma_error_ends_retrieval<T>(
    query: Seq<char>,
    pages: Seq<Envelope<T>>,
    error: FetchError,
    later: Seq<Result<Envelope<T>, FetchError>>,
)
    requires
        all_linked(pages),
    ensures
        run(begun(query), answers(pages) + seq![Err::<Envelope<T>, FetchError>(error)] + later)
            == Move::<T>::Failed(error),
        requested(
            begun::<T>(query),
            answers(pages) + seq![Err::<Envelope<T>, FetchError>(error)] + later,
        ).len() == pages.len() + 1,
{
    let rest = seq![Err::<Envelope<T>, FetchError>(error)] + later;
    let waiting = resumed(Waiting::<T>::First, query, pages);
    assert(answers(pages) + seq![Err::<Envelope<T>, FetchError>(error)] + later =~= answers(pages)
        + rest);
    lemma_linked_pages(Waiting::<T>::First, query, pages, rest);
    assert(run(waiting, rest) == run(accepted(waiting->fetch, rest[0]), rest.drop_first()));
    assert(requested(waiting, rest) == seq![waiting->query] + requested(
        accepted(waiting->fetch, rest[0]),
        rest.drop_first(),
    ));
}

/// A single item that comes in place of a further page ends the retrieval
/// with an error of its own, and the items of the pages before it are not
/// handed out.
pub proof fn lemma_item_on_next_ends_retrieval<T>(
    query: Seq<char>,
    pages: Seq<Envelope<T>>,
    item: T,
    later: Seq<Result<Envelope<T>, FetchError>>,
)
    requires
        pages.len() > 0,
        all_linked(pages),
    ensures
        run(
            begun(query),
            answers(pages) + seq![Ok::<Envelope<T>, FetchError>(Envelope::Item(item))] + later,
        ) == Move::<T>::Failed(FetchError::SingleItemOnNext),
{
    let rest = seq![Ok::<Envelope<T>, FetchError>(Envelope::Item(item))] + later;
    let waiting = resumed(Waiting::<T>::First, query, pages);
    assert(answers(pages) + seq![Ok::<Envelope<T>, FetchError>(Envelope::Item(item))] + later
        =~= answers(pages) + rest);
    lemma_linked_pages(Waiting::<T>::First, query, pages, rest);
    assert(run(waiting, rest) == run(accepted(waiting->fetch, rest[0]), rest.drop_first()));
}

} // verus!
