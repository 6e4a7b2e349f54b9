//! The polylines of a list of statuses, requested in batches.
//!
//! The server takes a limited number of ids in one request, so the ids are
//! cut into consecutive chunks, one request each. A response holds one
//! payload for its whole chunk, and nothing in a payload says which chunk it
//! belongs to: the payloads are kept in the order of the chunks.

use vstd::prelude::*;
use vstd::slice::slice_subrange;
use vstd::string::*;
use itertools::Itertools;
use serde_json::Value;
use crate::data::{status_ids, Status};
use crate::http::FetchError;
use crate::json::{decode_geometry, geometry_of, DecodeError};
use crate::text::decimal_text;

verus! {

/// The address of the polylines; the ids follow it, separated by commas.
pub const POLYLINE_URL: &'static str = "https://traewelling.de/api/v1/polyline/";

/// The largest number of ids that the server takes in one request.
pub const POLYLINE_PAGE_COUNT: usize = 50;

/// What separates the ids of a request.
pub const ID_SEPARATOR: &'static str = ",";

/// The number of chunks that `len` ids are cut into.
pub open spec fn chunk_count(len: nat) -> nat {
    ((len + POLYLINE_PAGE_COUNT - 1) / (POLYLINE_PAGE_COUNT as int)) as nat
}

/// The chunk of `ids` with the number `index`, counted from 0: the ids from
/// position `index * POLYLINE_PAGE_COUNT` on, as many as one request takes or
/// as are left.
pub open spec fn chunk(ids: Seq<u32>, index: nat) -> Seq<u32> {
    let start = index * POLYLINE_PAGE_COUNT;
    let end = if start + POLYLINE_PAGE_COUNT <= ids.len() {
        start + POLYLINE_PAGE_COUNT
    } else {
        ids.len() as int
    };
    ids.subrange(start, end)
}

/// The first `count` chunks of `ids`, one after the other.
pub open spec fn chunks_joined(ids: Seq<u32>, count: nat) -> Seq<u32>
    decreases count,
{
    if count == 0 {
        Seq::empty()
    } else {
        chunks_joined(ids, (count - 1) as nat) + chunk(ids, (count - 1) as nat)
    }
}

/// The numbers of `ids` in decimal notation, with `separator` between each
/// two of them.
pub open spec fn joined(ids: Seq<u32>, separator: Seq<char>) -> Seq<char>
    decreases ids.len(),
{
    if ids.len() == 0 {
        Seq::empty()
    } else if ids.len() == 1 {
        decimal_text(ids[0] as nat)
    } else {
        joined(ids.drop_last(), separator) + separator + decimal_text(ids.last() as nat)
    }
}

/// The address at which the polylines of `ids` are requested.
pub open spec fn polyline_url(ids: Seq<u32>) -> Seq<char> {
    POLYLINE_URL@ + joined(ids, ID_SEPARATOR@)
}

/// `Itertools::join` on the numbers of a slice. It writes each number as
/// `Display` does, which for an integer is its decimal notation, and puts the
/// separator between each two. To size its buffer it multiplies the length of
/// the separator in bytes by the number of elements that follow the first;
/// that product must fit.
#[verifier::external_body]
fn join_numbers(ids: &[u32], separator: &str) -> (text: String)
    requires
        separator.spec_bytes().len() * ids@.len() <= isize::MAX,
    ensures
        text@ == joined(ids@, separator@),
{
    ids.iter().join(separator)
}

/// The number of requests that `len` ids take.
pub fn page_count(len: usize) -> (pages: usize)
    ensures
        pages == chunk_count(len as nat),
{
    let full: usize = len / POLYLINE_PAGE_COUNT;
    if len % POLYLINE_PAGE_COUNT == 0 {
        full
    } else {
        full + 1
    }
}

/// Why a request brought no payload.
#[derive(Clone, Copy, Debug, PartialEq, Eq, Structural)]
pub enum BatchFailure {
    /// The request was given up.
    Fetch(FetchError),
    /// The response could not be decoded.
    Decode(DecodeError),
}

/// Why a batch fetch has no result.
#[derive(Clone, Copy, Debug, PartialEq, Eq, Structural)]
pub enum BatchError {
    /// A request was given up.
    Fetch(FetchError),
    /// The response to a request could not be decoded.
    Decode(DecodeError),
    /// Requests are still to be made.
    Unfinished,
}

/// What comes of a request: the body of the response as its text, or the
/// reason for which the request was given up.
pub open spec fn fetched_text(fetched: Result<String, FetchError>) -> Result<Seq<char>, FetchError> {
    match fetched {
        Ok(body) => Ok(body@),
        Err(error) => Err(error),
    }
}

/// The payload that a request brought, or the reason for which it brought
/// none: the request was given up, or the body of the response holds no
/// geometry.
pub open spec fn answer_of(fetched: Result<Seq<char>, FetchError>) -> Result<Value, BatchFailure> {
    match fetched {
        Ok(body) => match geometry_of(body) {
            Ok(payload) => Ok(payload),
            Err(error) => Err(BatchFailure::Decode(error)),
        },
        Err(error) => Err(BatchFailure::Fetch(error)),
    }
}

/// A batch fetch as the rules see it: the ids, the payloads of the chunks
/// fetched so far, and the failure that ended the fetch, if one did.
pub struct BatchView {
    pub ids: Seq<u32>,
    pub lines: Seq<Value>,
    pub failure: Option<BatchFailure>,
}

impl BatchView {
    /// The fetch for `ids`, before any request.
    pub open spec fn planned(ids: Seq<u32>) -> BatchView {
        BatchView { ids, lines: Seq::empty(), failure: None }
    }

    /// The number of the chunk to request next, if one is left to request.
    pub open spec fn pending(self) -> Option<nat> {
        if self.failure is None && self.lines.len() < chunk_count(self.ids.len()) {
            Some(self.lines.len())
        } else {
            None
        }
    }

    /// The fetch after the pending request brought `answer`. A payload is
    /// added behind those of the chunks before; a failure ends the fetch.
    /// Where no request is pending nothing changes.
    pub open spec fn after(self, answer: Result<Value, BatchFailure>) -> BatchView {
        if self.pending() is Some {
            match answer {
                Ok(payload) => BatchView { lines: self.lines.push(payload), ..self },
                Err(failure) => BatchView { failure: Some(failure), ..self },
            }
        } else {
            self
        }
    }

    /// The result of the fetch: the payloads of all chunks in the order of
    /// the chunks once every request has brought one, and otherwise the
    /// reason for which there are none. A fetch that was given up yields no
    /// part of what it had taken in.
    pub open spec fn outcome(self) -> Result<Seq<Value>, BatchError> {
        match self.failure {
            Some(BatchFailure::Fetch(error)) => Err(BatchError::Fetch(error)),
            Some(BatchFailure::Decode(error)) => Err(BatchError::Decode(error)),
            None => if self.pending() is Some {
                Err(BatchError::Unfinished)
            } else {
                Ok(self.lines)
            },
        }
    }

    /// The fetch after the first `count` of `answers` were taken in, one
    /// after the other: what its requests brought.
    pub open spec fn after_answers(self, answers: Seq<Result<Value, BatchFailure>>, count: int) -> BatchView
        decreases count,
    {
        if count <= 0 {
            self
        } else {
            self.after_answers(answers, count - 1).after(answers[count - 1])
        }
    }
}

/// Fetches the polylines of a list of statuses. The caller requests the
/// address that `next_url` gives and hands over what came of the request,
/// until no address is given any more.
pub struct BatchFetcher {
    ids: Vec<u32>,
    lines: Vec<Value>,
    failure: Option<BatchFailure>,
}

impl View for BatchFetcher {
    type V = BatchView;

    closed spec fn view(&self) -> BatchView {
        BatchView { ids: self.ids@, lines: self.lines@, failure: self.failure }
    }
}

impl BatchFetcher {
    /// A fetch of the polylines of `statuses`.
    pub fn new(statuses: &Vec<Status>) -> (fetcher: BatchFetcher)
        ensures
            fetcher@ == BatchView::planned(status_ids(statuses@)),
    {
        let mut ids: Vec<u32> = Vec::new();
        let mut i: usize = 0;
        while i < statuses.len()
            invariant
                i <= statuses.len(),
                ids@ == status_ids(statuses@.take(i as int)),
            decreases statuses.len() - i,
        {
            ids.push(statuses[i].id);
            i = i + 1;
            assert(ids@ =~= status_ids(statuses@.take(i as int)));
        }
        assert(statuses@.take(i as int) =~= statuses@);
        BatchFetcher { ids, lines: Vec::new(), failure: None }
    }

    /// The number of requests that the fetch takes in all.
    pub fn pages(&self) -> (pages: usize)
        ensures
            pages == chunk_count(self@.ids.len()),
    {
        page_count(self.ids.len())
    }

    /// The number of responses taken in so far.
    pub fn fetched(&self) -> (count: usize)
        ensures
            count == self@.lines.len(),
    {
        self.lines.len()
    }

    /// The address to request next, if a request is left to make: that of the
    /// first chunk whose payload is still missing.
    pub fn next_url(&self) -> (url: Option<String>)
        ensures
            match self@.pending() {
                Some(index) => url matches Some(text) && text@ == polyline_url(chunk(self@.ids, index)),
                None => url is None,
            },
    {
        let index = self.lines.len();
        if self.failure.is_some() || index >= page_count(self.ids.len()) {
            None
        } else {
            let start = index * POLYLINE_PAGE_COUNT;
            let end = if self.ids.len() - start >= POLYLINE_PAGE_COUNT {
                start + POLYLINE_PAGE_COUNT
            } else {
                self.ids.len()
            };
            let ids = slice_subrange(self.ids.as_slice(), start, end);
            proof {
                reveal_strlit(",");
                lemma_separator_is_one_byte();
            }
            let mut url = String::from_str(POLYLINE_URL);
            url.append(join_numbers(ids, ID_SEPARATOR).as_str());
            Some(url)
        }
    }

    /// Takes in what the pending request brought: the payload, or the reason
    /// for which there is none.
    pub fn accept_geometry(&mut self, answer: Result<Value, BatchFailure>)
        ensures
            final(self)@ == old(self)@.after(answer),
    {
        if self.failure.is_none() && self.lines.len() < page_count(self.ids.len()) {
            match answer {
                Ok(payload) => {
                    self.lines.push(payload);
                },
                Err(failure) => {
                    self.failure = Some(failure);
                },
            }
        }
    }

    /// Takes in what came of the pending request: the body of the response,
    /// or the reason for which the request was given up.
    pub fn accept(&mut self, fetched: Result<String, FetchError>)
        ensures
            final(self)@ == old(self)@.after(answer_of(fetched_text(fetched))),
    {
        let answer = match fetched {
            Ok(body) => match decode_geometry(body.as_str()) {
                Ok(payload) => Ok(payload),
                Err(error) => Err(BatchFailure::Decode(error)),
            },
            Err(error) => Err(BatchFailure::Fetch(error)),
        };
        self.accept_geometry(answer);
    }

    /// The payloads of all chunks in the order of the chunks, once every
    /// request has brought one; the reason for which there are none, where
    /// the fetch was given up or is not over.
    pub fn finish(self) -> (result: Result<Vec<Value>, BatchError>)
        ensures
            match result {
                Ok(lines) => self@.outcome() == Ok::<Seq<Value>, BatchError>(lines@),
                Err(error) => self@.outcome() == Err::<Seq<Value>, BatchError>(error),
            },
    {
        match self.failure {
            Some(BatchFailure::Fetch(error)) => Err(BatchError::Fetch(error)),
            Some(BatchFailure::Decode(error)) => Err(BatchError::Decode(error)),
            None => if self.lines.len() < page_count(self.ids.len()) {
                Err(BatchError::Unfinished)
            } else {
                Ok(self.lines)
            },
        }
    }
}

/// The chunks cut the ids up: each chunk before the last is full, the last
/// holds what is left and is not empty, and the chunks, one after the other,
/// are the ids, so that each id is requested once and in its place.
pub proof fn lemma_chunks_partition(ids: Seq<u32>)
    ensures
        forall|index: nat|
            index < chunk_count(ids.len()) ==> (#[trigger] chunk(ids, index)).len() == if (index + 1)
                * POLYLINE_PAGE_COUNT <= ids.len() {
                POLYLINE_PAGE_COUNT as int
            } else {
                ids.len() - index * POLYLINE_PAGE_COUNT
            },
        forall|index: nat| index < chunk_count(ids.len()) ==> (#[trigger] chunk(ids, index)).len() > 0,
        chunks_joined(ids, chunk_count(ids.len())) == ids,
{
    lemma_chunks_prefix(ids, chunk_count(ids.len()));
    assert(ids.subrange(0, ids.len() as int) =~= ids);
}

proof fn lemma_chunks_prefix(ids: Seq<u32>, count: nat)
    requires
        count <= chunk_count(ids.len()),
    ensures
        chunks_joined(ids, count) == ids.subrange(
            0,
            if count * POLYLINE_PAGE_COUNT <= ids.len() {
                count * POLYLINE_PAGE_COUNT
            } else {
                ids.len() as int
            },
        ),
    decreases count,
{
    if count == 0 {
        assert(ids.subrange(0, 0) =~= Seq::<u32>::empty());
    } else {
        let before = (count - 1) as nat;
        lemma_chunks_prefix(ids, before);
        let end = if count * POLYLINE_PAGE_COUNT <= ids.len() {
            count * POLYLINE_PAGE_COUNT
        } else {
            ids.len() as int
        };
        assert(chunks_joined(ids, count) =~= ids.subrange(0, end));
    }
}

/// Where every request brings a payload, a fetch makes one request per chunk
/// and ends with one payload per chunk, in the order of the chunks: before
/// the answer with the number `count` the chunk with that number is pending,
/// and after the last answer nothing is.
pub proof fn lemma_one_payload_per_chunk(ids: Seq<u32>, answers: Seq<Result<Value, BatchFailure>>)
    requires
        answers.len() == chunk_count(ids.len()),
        forall|i: int| 0 <= i < answers.len() ==> (#[trigger] answers[i]) is Ok,
    ensures
        forall|count: int|
            0 <= count < answers.len() ==> (#[trigger] BatchView::planned(ids).after_answers(
                answers,
                count,
            )).pending() == Some(count as nat),
        BatchView::planned(ids).after_answers(answers, answers.len() as int).pending() is None,
        BatchView::planned(ids).after_answers(answers, answers.len() as int).outcome() is Ok,
        BatchView::planned(ids).after_answers(answers, answers.len() as int).lines.len()
            == answers.len(),
        forall|i: int|
            0 <= i < answers.len() ==> #[trigger] answers[i] == Ok::<Value, BatchFailure>(
                BatchView::planned(ids).after_answers(answers, answers.len() as int).lines[i],
            ),
{
    let start = BatchView::planned(ids);
    assert forall|count: int| 0 <= count < answers.len() implies (#[trigger] start.after_answers(
        answers,
        count,
    )).pending() == Some(count as nat) by {
        lemma_payloads_prefix(ids, answers, count);
    }
    lemma_payloads_prefix(ids, answers, answers.len() as int);
}

proof fn lemma_payloads_prefix(ids: Seq<u32>, answers: Seq<Result<Value, BatchFailure>>, count: int)
    requires
        answers.len() == chunk_count(ids.len()),
        forall|i: int| 0 <= i < answers.len() ==> (#[trigger] answers[i]) is Ok,
        0 <= count <= answers.len(),
    ensures
        BatchView::planned(ids).after_answers(answers, count).ids == ids,
        BatchView::planned(ids).after_answers(answers, count).failure is None,
        BatchView::planned(ids).after_answers(answers, count).lines.len() == count,
        forall|i: int|
            0 <= i < count ==> #[trigger] answers[i] == Ok::<Value, BatchFailure>(
                BatchView::planned(ids).after_answers(answers, count).lines[i],
            ),
    decreases count,
{
    if count > 0 {
        lemma_payloads_prefix(ids, answers, count - 1);
        assert(answers[count - 1] is Ok);
    }
}

/// A request that brings no payload ends the fetch, whether the request was
/// given up or its response could not be decoded. Nothing more is requested;
/// whatever is handed over afterwards changes nothing; and the fetch has no
/// result but the error, so that no part of the polylines comes out.
pub proof fn lemma_failure_ends_the_fetch(
    fetch: BatchView,
    failure: BatchFailure,
    next: Result<Value, BatchFailure>,
)
    requires
        fetch.pending() is Some,
    ensures
        fetch.after(Err(failure)).failure == Some(failure),
        fetch.after(Err(failure)).lines == fetch.lines,
        fetch.after(Err(failure)).pending() is None,
        fetch.after(Err(failure)).after(next) == fetch.after(Err(failure)),
        fetch.after(Err(failure)).outcome() == Err::<Seq<Value>, BatchError>(
            match failure {
                BatchFailure::Fetch(error) => BatchError::Fetch(error),
                BatchFailure::Decode(error) => BatchError::Decode(error),
            },
        ),
{
}

/// A request that was given up ends the fetch with the error of the
/// request: nothing more is requested, and no polylines come out.
pub proof fn lemma_request_given_up_ends_the_fetch(fetch: BatchView, error: FetchError)
    requires
        fetch.pending() is Some,
    ensures
        fetch.after(answer_of(Err(error))).pending() is None,
        fetch.after(answer_of(Err(error))).outcome() == Err::<Seq<Value>, BatchError>(
            BatchError::Fetch(error),
        ),
{
}

proof fn lemma_separator_is_one_byte()
    ensures
        ID_SEPARATOR.spec_bytes().len() == 1,
{
    reveal_strlit(",");
    assert(ID_SEPARATOR@ =~= seq![',']);
    assert(is_ascii(ID_SEPARATOR));
    is_ascii_spec_bytes(ID_SEPARATOR);
}

} // verus!
