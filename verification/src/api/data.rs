//! The listing of one category's records, whole or as a random sample.

use vstd::prelude::*;
use vstd::string::StringExecFns;
use rand::seq::SliceRandom;
use crate::api::utils::{
    failure, internal_error, internal_error_text, response_handler, success, Envelope,
    EnvelopeView, Payload, PayloadView, Status,
};
use crate::models::data::Row;

verus! {

/// Largest number of records that one retrieval asks the store for.
pub const MAX_RETRIEVAL: u32 = 200;

/// The part of the request path that names the category.
#[derive(Clone, Debug, PartialEq, Eq)]
pub struct PathParams {
    pub category_slug: String,
}

/// The optional part of the request: how many records to sample.
#[derive(Clone, Copy, Debug, PartialEq, Eq)]
pub struct QueryParams {
    pub limit: Option<u32>,
}

/// What is asked of the store for one category: the records of
/// `collection` whose `filter_field` equals `filter_value`, ordered by
/// `order_field`, descending where `descending` holds, and at most `limit`
/// of them.
#[derive(Clone, Debug, PartialEq, Eq)]
pub struct RowQuery {
    pub collection: String,
    pub filter_field: String,
    pub filter_value: String,
    pub order_field: String,
    pub descending: bool,
    pub limit: u32,
}

/// Why a listing could not be made.
#[derive(Clone, Copy, Debug, PartialEq, Eq, Structural)]
pub enum FetchError {
    /// The store holds no record of the category.
    NotFound,
    /// The store could not be asked.
    StoreFailure,
}

/// The query for the records of a category: those of the collection
/// `questions` whose `category_slug` is the one asked for, by `id`
/// descending, at most [`MAX_RETRIEVAL`].
pub fn rows_query(path_params: &PathParams) -> (query: RowQuery)
    ensures
        query.collection@ == "questions"@,
        query.filter_field@ == "category_slug"@,
        query.filter_value@ == path_params.category_slug@,
        query.order_field@ == "id"@,
        query.descending,
        query.limit == MAX_RETRIEVAL,
{
    RowQuery {
        collection: "questions".to_string(),
        filter_field: "category_slug".to_string(),
        filter_value: path_params.category_slug.clone(),
        order_field: "id".to_string(),
        descending: true,
        limit: MAX_RETRIEVAL,
    }
}

/// The record of a streamed item, where it could be read.
pub open spec fn readable(item: Result<Row, String>) -> Option<Row> {
    match item {
        Ok(row) => Some(row),
        Err(_) => None,
    }
}

/// What a retrieval yields: a failure where the query itself failed,
/// otherwise the readable items of the stream, in its order.
pub open spec fn retrieved_rows(outcome: Result<Seq<Result<Row, String>>, String>) -> Result<
    Seq<Row>,
    FetchError,
> {
    match outcome {
        Ok(items) => Ok(items.filter_map(|item: Result<Row, String>| readable(item))),
        Err(_) => Err(FetchError::StoreFailure),
    }
}

/// A retrieval's outcome as a sequence of items.
pub open spec fn outcome_view(outcome: Result<Vec<Result<Row, String>>, String>) -> Result<
    Seq<Result<Row, String>>,
    String,
> {
    match outcome {
        Ok(items) => Ok(items@),
        Err(e) => Err(e),
    }
}

/// A listing as a sequence of records.
pub open spec fn listing_view(listing: Result<Vec<Row>, FetchError>) -> Result<
    Seq<Row>,
    FetchError,
> {
    match listing {
        Ok(rows) => Ok(rows@),
        Err(e) => Err(e),
    }
}

/// Gathers the records of a retrieval. An item that could not be read is
/// skipped and the rest is kept in order. A query that failed as a whole is
/// a failure of the store, not an empty category.
pub fn read_db(outcome: Result<Vec<Result<Row, String>>, String>) -> (retrieval: Result<
    Vec<Row>,
    FetchError,
>)
    ensures
        listing_view(retrieval) == retrieved_rows(outcome_view(outcome)),
{
    match outcome {
        Ok(items) => {
            let ghost all = items@;
            let ghost pick = |item: Result<Row, String>| readable(item);
            let mut result: Vec<Row> = Vec::new();
            for item in it: items
                invariant
                    it.seq() == all,
                    pick == |item: Result<Row, String>| readable(item),
                    result@ == all.take(it.index()).filter_map(pick),
            {
                proof {
                    all.lemma_filter_map_take_succ(pick, it.index());
                }
                match item {
                    Ok(row) => {
                        result.push(row);
                    },
                    Err(_) => {},
                }
            }
            proof {
                assert(all.take(all.len() as int) == all);
            }
            Ok(result)
        },
        Err(_) => Err(FetchError::StoreFailure),
    }
}

/// Whether `positions` names distinct places of a sequence of `count`
/// items.
pub open spec fn distinct_positions(positions: Seq<int>, count: nat) -> bool {
    &&& forall|i: int| 0 <= i < positions.len() ==> 0 <= #[trigger] positions[i] < count
    &&& forall|i: int, j: int|
        0 <= i < j < positions.len() ==> #[trigger] positions[i] != #[trigger] positions[j]
}

/// Whether `sample` holds, item for item, the records that stand in
/// `source` at the distinct places `positions`: a draw without replacement.
pub open spec fn drawn_at(sample: Seq<Row>, source: Seq<Row>, positions: Seq<int>) -> bool {
    &&& positions.len() == sample.len()
    &&& distinct_positions(positions, source.len())
    &&& forall|i: int| 0 <= i < sample.len() ==> #[trigger] sample[i] == source[positions[i]]
}

/// Whether `sample` is a draw of `size` records from `source`, without
/// replacement, in any order.
pub open spec fn is_sample(sample: Seq<Row>, source: Seq<Row>, size: nat) -> bool {
    sample.len() == size && exists|positions: Seq<int>| drawn_at(sample, source, positions)
}

/// How a listing is made from a retrieval of `count` records.
pub enum Plan {
    /// Nothing was retrieved.
    NotFound,
    /// The retrieval is returned as it is.
    All,
    /// A random sample of this size is drawn.
    Sample(nat),
}

/// The plan for `count` retrieved records and the caller's `limit`: an
/// empty retrieval is not found; without a limit, or with one that the
/// retrieval does not exceed, everything is returned; otherwise a sample of
/// `limit` records is drawn.
pub open spec fn plan(count: nat, limit: Option<u32>) -> Plan {
    if count == 0 {
        Plan::NotFound
    } else {
        match limit {
            None => Plan::All,
            Some(size) => if size >= count {
                Plan::All
            } else {
                Plan::Sample(size as nat)
            },
        }
    }
}

/// Whether `listing` is a listing that [`fetch`] may return for the
/// retrieval and the limit.
pub open spec fn fetched(
    retrieved: Seq<Row>,
    limit: Option<u32>,
    listing: Result<Seq<Row>, FetchError>,
) -> bool {
    match plan(retrieved.len(), limit) {
        Plan::NotFound => listing == Err::<Seq<Row>, FetchError>(FetchError::NotFound),
        Plan::All => listing == Ok::<Seq<Row>, FetchError>(retrieved),
        Plan::Sample(size) => listing matches Ok(rows) && is_sample(rows, retrieved, size),
    }
}

/// Calls `rand::seq::SliceRandom::shuffle` on the records with the thread's
/// generator, `rand::rng()`.
///
/// Trusted: the records are permuted in place, so afterwards each place
/// holds the record of a distinct earlier place and none is lost. Which
/// permutation it is depends on chance and is not stated.
#[verifier::external_body]
fn shuffle(rows: &mut Vec<Row>)
    ensures
        final(rows)@.len() == old(rows)@.len(),
        exists|positions: Seq<int>| drawn_at(final(rows)@, old(rows)@, positions),
{
    let mut rng = rand::rng();
    rows.shuffle(&mut rng);
}

/// The first `size` records of a permuted retrieval: the sample. A
/// retrieval of fewer records is the sample as it is.
pub fn take_sample(shuffled: Vec<Row>, size: usize) -> (sample: Vec<Row>)
    ensures
        size <= shuffled@.len() ==> sample@ == shuffled@.take(size as int),
        size > shuffled@.len() ==> sample@ == shuffled@,
{
    let mut sample = shuffled;
    sample.truncate(size);
    sample
}

/// A prefix of a draw is a draw.
proof fn lemma_prefix_is_drawn(shuffled: Seq<Row>, source: Seq<Row>, size: int)
    requires
        0 <= size <= shuffled.len(),
        exists|positions: Seq<int>| drawn_at(shuffled, source, positions),
    ensures
        is_sample(shuffled.take(size), source, size as nat),
{
    let positions = choose|positions: Seq<int>| drawn_at(shuffled, source, positions);
    assert(drawn_at(shuffled.take(size), source, positions.take(size)));
}

/// Lists the records of a retrieval.
///
/// An empty retrieval is reported as not found. Without a limit, or with a
/// limit that the retrieval does not exceed, the retrieval is returned
/// unchanged and in its order. Otherwise the retrieval is permuted at
/// random and its first `limit` records are returned: `limit` records from
/// distinct places of the retrieval, in the permuted order.
pub fn fetch(retrieved: Vec<Row>, limit: Option<u32>) -> (listing: Result<Vec<Row>, FetchError>)
    ensures
        fetched(retrieved@, limit, listing_view(listing)),
{
    if retrieved.len() == 0 {
        return Err(FetchError::NotFound);
    }
    match limit {
        Some(size) => {
            if size as usize >= retrieved.len() {
                Ok(retrieved)
            } else {
                let ghost source = retrieved@;
                let mut rows = retrieved;
                shuffle(&mut rows);
                proof {
                    lemma_prefix_is_drawn(rows@, source, size as int);
                }
                Ok(take_sample(rows, size as usize))
            }
        },
        None => Ok(retrieved),
    }
}

/// The text that reports an empty category.
pub open spec fn not_found_text(category_slug: Seq<char>) -> Seq<char> {
    "database has not rows, category_slug: "@ + category_slug
}

/// The answer to a listing of `retrieved` records of the category
/// `category_slug` under `limit`: 404 where nothing was retrieved, otherwise
/// 200 with a listing that [`fetch`] may make.
pub open spec fn listed(
    category_slug: Seq<char>,
    limit: Option<u32>,
    retrieved: Seq<Row>,
    answer: EnvelopeView,
) -> bool {
    match plan(retrieved.len(), limit) {
        Plan::NotFound => answer == failure(
            Status::NotFound,
            "Not Found"@,
            not_found_text(category_slug),
        ),
        Plan::All => answer == success(Status::Success, "ok"@, Some(PayloadView::Rows(retrieved))),
        Plan::Sample(size) => exists|rows: Seq<Row>|
            #![trigger is_sample(rows, retrieved, size)]
            is_sample(rows, retrieved, size) && answer == success(
                Status::Success,
                "ok"@,
                Some(PayloadView::Rows(rows)),
            ),
    }
}

/// The answer to a listing request, given what the retrieval came to. A
/// store that could not be asked is a 500 with the words of every internal
/// failure; a category without records is a 404; otherwise the listing that
/// [`fetch`] makes is returned with 200.
pub fn get(
    path_params: &PathParams,
    query_params: &QueryParams,
    retrieval: Result<Vec<Row>, FetchError>,
) -> (envelope: Envelope)
    ensures
        match retrieval {
            Err(FetchError::StoreFailure) => envelope@ == failure(
                Status::InternalServerError,
                "error"@,
                internal_error_text(),
            ),
            Err(FetchError::NotFound) => envelope@ == failure(
                Status::NotFound,
                "Not Found"@,
                not_found_text(path_params.category_slug@),
            ),
            Ok(retrieved) => listed(
                path_params.category_slug@,
                query_params.limit,
                retrieved@,
                envelope@,
            ),
        },
{
    let listing = match retrieval {
        Ok(retrieved) => fetch(retrieved, query_params.limit),
        Err(e) => Err(e),
    };
    match listing {
        Ok(rows) => response_handler(
            Status::Success,
            "ok".to_string(),
            Some(Payload::Rows(rows)),
            None,
        ),
        Err(FetchError::NotFound) => {
            let mut text = "database has not rows, category_slug: ".to_string();
            text.append(path_params.category_slug.as_str());
            response_handler(Status::NotFound, "Not Found".to_string(), None, Some(text))
        },
        Err(FetchError::StoreFailure) => internal_error(),
    }
}

/// A store that could not be asked is never answered as an empty category,
/// nor as a success: the answer to a failed retrieval is a 500.
pub proof fn lemma_store_failure_is_not_an_empty_category(
    outcome: Result<Seq<Result<Row, String>>, String>,
)
    requires
        outcome is Err,
    ensures
        retrieved_rows(outcome) == Err::<Seq<Row>, FetchError>(FetchError::StoreFailure),
{
}

/// The identifiers of a sequence of records, in the same order.
pub open spec fn rows_ids(rows: Seq<Row>) -> Seq<u32> {
    rows.map_values(|row: Row| row.id)
}

/// Whether every record belongs to the category `category_slug`.
pub open spec fn of_category(rows: Seq<Row>, category_slug: Seq<char>) -> bool {
    forall|i: int| 0 <= i < rows.len() ==> (#[trigger] rows[i]).category_slug@ == category_slug
}

/// Whether the records stand by identifier, descending.
pub open spec fn newest_first(rows: Seq<Row>) -> bool {
    forall|i: int, j: int| 0 <= i < j < rows.len() ==> rows_ids(rows)[i] >= rows_ids(rows)[j]
}

/// Whether `rows` has the shape of an answer to the query that
/// [`rows_query`] makes for `category_slug`: records of that category, by
/// identifier descending, at most [`MAX_RETRIEVAL`] of them.
pub open spec fn answers_query(rows: Seq<Row>, category_slug: Seq<char>) -> bool {
    &&& of_category(rows, category_slug)
    &&& newest_first(rows)
    &&& rows.len() <= MAX_RETRIEVAL
}

/// Without a limit a listing is the retrieval itself: every record that was
/// retrieved, in the order of the retrieval. So where the store answered the
/// query, the listing holds the records of the category by identifier
/// descending, at most [`MAX_RETRIEVAL`] of them.
pub proof fn lemma_no_limit_lists_everything(
    retrieved: Seq<Row>,
    category_slug: Seq<char>,
    listing: Result<Seq<Row>, FetchError>,
)
    requires
        retrieved.len() > 0,
        fetched(retrieved, None, listing),
    ensures
        listing == Ok::<Seq<Row>, FetchError>(retrieved),
        answers_query(retrieved, category_slug) ==> answers_query(listing->Ok_0, category_slug),
{
}

/// A sample keeps to the category of the retrieval it was drawn from.
pub proof fn lemma_sample_keeps_category(
    sample: Seq<Row>,
    retrieved: Seq<Row>,
    size: nat,
    category_slug: Seq<char>,
)
    requires
        is_sample(sample, retrieved, size),
        of_category(retrieved, category_slug),
    ensures
        of_category(sample, category_slug),
{
    let positions = choose|positions: Seq<int>| drawn_at(sample, retrieved, positions);
    assert forall|i: int| 0 <= i < sample.len() implies (#[trigger] sample[i]).category_slug@
        == category_slug by {
        assert(sample[i] == retrieved[positions[i]]);
    }
}

/// A limit that the retrieval does not exceed changes nothing: the listing
/// is the one made without a limit.
pub proof fn lemma_large_limit_is_no_limit(
    retrieved: Seq<Row>,
    limit: u32,
    listing: Result<Seq<Row>, FetchError>,
)
    requires
        limit >= retrieved.len(),
    ensures
        plan(retrieved.len(), Some(limit)) == plan(retrieved.len(), None),
        fetched(retrieved, Some(limit), listing) == fetched(retrieved, None, listing),
{
}

/// A limit below the size of the retrieval gives exactly `limit` records,
/// each of them a record of the retrieval and no place of the retrieval
/// used twice; so where the retrieval holds no record twice, neither does
/// the listing.
pub proof fn lemma_small_limit_samples(
    retrieved: Seq<Row>,
    limit: u32,
    listing: Result<Seq<Row>, FetchError>,
)
    requires
        limit < retrieved.len(),
        fetched(retrieved, Some(limit), listing),
    ensures
        listing is Ok,
        listing->Ok_0.len() == limit,
        forall|i: int| 0 <= i < limit ==> retrieved.contains(#[trigger] listing->Ok_0[i]),
        retrieved.no_duplicates() ==> listing->Ok_0.no_duplicates(),
        rows_ids(retrieved).no_duplicates() ==> rows_ids(listing->Ok_0).no_duplicates(),
{
    let rows = listing->Ok_0;
    let positions = choose|positions: Seq<int>| drawn_at(rows, retrieved, positions);
    assert forall|i: int| 0 <= i < limit implies retrieved.contains(#[trigger] rows[i]) by {
        assert(retrieved[positions[i]] == rows[i]);
    }
    if retrieved.no_duplicates() {
        assert forall|i: int, j: int| 0 <= i < rows.len() && 0 <= j < rows.len() && i != j implies rows[i]
            != rows[j] by {
            assert(positions[i] != positions[j]);
        }
    }
    if rows_ids(retrieved).no_duplicates() {
        assert forall|i: int, j: int|
            0 <= i < rows.len() && 0 <= j < rows.len() && i != j implies rows_ids(rows)[i]
            != rows_ids(rows)[j] by {
            assert(positions[i] != positions[j]);
            assert(rows_ids(retrieved)[positions[i]] == rows[i].id);
            assert(rows_ids(retrieved)[positions[j]] == rows[j].id);
        }
    }
}

/// A category without records is not found, whatever the limit.
pub proof fn lemma_empty_is_not_found(limit: Option<u32>, listing: Result<Seq<Row>, FetchError>)
    requires
        fetched(Seq::<Row>::empty(), limit, listing),
    ensures
        listing == Err::<Seq<Row>, FetchError>(FetchError::NotFound),
{
}

} // verus!
