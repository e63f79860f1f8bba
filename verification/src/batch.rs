//! Batched iteration: a cursor that hands out the elements of a paginated
//! collection one by one and says when the next batch has to be fetched.

use crate::decode::Payload;
use crate::errors::ZoteroError;
use crate::text::decimal;
use serde_json::Value;
use vstd::prelude::*;
use vstd::string::*;

verus! {

/// Why a batch did not arrive.
#[derive(Debug)]
pub enum ZoteroBatchError {
    /// The collection has no element at the offset that was asked for: the
    /// iteration is over.
    NoMoreItems,
    /// The fetch failed, or what it brought is no batch.
    FetchError(ZoteroError),
}

/// The message for a response that is not an array of elements.
pub const NOT_A_BATCH: &'static str = "Batch response is not an array";

/// The message for a batch that reaches beyond the largest offset.
pub const OFFSET_OVERFLOW: &'static str = "Batch exceeds the range of offsets";

/// The field by which batches are sorted.
pub const BATCH_SORT: &'static str = "dateAdded";

/// The direction in which batches are sorted.
pub const BATCH_DIRECTION: &'static str = "asc";

/// What one fetch asks for: `limit` elements from offset `start` on, of those
/// whose version is above `since`, oldest first.
#[derive(Clone, Copy, Debug, PartialEq, Eq)]
pub struct BatchRequest {
    pub start: usize,
    pub since: usize,
    pub limit: usize,
}

/// The resource that an iteration walks.
#[derive(Clone, Copy, Debug, PartialEq, Eq)]
pub enum BatchTarget {
    /// The items of the library.
    Items,
    /// The items in the trash.
    Trash,
    /// The collections of the library. They have no watermark.
    Collections,
}

/// The path of the items.
pub const ITEMS_PATH: &'static str = "items";

/// The path of the items in the trash.
pub const TRASH_PATH: &'static str = "items/trash";

/// The path of the collections.
pub const COLLECTIONS_PATH: &'static str = "collections";

/// The path under which the batches of a resource are fetched.
pub open spec fn batch_path(target: BatchTarget) -> Seq<char> {
    match target {
        BatchTarget::Items => ITEMS_PATH@,
        BatchTarget::Trash => TRASH_PATH@,
        BatchTarget::Collections => COLLECTIONS_PATH@,
    }
}

/// The query of a fetch: offset, watermark and batch size in decimal, and
/// the fixed order of the elements. A fetch of collections names no
/// watermark.
pub open spec fn batch_pairs(target: BatchTarget, request: BatchRequest) -> Seq<
    (Seq<char>, Seq<char>),
> {
    let start = seq![("start"@, decimal(request.start as nat))];
    let since = if target == BatchTarget::Collections {
        Seq::empty()
    } else {
        seq![("since"@, decimal(request.since as nat))]
    };
    let rest = seq![
        ("limit"@, decimal(request.limit as nat)),
        ("sort"@, BATCH_SORT@),
        ("direction"@, BATCH_DIRECTION@),
    ];
    start + since + rest
}

/// One step of an iteration.
#[derive(Debug)]
pub enum BatchStep {
    /// The next element.
    Yield(Value),
    /// The buffer is empty: this batch has to be fetched and handed over.
    Fetch(BatchRequest),
    /// The iteration is over.
    Done,
}

/// What became of a batch that was handed over.
pub enum BatchVerdict {
    /// It is buffered.
    Loaded,
    /// It is empty: the iteration is over.
    Finished,
    /// The fetch had failed with this error.
    Failed(ZoteroError),
    /// The response is no array.
    NotABatch,
    /// Its elements would lie beyond the largest offset.
    OffsetOverflow,
}

/// The state of a batcher as contracts see it.
pub struct BatchCursor {
    /// The watermark: fixed when the iteration starts.
    pub since: nat,
    /// The offset of the next element to hand out.
    pub start: nat,
    /// The size of a batch.
    pub limit: nat,
    /// The elements fetched and not yet handed out, in order.
    pub buffered: Seq<Value>,
    /// Whether the iteration has met its end or a failure.
    pub exhausted: bool,
}

impl BatchCursor {
    /// The state in which an iteration starts.
    pub open spec fn start(since: nat, limit: nat) -> BatchCursor {
        BatchCursor { since, start: 0, limit, buffered: Seq::empty(), exhausted: false }
    }

    /// What the next fetch asks for.
    pub open spec fn request(self) -> BatchRequest {
        BatchRequest {
            start: self.start as usize,
            since: self.since as usize,
            limit: self.limit as usize,
        }
    }

    /// What a step hands out.
    pub open spec fn next_step(self) -> BatchStep {
        if self.buffered.len() > 0 {
            BatchStep::Yield(self.buffered[0])
        } else if self.exhausted {
            BatchStep::Done
        } else {
            BatchStep::Fetch(self.request())
        }
    }

    /// The state after a step: an element that was handed out has left the
    /// buffer and moved the offset on by one.
    pub open spec fn after_step(self) -> BatchCursor {
        if self.buffered.len() > 0 {
            BatchCursor { start: self.start + 1, buffered: self.buffered.drop_first(), ..self }
        } else {
            self
        }
    }

    /// What becomes of a batch: `response` is the failure of the fetch, or
    /// the elements that it brought, `None` where it brought no array.
    pub open spec fn verdict(self, response: Result<Option<Seq<Value>>, ZoteroError>)
        -> BatchVerdict {
        match response {
            Err(e) => BatchVerdict::Failed(e),
            Ok(None) => BatchVerdict::NotABatch,
            Ok(Some(items)) => if items.len() == 0 {
                BatchVerdict::Finished
            } else if self.start + items.len() > usize::MAX {
                BatchVerdict::OffsetOverflow
            } else {
                BatchVerdict::Loaded
            },
        }
    }

    /// The state after a batch was handed over: a batch that is loaded takes
    /// the place of the buffer, anything else ends the iteration.
    pub open spec fn after_batch(self, response: Result<Option<Seq<Value>>, ZoteroError>)
        -> BatchCursor {
        match self.verdict(response) {
            BatchVerdict::Loaded => BatchCursor { buffered: response->Ok_0->Some_0, ..self },
            _ => BatchCursor { buffered: Seq::empty(), exhausted: true, ..self },
        }
    }

    /// What holds of every state that a batcher reaches: the buffered
    /// elements have offsets within the machine's range.
    pub open spec fn in_range(self) -> bool {
        &&& self.start + self.buffered.len() <= usize::MAX
        &&& self.since <= usize::MAX
        &&& self.limit <= usize::MAX
    }
}


/// The elements of the array that the JSON document `document` is, as
/// `serde_json::Value::as_array` gives them; `None` where it is no array.
pub uninterp spec fn json_items(document: Value) -> Option<Seq<Value>>;

/// Calls `serde_json::Value::as_array` and copies what it gives: the
/// elements that [`json_items`] names, and `None` exactly where the document
/// is no array.
#[verifier::external_body]
fn array_items(document: &Value) -> (r: Option<Vec<Value>>)
    ensures
        r is Some <==> json_items(*document) is Some,
        r matches Some(items) ==> json_items(*document) == Some(items@),
{
    document.as_array().cloned()
}

/// The elements that a fetch brought: those of the array that the payload
/// is, `None` where the payload is no array, or the failure of the fetch.
pub open spec fn fetched_items(fetched: Result<Payload, ZoteroError>) -> Result<
    Option<Seq<Value>>,
    ZoteroError,
> {
    match fetched {
        Ok(Payload::Json(document)) => Ok(json_items(document)),
        Ok(Payload::Text(_)) => Ok(None),
        Err(e) => Err(e),
    }
}

/// A batch as contracts see it: its elements as a sequence.
pub open spec fn batch_view(response: Result<Option<Vec<Value>>, ZoteroError>) -> Result<
    Option<Seq<Value>>,
    ZoteroError,
> {
    match response {
        Ok(Some(items)) => Ok(Some(items@)),
        Ok(None) => Ok(None),
        Err(e) => Err(e),
    }
}

/// Whether `r` is what a batcher answers to a batch with the verdict `verdict`.
pub open spec fn answers(r: Result<(), ZoteroBatchError>, verdict: BatchVerdict) -> bool {
    match verdict {
        BatchVerdict::Loaded => r is Ok,
        BatchVerdict::Finished => r matches Err(ZoteroBatchError::NoMoreItems),
        BatchVerdict::Failed(e) => r matches Err(ZoteroBatchError::FetchError(f)) && f == e,
        BatchVerdict::NotABatch => r matches Err(
            ZoteroBatchError::FetchError(ZoteroError::HttpRequestError(message)),
        ) && message@ == NOT_A_BATCH@,
        BatchVerdict::OffsetOverflow => r matches Err(
            ZoteroBatchError::FetchError(ZoteroError::HttpRequestError(message)),
        ) && message@ == OFFSET_OVERFLOW@,
    }
}

/// The elements of `items` in reverse order.
fn reversed(items: Vec<Value>) -> (r: Vec<Value>)
    ensures
        r@ == items@.reverse(),
{
    let ghost given = items@;
    let mut items = items;
    let mut r: Vec<Value> = Vec::new();
    while items.len() > 0
        invariant
            items@ == given.take(items@.len() as int),
            items@.len() <= given.len(),
            r@.len() + items@.len() == given.len(),
            forall|i: int| 0 <= i < r@.len() ==> r@[i] == given[given.len() - 1 - i],
        decreases items@.len(),
    {
        let ghost n = items@.len();
        let last = items.pop();
        assert(items@ =~= given.take(n - 1));
        match last {
            Some(item) => {
                r.push(item);
            },
            None => {},
        }
    }
    assert(r@ =~= given.reverse());
    r
}

/// Hands out the elements of a paginated collection one by one. It does not
/// fetch: a step says which batch is needed, and the batch is handed over.
#[derive(Debug)]
pub struct ZoteroItemsBatcher {
    since: usize,
    start: usize,
    limit: usize,
    /// The buffered elements, last first.
    stack: Vec<Value>,
    exhausted: bool,
}

impl View for ZoteroItemsBatcher {
    type V = BatchCursor;

    closed spec fn view(&self) -> BatchCursor {
        BatchCursor {
            since: self.since as nat,
            start: self.start as nat,
            limit: self.limit as nat,
            buffered: self.stack@.reverse(),
            exhausted: self.exhausted,
        }
    }
}

impl ZoteroItemsBatcher {
    #[verifier::type_invariant]
    spec fn well_formed(self) -> bool {
        self.start + self.stack@.len() <= usize::MAX
    }

    /// A batcher at the start of the collection, for batches of `batch_size`
    /// elements whose version is above `since`.
    pub fn new(since: usize, batch_size: usize) -> (b: ZoteroItemsBatcher)
        ensures
            b@ == BatchCursor::start(since as nat, batch_size as nat),
            b@.in_range(),
    {
        let b = ZoteroItemsBatcher {
            since,
            start: 0,
            limit: batch_size,
            stack: Vec::new(),
            exhausted: false,
        };
        assert(b.stack@.reverse() =~= Seq::<Value>::empty());
        b
    }

    /// What the next fetch asks for.
    pub fn request(&self) -> (r: BatchRequest)
        ensures
            r == self@.request(),
            r.start == self@.start,
            r.since == self@.since,
            r.limit == self@.limit,
    {
        BatchRequest { start: self.start, since: self.since, limit: self.limit }
    }

    /// Takes one step: hands out the next buffered element, or asks for the
    /// next batch, or says that the iteration is over.
    pub fn next(&mut self) -> (step: BatchStep)
        ensures
            step == old(self)@.next_step(),
            final(self)@ == old(self)@.after_step(),
            final(self)@.in_range(),
    {
        proof {
            use_type_invariant(&*self);
        }
        let ghost before = self.stack@;
        if self.stack.len() > 0 {
            let mut stack: Vec<Value> = Vec::new();
            std::mem::swap(&mut stack, &mut self.stack);
            let top = stack.pop();
            assert(stack@.reverse() =~= before.reverse().drop_first());
            assert(before.reverse()[0] == before[before.len() - 1]);
            let start: usize = self.start + 1;
            *self = ZoteroItemsBatcher {
                since: self.since,
                start,
                limit: self.limit,
                stack,
                exhausted: self.exhausted,
            };
            match top {
                Some(item) => BatchStep::Yield(item),
                None => BatchStep::Done,
            }
        } else {
            assert(before.reverse().len() == 0);
            if self.exhausted {
                BatchStep::Done
            } else {
                BatchStep::Fetch(self.request())
            }
        }
    }

    /// Takes the batch that was asked for: `response` holds the failure of
    /// the fetch, or the elements that it brought, `None` where it brought no
    /// array. A batch that is empty ends the iteration, and so does any
    /// failure.
    pub fn accept_batch(&mut self, response: Result<Option<Vec<Value>>, ZoteroError>) -> (r:
        Result<(), ZoteroBatchError>)
        ensures
            final(self)@ == old(self)@.after_batch(batch_view(response)),
            answers(r, old(self)@.verdict(batch_view(response))),
            final(self)@.in_range(),
    {
        proof {
            use_type_invariant(&*self);
        }
        let loaded: Result<Vec<Value>, ZoteroBatchError> = match response {
            Err(e) => Err(ZoteroBatchError::FetchError(e)),
            Ok(None) => Err(
                ZoteroBatchError::FetchError(
                    ZoteroError::HttpRequestError(String::from_str(NOT_A_BATCH)),
                ),
            ),
            Ok(Some(items)) => {
                if items.len() == 0 {
                    Err(ZoteroBatchError::NoMoreItems)
                } else if items.len() > usize::MAX - self.start {
                    Err(
                        ZoteroBatchError::FetchError(
                            ZoteroError::HttpRequestError(String::from_str(OFFSET_OVERFLOW)),
                        ),
                    )
                } else {
                    Ok(items)
                }
            },
        };
        match loaded {
            Ok(items) => {
                let ghost elements = items@;
                let stack = reversed(items);
                assert(stack@.reverse() =~= elements);
                *self = ZoteroItemsBatcher {
                    since: self.since,
                    start: self.start,
                    limit: self.limit,
                    stack,
                    exhausted: self.exhausted,
                };
                Ok(())
            },
            Err(e) => {
                let stack: Vec<Value> = Vec::new();
                assert(stack@.reverse() =~= Seq::<Value>::empty());
                *self = ZoteroItemsBatcher {
                    since: self.since,
                    start: self.start,
                    limit: self.limit,
                    stack,
                    exhausted: true,
                };
                Err(e)
            },
        }
    }

    /// Takes the outcome of the fetch that was asked for. The payload has to
    /// be a JSON array: its elements are the batch.
    pub fn fetch_next_batch(&mut self, fetched: Result<Payload, ZoteroError>) -> (r: Result<
        (),
        ZoteroBatchError,
    >)
        ensures
            final(self)@ == old(self)@.after_batch(fetched_items(fetched)),
            answers(r, old(self)@.verdict(fetched_items(fetched))),
            final(self)@.in_range(),
    {
        let response: Result<Option<Vec<Value>>, ZoteroError> = match fetched {
            Ok(Payload::Json(document)) => Ok(array_items(&document)),
            Ok(Payload::Text(_)) => Ok(None),
            Err(e) => Err(e),
        };
        self.accept_batch(response)
    }
}


/// The batch that a collection which does not change answers with: up to
/// `limit` of its elements from offset `start` on.
pub open spec fn page(collection: Seq<Value>, start: nat, limit: nat) -> Seq<Value> {
    if start >= collection.len() {
        Seq::empty()
    } else if start + limit >= collection.len() {
        collection.skip(start as int)
    } else {
        collection.subrange(start as int, (start + limit) as int)
    }
}

/// A bound on the fetches that an iteration over a collection of `len`
/// elements still makes.
pub open spec fn fetches_left(c: BatchCursor, len: nat) -> nat {
    if c.exhausted {
        0
    } else if c.start + c.buffered.len() < len {
        (len - c.start - c.buffered.len() + 1) as nat
    } else {
        1
    }
}

/// The elements that an iteration hands out from the state `c` on, when every
/// batch that it asks for is served from `collection`.
pub open spec fn drained(c: BatchCursor, collection: Seq<Value>) -> Seq<Value>
    decreases fetches_left(c, collection.len()), c.buffered.len(),
{
    match c.next_step() {
        BatchStep::Yield(item) => seq![item] + drained(c.after_step(), collection),
        BatchStep::Done => Seq::empty(),
        BatchStep::Fetch(_) => {
            let response = Ok::<Option<Seq<Value>>, ZoteroError>(
                Some(page(collection, c.start, c.limit)),
            );
            if c.verdict(response) is Loaded {
                drained(c.after_batch(response), collection)
            } else {
                Seq::empty()
            }
        },
    }
}

proof fn lemma_drains_the_rest(c: BatchCursor, collection: Seq<Value>)
    requires
        !c.exhausted,
        c.limit > 0,
        collection.len() <= usize::MAX,
        c.start + c.buffered.len() <= collection.len(),
        c.buffered == collection.subrange(
            c.start as int,
            (c.start + c.buffered.len()) as int,
        ),
    ensures
        drained(c, collection) == collection.skip(c.start as int),
    decreases fetches_left(c, collection.len()), c.buffered.len(),
{
    if c.buffered.len() > 0 {
        let next = c.after_step();
        assert(next.buffered =~= collection.subrange(
            next.start as int,
            (next.start + next.buffered.len()) as int,
        ));
        lemma_drains_the_rest(next, collection);
        assert(seq![c.buffered[0]] + collection.skip(next.start as int) =~= collection.skip(
            c.start as int,
        ));
    } else {
        let batch = page(collection, c.start, c.limit);
        let response = Ok::<Option<Seq<Value>>, ZoteroError>(Some(batch));
        if c.start >= collection.len() {
            assert(collection.skip(c.start as int) =~= Seq::<Value>::empty());
        } else {
            let next = c.after_batch(response);
            assert(c.verdict(response) is Loaded);
            assert(next.buffered =~= collection.subrange(
                next.start as int,
                (next.start + next.buffered.len()) as int,
            ));
            lemma_drains_the_rest(next, collection);
        }
    }
}

/// An iteration over a collection that does not change hands out every
/// element of the collection, once and in the collection's order, whatever
/// the size of a batch, as long as a batch has room for an element.
pub proof fn lemma_yields_the_collection(since: nat, limit: nat, collection: Seq<Value>)
    requires
        limit > 0,
        collection.len() <= usize::MAX,
    ensures
        drained(BatchCursor::start(since, limit), collection) == collection,
{
    let c = BatchCursor::start(since, limit);
    assert(c.buffered =~= collection.subrange(0, 0));
    lemma_drains_the_rest(c, collection);
    assert(collection.skip(0) =~= collection);
}

/// With batches that have no room for an element, an iteration hands out
/// nothing.
pub proof fn lemma_empty_batches_yield_nothing(since: nat, collection: Seq<Value>)
    ensures
        drained(BatchCursor::start(since, 0), collection) == Seq::<Value>::empty(),
{
    let c = BatchCursor::start(since, 0);
    assert(page(collection, 0, 0) =~= Seq::<Value>::empty());
}

/// Two iterations that start with the same watermark and the same batch size
/// over the same collection hand out the same elements in the same order.
pub proof fn lemma_same_start_same_elements(
    since_a: nat,
    limit_a: nat,
    since_b: nat,
    limit_b: nat,
    collection: Seq<Value>,
)
    requires
        since_a == since_b,
        limit_a == limit_b,
    ensures
        drained(BatchCursor::start(since_a, limit_a), collection) == drained(
            BatchCursor::start(since_b, limit_b),
            collection,
        ),
{
}

/// Neither a step nor a batch changes the watermark or the batch size.
pub proof fn lemma_watermark_is_fixed(
    c: BatchCursor,
    response: Result<Option<Seq<Value>>, ZoteroError>,
)
    ensures
        c.after_step().since == c.since,
        c.after_step().limit == c.limit,
        c.after_batch(response).since == c.since,
        c.after_batch(response).limit == c.limit,
        c.after_batch(response).start == c.start,
        c.next_step() is Yield ==> c.after_step().start == c.start + 1,
        !(c.next_step() is Yield) ==> c.after_step() == c,
{
}

} // verus!
