//! Correlates in-flight queries with their answers.
//!
//! A query is registered under a 256-bit identifier before it is sent. The
//! party that receives answers resolves the identifier with the answer's
//! bytes, or with nothing when the query timed out, and the party that sent
//! the query collects the outcome through the handle it got at registration.
//! The two meet at a barrier made for that one query: [`QueriesCache::update_query`]
//! hands the barrier out for the resolver to signal, and the waiter parks on
//! [`PendingAdnlQuery::barrier`] before it calls [`PendingAdnlQuery::wait`].
//!
//! Every operation that changes the cache takes it by `&mut`, so one call is
//! one step: the contracts say what the cache holds after each step, and
//! [`lifecycle`] says what follows for whole exchanges. Tasks that share a
//! cache keep it behind a lock that they hold for one call at a time, and
//! meet at the barrier outside of it.

use std::sync::Arc;
use tokio::sync::Barrier;
use vstd::prelude::*;
use vstd::slice::slice_to_vec;

pub mod lifecycle;
pub mod table;

use table::{table_entries, table_insert, table_new, table_remove};

verus! {

/// What can go wrong while a query is resolved or waited for.
#[derive(Debug, Clone, Copy, PartialEq, Eq, Structural)]
pub enum QueriesCacheError {
    /// The cache was torn down while a handle was still waiting.
    CacheDropped,
    /// A handle found its entry still awaiting an answer after it was woken.
    InvalidQueryState,
    /// A handle found no entry under its identifier.
    UnknownId,
    /// An answer arrived for a query that already had one.
    UnexpectedState,
}

impl QueriesCacheError {
    /// The text of each error.
    pub open spec fn spec_message(self) -> Seq<char> {
        match self {
            QueriesCacheError::CacheDropped => "queries cache was dropped"@,
            QueriesCacheError::InvalidQueryState => "invalid query state"@,
            QueriesCacheError::UnknownId => "unknown query id"@,
            QueriesCacheError::UnexpectedState => "unexpected query state"@,
        }
    }

    /// Describes the error in words.
    pub fn message(&self) -> (text: &'static str)
        ensures
            text@ == self.spec_message(),
    {
        match self {
            QueriesCacheError::CacheDropped => "queries cache was dropped",
            QueriesCacheError::InvalidQueryState => "invalid query state",
            QueriesCacheError::UnknownId => "unknown query id",
            QueriesCacheError::UnexpectedState => "unexpected query state",
        }
    }
}

/// The state of one registered query.
pub enum QueryState {
    /// The query was sent and has no outcome yet. The barrier is where the
    /// resolver and the waiter meet once it has one.
    Sent(Arc<Barrier>),
    /// The query was answered with these bytes.
    Received(Vec<u8>),
    /// The query timed out.
    Timeout,
}

/// A [`QueryState`] as contracts see it: the answer is a sequence of bytes.
pub enum QueryStateView {
    /// The query has no outcome yet, and this is its barrier.
    Sent(Arc<Barrier>),
    /// The query was answered with these bytes.
    Received(Seq<u8>),
    /// The query timed out.
    Timeout,
}

impl View for QueryState {
    type V = QueryStateView;

    open spec fn view(&self) -> QueryStateView {
        match self {
            QueryState::Sent(barrier) => QueryStateView::Sent(*barrier),
            QueryState::Received(answer) => QueryStateView::Received(answer@),
            QueryState::Timeout => QueryStateView::Timeout,
        }
    }
}

impl QueryStateView {
    /// Whether the query has its outcome: no further answer is accepted.
    pub open spec fn is_terminal(self) -> bool {
        !(self is Sent)
    }
}

/// The terminal state that an answer, or its absence, leaves behind.
pub open spec fn outcome_state(answer: Option<Seq<u8>>) -> QueryStateView {
    match answer {
        Some(bytes) => QueryStateView::Received(bytes),
        None => QueryStateView::Timeout,
    }
}

/// The entries after a query was registered under `id` with `barrier`. An entry
/// that was there before is replaced.
pub open spec fn registered(
    entries: Map<Seq<u8>, QueryStateView>,
    id: Seq<u8>,
    barrier: Arc<Barrier>,
) -> Map<Seq<u8>, QueryStateView> {
    entries.insert(id, QueryStateView::Sent(barrier))
}

/// The entries after `id` was resolved with `answer`: a query that was
/// awaiting its outcome has it now, and nothing else changes.
pub open spec fn resolved(
    entries: Map<Seq<u8>, QueryStateView>,
    id: Seq<u8>,
    answer: Option<Seq<u8>>,
) -> Map<Seq<u8>, QueryStateView> {
    if entries.contains_key(id) && entries[id] is Sent {
        entries.insert(id, outcome_state(answer))
    } else {
        entries
    }
}

/// What resolving `id` reports: the barrier to signal when the query was
/// awaiting its outcome, nothing when no query is registered under `id`, and
/// an error when the query already has its outcome.
pub open spec fn resolution(entries: Map<Seq<u8>, QueryStateView>, id: Seq<u8>) -> Result<
    Option<Arc<Barrier>>,
    QueriesCacheError,
> {
    match entries.get(id) {
        None => Ok(None),
        Some(QueryStateView::Sent(barrier)) => Ok(Some(barrier)),
        Some(_) => Err(QueriesCacheError::UnexpectedState),
    }
}

/// What the waiter of `id` collects from the entries: the answer's bytes,
/// nothing after a timeout, and an error when the entry is missing or has no
/// outcome yet.
pub open spec fn collected(entries: Map<Seq<u8>, QueryStateView>, id: Seq<u8>) -> Result<
    Option<Seq<u8>>,
    QueriesCacheError,
> {
    match entries.get(id) {
        Some(QueryStateView::Received(answer)) => Ok(Some(answer)),
        Some(QueryStateView::Timeout) => Ok(None),
        Some(QueryStateView::Sent(_)) => Err(QueriesCacheError::InvalidQueryState),
        None => Err(QueriesCacheError::UnknownId),
    }
}

/// The entries after the handle of `id` took its entry away.
pub open spec fn released(entries: Map<Seq<u8>, QueryStateView>, id: Seq<u8>) -> Map<
    Seq<u8>,
    QueryStateView,
> {
    entries.remove(id)
}

/// The bytes of an optional answer.
pub open spec fn answer_bytes(answer: Option<&[u8]>) -> Option<Seq<u8>> {
    match answer {
        Some(bytes) => Some(bytes@),
        None => None,
    }
}

/// What a waiter got, with the answer as a sequence of bytes.
pub open spec fn waited(
    outcome: Result<Option<Vec<u8>>, QueriesCacheError>,
) -> Result<Option<Seq<u8>>, QueriesCacheError> {
    match outcome {
        Ok(Some(answer)) => Ok(Some(answer@)),
        Ok(None) => Ok(None),
        Err(error) => Err(error),
    }
}

/// The registry of in-flight queries.
pub struct QueriesCache {
    queries: dashmap::DashMap<[u8; 32], QueryState>,
}

impl View for QueriesCache {
    type V = Map<Seq<u8>, QueryStateView>;

    /// The state of each registered query, by the bytes of its identifier.
    closed spec fn view(&self) -> Map<Seq<u8>, QueryStateView> {
        table_entries(self.queries).map_values(|state: QueryState| state@)
    }
}

impl Default for QueriesCache {
    /// A cache with no query registered.
    fn default() -> (cache: Self)
        ensures
            cache@ == Map::<Seq<u8>, QueryStateView>::empty(),
    {
        QueriesCache { queries: table_new() }
    }
}

impl QueriesCache {
    /// Registers a query under `query_id` and returns its handle. The entry
    /// starts out awaiting its outcome, with a barrier made for this query alone
    /// and shared with the handle. The caller passes an identifier that is not
    /// registered at the moment; one that is has its entry replaced.
    pub fn add_query(&mut self, query_id: [u8; 32]) -> (pending: PendingAdnlQuery)
        ensures
            pending@.query_id == query_id@,
            final(self)@ == registered(old(self)@, query_id@, pending@.barrier),
    {
        let barrier = Arc::new(Barrier::new(2));
        let query = QueryState::Sent(barrier.clone());
        self.store(query_id, query);
        PendingAdnlQuery { query_id, barrier }
    }

    /// Resolves `query_id` with the bytes of its answer, or with `None` when
    /// it timed out.
    ///
    /// Where the query was awaiting its outcome it has it now, and the barrier
    /// comes back: the caller signals it once it has let go of the cache, and
    /// then reports the query as resolved. `Ok(None)` says that no query is
    /// registered under `query_id`, which is what a late or repeated answer
    /// finds after the waiter is gone. A query that already has its outcome
    /// keeps it, and the call fails with `UnexpectedState`.
    pub fn update_query(&mut self, query_id: [u8; 32], answer: Option<&[u8]>) -> (signal: Result<
        Option<Arc<Barrier>>,
        QueriesCacheError,
    >)
        ensures
            final(self)@ == resolved(old(self)@, query_id@, answer_bytes(answer)),
            signal == resolution(old(self)@, query_id@),
    {
        match self.take(&query_id) {
            None => Ok(None),
            Some(QueryState::Sent(barrier)) => {
                let outcome = match answer {
                    Some(bytes) => QueryState::Received(slice_to_vec(bytes)),
                    None => QueryState::Timeout,
                };
                self.store(query_id, outcome);
                Ok(Some(barrier))
            },
            Some(state) => {
                self.store(query_id, state);
                Err(QueriesCacheError::UnexpectedState)
            },
        }
    }

    /// Stores `state` under `query_id`.
    fn store(&mut self, query_id: [u8; 32], state: QueryState)
        ensures
            final(self)@ == old(self)@.insert(query_id@, state@),
    {
        table_insert(&mut self.queries, query_id, state);
    }

    /// Takes the entry of `query_id` out of the cache.
    fn take(&mut self, query_id: &[u8; 32]) -> (state: Option<QueryState>)
        ensures
            final(self)@ == old(self)@.remove(query_id@),
            match state {
                Some(state) => old(self)@.get(query_id@) == Some(state@),
                None => !old(self)@.contains_key(query_id@),
            },
    {
        let entry = table_remove(&mut self.queries, query_id);
        match entry {
            Some((_, state)) => Some(state),
            None => None,
        }
    }
}

/// The handle of one registered query, owned by the party that sent it.
pub struct PendingAdnlQuery {
    query_id: [u8; 32],
    barrier: Arc<Barrier>,
}

/// A [`PendingAdnlQuery`] as contracts see it.
pub struct PendingAdnlQueryView {
    /// The bytes of the identifier that the query is registered under.
    pub query_id: Seq<u8>,
    /// The barrier that the query was registered with.
    pub barrier: Arc<Barrier>,
}

impl View for PendingAdnlQuery {
    type V = PendingAdnlQueryView;

    closed spec fn view(&self) -> PendingAdnlQueryView {
        PendingAdnlQueryView { query_id: self.query_id@, barrier: self.barrier }
    }
}

impl PendingAdnlQuery {
    /// The barrier to park on before [`wait`](Self::wait) is called: it opens
    /// once the resolver has stored the outcome and arrived at it too.
    pub fn barrier(&self) -> (barrier: &Arc<Barrier>)
        ensures
            *barrier == self@.barrier,
    {
        &self.barrier
    }

    /// Collects the outcome of the query once its barrier has opened: the bytes
    /// of the answer, or `None` after a timeout.
    ///
    /// `cache` is the cache that the query was registered in, or `None` when
    /// that cache is gone, in which case the call fails with `CacheDropped`.
    /// Otherwise the entry of the query leaves the cache, whatever it holds.
    /// An entry without an outcome fails with `InvalidQueryState`, and a
    /// missing one with `UnknownId`.
    pub fn wait(self, cache: Option<&mut QueriesCache>) -> (outcome: Result<
        Option<Vec<u8>>,
        QueriesCacheError,
    >)
        ensures
            cache is None ==> outcome == Err::<Option<Vec<u8>>, _>(QueriesCacheError::CacheDropped),
            cache matches Some(registry) ==> {
                &&& final(registry)@ == released((*registry)@, self@.query_id)
                &&& waited(outcome) == collected((*registry)@, self@.query_id)
            },
    {
        match cache {
            None => Err(QueriesCacheError::CacheDropped),
            Some(cache) => match cache.take(&self.query_id) {
                Some(QueryState::Received(answer)) => Ok(Some(answer)),
                Some(QueryState::Timeout) => Ok(None),
                Some(QueryState::Sent(_)) => Err(QueriesCacheError::InvalidQueryState),
                None => Err(QueriesCacheError::UnknownId),
            },
        }
    }

    /// Gives the query up without waiting for its outcome: its entry leaves
    /// `cache`, whatever it holds, and the barrier is not signalled. A cache
    /// that is gone has nothing to clean up.
    pub fn cancel(self, cache: Option<&mut QueriesCache>)
        ensures
            cache matches Some(registry) ==> final(registry)@ == released(
                (*registry)@,
                self@.query_id,
            ),
    {
        if let Some(cache) = cache {
            cache.take(&self.query_id);
        }
    }
}

} // verus!
