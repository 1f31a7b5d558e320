//! What holds of a query over its whole life, from registration to the
//! moment its entry leaves the cache.
//!
//! The life of one query is `Sent`, then `Received` or `Timeout`, then gone;
//! or `Sent`, then gone, when its handle gives up. The statements here are
//! about the entries that the operations of the cache leave behind, so they
//! hold of every cache and of every order in which its operations are called.

use std::sync::Arc;
use tokio::sync::Barrier;
use vstd::prelude::*;

use super::{
    collected, outcome_state, registered, released, resolution, resolved, QueriesCacheError,
    QueryStateView,
};

verus! {

/// An answer reaches the waiter byte for byte: when a query is registered
/// under an identifier that was free, and resolved with `payload`, the
/// resolver gets the barrier of that registration, the waiter collects
/// `payload`, and the entries are afterwards what they were before.
pub proof fn lemma_answer_reaches_waiter(
    entries: Map<Seq<u8>, QueryStateView>,
    id: Seq<u8>,
    barrier: Arc<Barrier>,
    payload: Seq<u8>,
)
    requires
        !entries.contains_key(id),
    ensures
        ({
            let sent = registered(entries, id, barrier);
            let answered = resolved(sent, id, Some(payload));
            &&& resolution(sent, id) == Ok::<_, QueriesCacheError>(Some(barrier))
            &&& collected(answered, id) == Ok::<_, QueriesCacheError>(Some(payload))
            &&& released(answered, id) == entries
        }),
{
}

/// A timeout reaches the waiter as the absence of an answer: when a query is
/// registered under an identifier that was free, and resolved with nothing,
/// the waiter collects `None`, and the entries are afterwards what they were
/// before.
pub proof fn lemma_timeout_reaches_waiter(
    entries: Map<Seq<u8>, QueryStateView>,
    id: Seq<u8>,
    barrier: Arc<Barrier>,
)
    requires
        !entries.contains_key(id),
    ensures
        ({
            let sent = registered(entries, id, barrier);
            let expired = resolved(sent, id, None);
            &&& resolution(sent, id) == Ok::<_, QueriesCacheError>(Some(barrier))
            &&& collected(expired, id) == Ok::<Option<Seq<u8>>, QueriesCacheError>(None)
            &&& released(expired, id) == entries
        }),
{
}

/// Resolving an identifier that is not registered reports nothing to signal
/// and changes nothing, whatever the answer.
pub proof fn lemma_unknown_id_resolves_to_nothing(
    entries: Map<Seq<u8>, QueryStateView>,
    id: Seq<u8>,
    answer: Option<Seq<u8>>,
)
    requires
        !entries.contains_key(id),
    ensures
        resolution(entries, id) == Ok::<Option<Arc<Barrier>>, QueriesCacheError>(None),
        resolved(entries, id, answer) == entries,
{
}

/// Once the handle of a query took its entry away, by waiting or by giving
/// up, the identifier is not registered: an answer that comes late finds
/// nothing to signal and changes nothing.
pub proof fn lemma_released_id_is_unknown(
    entries: Map<Seq<u8>, QueryStateView>,
    id: Seq<u8>,
    answer: Option<Seq<u8>>,
)
    ensures
        !released(entries, id).contains_key(id),
        resolution(released(entries, id), id) == Ok::<Option<Arc<Barrier>>, QueriesCacheError>(
            None,
        ),
        resolved(released(entries, id), id, answer) == released(entries, id),
{
}

/// A handle that gives up before any answer leaves the entries as they were
/// before its registration, when its identifier was free then.
pub proof fn lemma_cancelled_query_leaves_no_trace(
    entries: Map<Seq<u8>, QueryStateView>,
    id: Seq<u8>,
    barrier: Arc<Barrier>,
)
    requires
        !entries.contains_key(id),
    ensures
        released(registered(entries, id, barrier), id) == entries,
{
}

/// A query gets its outcome at most once: of two answers for a query that
/// awaits its outcome, the first is accepted and the second is refused with
/// `UnexpectedState`, changes nothing, and leaves the waiter with the first.
pub proof fn lemma_second_answer_is_refused(
    entries: Map<Seq<u8>, QueryStateView>,
    id: Seq<u8>,
    first: Option<Seq<u8>>,
    second: Option<Seq<u8>>,
)
    requires
        entries.contains_key(id),
        entries[id] is Sent,
    ensures
        ({
            let once = resolved(entries, id, first);
            let twice = resolved(once, id, second);
            &&& resolution(entries, id) == Ok::<_, QueriesCacheError>(Some(entries[id]->Sent_0))
            &&& resolution(once, id) == Err::<Option<Arc<Barrier>>, _>(
                QueriesCacheError::UnexpectedState,
            )
            &&& twice == once
            &&& collected(twice, id) == Ok::<_, QueriesCacheError>(first)
        }),
{
}

/// An outcome stays: resolving never changes an entry that is `Received` or
/// `Timeout`, and never turns any entry back to `Sent`.
pub proof fn lemma_outcome_is_final(
    entries: Map<Seq<u8>, QueryStateView>,
    id: Seq<u8>,
    answer: Option<Seq<u8>>,
)
    requires
        entries.contains_key(id),
    ensures
        resolved(entries, id, answer).contains_key(id),
        resolved(entries, id, answer)[id].is_terminal(),
        entries[id].is_terminal() ==> resolved(entries, id, answer) == entries,
        !entries[id].is_terminal() ==> resolved(entries, id, answer)[id] == outcome_state(answer),
{
}

/// Entries come by registration and go with their handles alone: resolving
/// neither adds an identifier nor takes one away.
pub proof fn lemma_resolving_keeps_identifiers(
    entries: Map<Seq<u8>, QueryStateView>,
    id: Seq<u8>,
    answer: Option<Seq<u8>>,
)
    ensures
        resolved(entries, id, answer).dom() == entries.dom(),
{
}

/// One call on the cache, as the entries see it.
pub enum Step {
    /// `add_query` under `id`, which made `barrier`.
    Register { id: Seq<u8>, barrier: Arc<Barrier> },
    /// `update_query` of `id` with `answer`.
    Resolve { id: Seq<u8>, answer: Option<Seq<u8>> },
    /// `wait` on the handle of `id`.
    Wait { id: Seq<u8> },
    /// `cancel` on the handle of `id`.
    Cancel { id: Seq<u8> },
}

impl Step {
    /// The identifier that the call is about.
    pub open spec fn id(self) -> Seq<u8> {
        match self {
            Step::Register { id, .. } => id,
            Step::Resolve { id, .. } => id,
            Step::Wait { id } => id,
            Step::Cancel { id } => id,
        }
    }

    /// The entries that the call leaves behind.
    pub open spec fn apply(self, entries: Map<Seq<u8>, QueryStateView>) -> Map<
        Seq<u8>,
        QueryStateView,
    > {
        match self {
            Step::Register { id, barrier } => registered(entries, id, barrier),
            Step::Resolve { id, answer } => resolved(entries, id, answer),
            Step::Wait { id } => released(entries, id),
            Step::Cancel { id } => released(entries, id),
        }
    }
}

/// The entries after the calls of `steps` were made one after another,
/// starting from `entries`.
pub open spec fn run(entries: Map<Seq<u8>, QueryStateView>, steps: Seq<Step>) -> Map<
    Seq<u8>,
    QueryStateView,
>
    decreases steps.len(),
{
    if steps.len() == 0 {
        entries
    } else {
        steps.last().apply(run(entries, steps.drop_last()))
    }
}

/// A call about one identifier leaves the entry of every other identifier as
/// it was.
pub proof fn lemma_step_keeps_other_entries(
    entries: Map<Seq<u8>, QueryStateView>,
    step: Step,
    other: Seq<u8>,
)
    requires
        step.id() != other,
    ensures
        step.apply(entries).get(other) == entries.get(other),
{
}

/// Calls about other identifiers, however many and in whatever order, leave
/// the entry of `id` as it was: between the calls `from` and `to` of `steps`
/// none is about `id`, so the entry of `id` is the same before both.
pub proof fn lemma_steps_keep_other_entries(
    entries: Map<Seq<u8>, QueryStateView>,
    steps: Seq<Step>,
    id: Seq<u8>,
    from: int,
    to: int,
)
    requires
        0 <= from <= to <= steps.len(),
        forall|t: int| from <= t < to ==> (#[trigger] steps[t]).id() != id,
    ensures
        run(entries, steps.take(to)).get(id) == run(entries, steps.take(from)).get(id),
    decreases to - from,
{
    if from < to {
        lemma_steps_keep_other_entries(entries, steps, id, from, to - 1);
        assert(steps.take(to).drop_last() =~= steps.take(to - 1));
        lemma_step_keeps_other_entries(run(entries, steps.take(to - 1)), steps[to - 1], id);
    }
}

/// No answer is delivered to the wrong waiter. In any sequence of calls in
/// which a query is registered under `id`, later resolved, and later waited
/// for, with calls about other identifiers in between in any number and
/// order, the resolver gets the barrier of that registration and the waiter
/// collects the answer of that resolution: its bytes, or `None` for a
/// timeout.
pub proof fn lemma_no_cross_delivery(
    entries: Map<Seq<u8>, QueryStateView>,
    steps: Seq<Step>,
    id: Seq<u8>,
    barrier: Arc<Barrier>,
    answer: Option<Seq<u8>>,
    register: int,
    resolve: int,
    wait: int,
)
    requires
        0 <= register < resolve < wait < steps.len(),
        steps[register] == (Step::Register { id, barrier }),
        steps[resolve] == (Step::Resolve { id, answer }),
        steps[wait] == (Step::Wait { id }),
        forall|t: int| register < t < wait && t != resolve ==> (#[trigger] steps[t]).id() != id,
    ensures
        resolution(run(entries, steps.take(resolve)), id) == Ok::<_, QueriesCacheError>(
            Some(barrier),
        ),
        collected(run(entries, steps.take(wait)), id) == Ok::<_, QueriesCacheError>(answer),
        !run(entries, steps.take(wait + 1)).contains_key(id),
{
    lemma_steps_keep_other_entries(entries, steps, id, register + 1, resolve);
    assert(steps.take(resolve + 1).drop_last() =~= steps.take(resolve));
    lemma_steps_keep_other_entries(entries, steps, id, resolve + 1, wait);
}

} // verus!
