//! The sharded table that stores the entries and the barrier a waiter parks on.
//!
//! Everything in this file is trusted: Verus reads the contracts and not the
//! code of `dashmap` and `tokio` behind them.

use vstd::prelude::*;

use super::QueryState;

verus! {

/// `tokio::sync::Barrier`. Verus sees nothing inside a barrier: the cache only
/// creates one per query and hands it to the two parties that meet at it.
#[verifier::external_type_specification]
#[verifier::external_body]
pub struct ExBarrier(tokio::sync::Barrier);

/// `dashmap::DashMap`. Verus sees nothing inside a table: what it holds is
/// named by [`table_entries`].
#[verifier::external_type_specification]
#[verifier::external_body]
#[verifier::reject_recursive_types(K)]
#[verifier::reject_recursive_types(V)]
#[verifier::reject_recursive_types(S)]
pub struct ExDashMap<K, V, S>(dashmap::DashMap<K, V, S>);

/// `tokio::sync::Barrier::new`, which never fails. Nothing is claimed of the
/// barrier it returns.
pub assume_specification[ tokio::sync::Barrier::new ](n: usize) -> (barrier: tokio::sync::Barrier)
;

/// The entries of a table: the state stored under each identifier, keyed by
/// the identifier's bytes.
pub uninterp spec fn table_entries(table: dashmap::DashMap<[u8; 32], QueryState>) -> Map<
    Seq<u8>,
    QueryState,
>;

/// `DashMap::new`: the table it returns holds no entry.
#[verifier::external_body]
pub(crate) fn table_new() -> (table: dashmap::DashMap<[u8; 32], QueryState>)
    ensures
        table_entries(table) == (Map::<Seq<u8>, QueryState>::empty()),
{
    dashmap::DashMap::new()
}

/// `DashMap::insert`, called by the table's only holder: afterwards `state`
/// is stored under `id` and every other entry is as it was. The state that
/// was stored under `id` before, if there was one, is returned.
#[verifier::external_body]
pub(crate) fn table_insert(
    table: &mut dashmap::DashMap<[u8; 32], QueryState>,
    id: [u8; 32],
    state: QueryState,
) -> (prev: Option<QueryState>)
    ensures
        table_entries(*final(table)) == table_entries(*old(table)).insert(id@, state),
        prev == table_entries(*old(table)).get(id@),
{
    table.insert(id, state)
}

/// `DashMap::remove`, called by the table's only holder: afterwards nothing
/// is stored under `id` and every other entry is as it was. The entry that
/// was stored under `id` before, if there was one, is returned with its key.
#[verifier::external_body]
pub(crate) fn table_remove(table: &mut dashmap::DashMap<[u8; 32], QueryState>, id: &[u8; 32]) -> (entry:
    Option<([u8; 32], QueryState)>)
    ensures
        table_entries(*final(table)) == table_entries(*old(table)).remove(id@),
        match entry {
            Some((key, state)) => key@ == id@ && table_entries(*old(table)).get(id@) == Some(state),
            None => !table_entries(*old(table)).contains_key(id@),
        },
{
    table.remove(id)
}

} // verus!
