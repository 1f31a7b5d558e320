use std::sync::{Arc, Mutex};

use stever::node_rpc::tcp_adnl::queries_cache::{PendingAdnlQuery, QueriesCache, QueriesCacheError};

fn id(byte: u8) -> [u8; 32] {
    [byte; 32]
}

#[test]
fn answer_reaches_waiter_byte_for_byte() {
    let mut cache = QueriesCache::default();
    let pending = cache.add_query(id(7));
    let barrier = cache.update_query(id(7), Some(b"\x00\x01payload\xff")).unwrap();
    assert!(Arc::ptr_eq(&barrier.unwrap(), pending.barrier()));
    assert_eq!(pending.wait(Some(&mut cache)), Ok(Some(b"\x00\x01payload\xff".to_vec())));
}

#[test]
fn timeout_reaches_waiter_as_none() {
    let mut cache = QueriesCache::default();
    let pending = cache.add_query(id(7));
    assert!(cache.update_query(id(7), None).unwrap().is_some());
    assert_eq!(pending.wait(Some(&mut cache)), Ok(None));
}

#[test]
fn empty_answer_is_not_a_timeout() {
    let mut cache = QueriesCache::default();
    let pending = cache.add_query(id(1));
    assert!(cache.update_query(id(1), Some(b"")).unwrap().is_some());
    assert_eq!(pending.wait(Some(&mut cache)), Ok(Some(Vec::new())));
}

#[test]
fn unknown_id_resolves_to_nothing() {
    let mut cache = QueriesCache::default();
    assert!(cache.update_query(id(9), Some(b"late")).unwrap().is_none());
    assert!(cache.update_query(id(9), None).unwrap().is_none());
    let _pending = cache.add_query(id(1));
    assert!(cache.update_query(id(9), Some(b"late")).unwrap().is_none());
}

#[test]
fn cancelled_query_is_unknown() {
    let mut cache = QueriesCache::default();
    let pending = cache.add_query(id(3));
    pending.cancel(Some(&mut cache));
    assert!(cache.update_query(id(3), Some(b"late")).unwrap().is_none());
}

#[test]
fn cancel_removes_an_entry_with_an_outcome_too() {
    let mut cache = QueriesCache::default();
    let pending = cache.add_query(id(3));
    assert!(cache.update_query(id(3), Some(b"answer")).unwrap().is_some());
    pending.cancel(Some(&mut cache));
    assert!(cache.update_query(id(3), None).unwrap().is_none());
}

#[test]
fn cancel_without_cache_does_nothing() {
    let mut cache = QueriesCache::default();
    let pending = cache.add_query(id(3));
    pending.cancel(None);
    assert!(cache.update_query(id(3), None).unwrap().is_some());
}

#[test]
fn second_answer_is_refused_and_first_stays() {
    let mut cache = QueriesCache::default();
    let pending = cache.add_query(id(5));
    assert!(cache.update_query(id(5), Some(b"first")).unwrap().is_some());
    assert_eq!(
        cache.update_query(id(5), Some(b"second")).err(),
        Some(QueriesCacheError::UnexpectedState)
    );
    assert_eq!(cache.update_query(id(5), None).err(), Some(QueriesCacheError::UnexpectedState));
    assert_eq!(pending.wait(Some(&mut cache)), Ok(Some(b"first".to_vec())));
    assert!(cache.update_query(id(5), Some(b"third")).unwrap().is_none());
}

#[test]
fn answer_after_timeout_is_refused() {
    let mut cache = QueriesCache::default();
    let pending = cache.add_query(id(5));
    assert!(cache.update_query(id(5), None).unwrap().is_some());
    assert_eq!(
        cache.update_query(id(5), Some(b"late")).err(),
        Some(QueriesCacheError::UnexpectedState)
    );
    assert_eq!(pending.wait(Some(&mut cache)), Ok(None));
}

#[test]
fn wait_without_cache_fails_with_cache_dropped() {
    let mut cache = QueriesCache::default();
    let pending = cache.add_query(id(2));
    assert!(cache.update_query(id(2), Some(b"x")).unwrap().is_some());
    drop(cache);
    assert_eq!(pending.wait(None), Err(QueriesCacheError::CacheDropped));
}

#[test]
fn wait_before_any_outcome_fails_with_invalid_query_state() {
    let mut cache = QueriesCache::default();
    let pending = cache.add_query(id(2));
    assert_eq!(pending.wait(Some(&mut cache)), Err(QueriesCacheError::InvalidQueryState));
    assert!(cache.update_query(id(2), None).unwrap().is_none());
}

#[test]
fn wait_on_a_missing_entry_fails_with_unknown_id() {
    let mut cache = QueriesCache::default();
    let mut other = QueriesCache::default();
    let pending = cache.add_query(id(2));
    assert_eq!(pending.wait(Some(&mut other)), Err(QueriesCacheError::UnknownId));
}

#[test]
fn registering_again_replaces_the_entry() {
    let mut cache = QueriesCache::default();
    let first = cache.add_query(id(4));
    assert!(cache.update_query(id(4), Some(b"old")).unwrap().is_some());
    let second = cache.add_query(id(4));
    assert!(!Arc::ptr_eq(first.barrier(), second.barrier()));
    let barrier = cache.update_query(id(4), Some(b"new")).unwrap().unwrap();
    assert!(Arc::ptr_eq(&barrier, second.barrier()));
    assert_eq!(second.wait(Some(&mut cache)), Ok(Some(b"new".to_vec())));
    assert_eq!(first.wait(Some(&mut cache)), Err(QueriesCacheError::UnknownId));
}

#[test]
fn error_messages() {
    assert_eq!(QueriesCacheError::CacheDropped.message(), "queries cache was dropped");
    assert_eq!(QueriesCacheError::InvalidQueryState.message(), "invalid query state");
    assert_eq!(QueriesCacheError::UnknownId.message(), "unknown query id");
    assert_eq!(QueriesCacheError::UnexpectedState.message(), "unexpected query state");
}

/// Resolves `id` the way a receiver does: stores the outcome while it holds
/// the cache, lets go of it, and then meets the waiter at the barrier.
async fn resolve(
    cache: &Mutex<QueriesCache>,
    id: [u8; 32],
    answer: Option<&[u8]>,
) -> Result<bool, QueriesCacheError> {
    let barrier = cache.lock().unwrap().update_query(id, answer)?;
    match barrier {
        Some(barrier) => {
            barrier.wait().await;
            Ok(true)
        }
        None => Ok(false),
    }
}

/// Waits the way a sender does: parks on the barrier, and collects the outcome
/// from the cache if that is still there.
async fn wait(
    cache: std::sync::Weak<Mutex<QueriesCache>>,
    pending: PendingAdnlQuery,
) -> Result<Option<Vec<u8>>, QueriesCacheError> {
    let barrier = pending.barrier().clone();
    barrier.wait().await;
    match cache.upgrade() {
        Some(cache) => pending.wait(Some(&mut cache.lock().unwrap())),
        None => pending.wait(None),
    }
}

fn runtime() -> tokio::runtime::Runtime {
    tokio::runtime::Builder::new_multi_thread()
        .worker_threads(4)
        .enable_all()
        .build()
        .unwrap()
}

#[test]
fn pong_scenario_between_two_tasks() {
    runtime().block_on(async {
        let cache = Arc::new(Mutex::new(QueriesCache::default()));
        let id = [0x01u8; 32];
        let pending = cache.lock().unwrap().add_query(id);

        let waiter = tokio::spawn(wait(Arc::downgrade(&cache), pending));
        let resolver = {
            let cache = cache.clone();
            tokio::spawn(async move { resolve(&cache, id, Some(b"PONG")).await })
        };

        assert_eq!(resolver.await.unwrap(), Ok(true));
        assert_eq!(waiter.await.unwrap(), Ok(Some(b"PONG".to_vec())));
        assert_eq!(resolve(&cache, id, Some(b"PONG")).await, Ok(false));
    });
}

#[test]
fn many_queries_get_their_own_answers() {
    const N: usize = 128;
    runtime().block_on(async {
        let cache = Arc::new(Mutex::new(QueriesCache::default()));
        let mut waiters = Vec::new();
        for n in 0..N {
            let mut id = [0u8; 32];
            id[0] = n as u8;
            id[31] = 0xa5;
            let cache = cache.clone();
            waiters.push(tokio::spawn(async move {
                let pending = cache.lock().unwrap().add_query(id);
                (n, wait(Arc::downgrade(&cache), pending).await)
            }));
        }
        let mut resolvers = Vec::new();
        for n in (0..N).rev() {
            let mut id = [0u8; 32];
            id[0] = n as u8;
            id[31] = 0xa5;
            let cache = cache.clone();
            resolvers.push(tokio::spawn(async move {
                let payload = format!("answer {n}").into_bytes();
                loop {
                    if resolve(&cache, id, Some(&payload)).await == Ok(true) {
                        break;
                    }
                    tokio::task::yield_now().await;
                }
            }));
        }
        for resolver in resolvers {
            resolver.await.unwrap();
        }
        for waiter in waiters {
            let (n, outcome) = waiter.await.unwrap();
            assert_eq!(outcome, Ok(Some(format!("answer {n}").into_bytes())));
        }
        for n in 0..N {
            let mut id = [0u8; 32];
            id[0] = n as u8;
            id[31] = 0xa5;
            assert_eq!(resolve(&cache, id, None).await, Ok(false));
        }
    });
}

#[test]
fn waiter_woken_after_teardown_gets_cache_dropped() {
    runtime().block_on(async {
        let cache = Arc::new(Mutex::new(QueriesCache::default()));
        let id = [0x42u8; 32];
        let pending = cache.lock().unwrap().add_query(id);
        let waiter = tokio::spawn(wait(Arc::downgrade(&cache), pending));

        let barrier = cache.lock().unwrap().update_query(id, Some(b"lost")).unwrap().unwrap();
        drop(cache);
        barrier.wait().await;

        assert_eq!(waiter.await.unwrap(), Err(QueriesCacheError::CacheDropped));
    });
}
