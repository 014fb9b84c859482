use safe_pool::{LifecycleState, PoolError, RedisMode, SafePool};

fn local_endpoint() -> Vec<String> {
    vec!["redis://127.0.0.1:6379".to_string()]
}

#[test]
fn construction_yields_a_ready_handle() {
    let handle = SafePool::new(local_endpoint(), RedisMode::NonCluster, 3).unwrap();
    assert!(handle.is_ready());
    assert_eq!(handle.state(), LifecycleState::Ready);
    assert_eq!(handle.mode(), RedisMode::NonCluster);
    assert_eq!(handle.capacity(), 3);
    assert_eq!(handle.endpoints(), &local_endpoint());
}

#[test]
fn clustered_construction_yields_a_ready_handle() {
    let urls = vec![
        "redis://127.0.0.1:7000".to_string(),
        "redis://127.0.0.1:7001".to_string(),
    ];
    let handle = SafePool::new(urls.clone(), RedisMode::Cluster, 2).unwrap();
    assert!(handle.is_ready());
    assert_eq!(handle.mode(), RedisMode::Cluster);
    assert_eq!(handle.endpoints(), &urls);
}

#[test]
fn the_held_pool_reports_the_construction_capacity() {
    let handle = SafePool::new(local_endpoint(), RedisMode::NonCluster, 7).unwrap();
    assert_eq!(handle.reported_capacity(), Some(7));
}

#[test]
fn construction_with_no_endpoints_is_fatal() {
    let r = SafePool::new(Vec::new(), RedisMode::NonCluster, 1);
    assert!(matches!(r, Err(PoolError::EmptyEndpointSet)));
}

#[test]
fn construction_with_a_malformed_endpoint_is_fatal() {
    let r = SafePool::new(vec!["no scheme at all".to_string()], RedisMode::NonCluster, 1);
    assert!(matches!(r, Err(PoolError::PoolCreationFailed(_))));
}

#[test]
fn invalidate_moves_a_ready_handle_to_degraded() {
    let mut handle = SafePool::new(local_endpoint(), RedisMode::NonCluster, 1).unwrap();
    assert_eq!(handle.state(), LifecycleState::Ready);
    handle.invalidate();
    assert_eq!(handle.state(), LifecycleState::Degraded);
    assert!(handle.snapshot().is_none());
    assert_eq!(handle.reported_capacity(), None);
}

#[test]
fn invalidate_on_a_degraded_handle_is_a_no_op() {
    let mut handle = SafePool::new(local_endpoint(), RedisMode::NonCluster, 1).unwrap();
    handle.invalidate();
    assert_eq!(handle.state(), LifecycleState::Degraded);
    handle.invalidate();
    assert_eq!(handle.state(), LifecycleState::Degraded);
    assert!(handle.snapshot().is_none());
}

#[test]
fn a_degraded_handle_rebuilds_on_ensure() {
    let mut handle = SafePool::new(local_endpoint(), RedisMode::NonCluster, 5).unwrap();
    handle.invalidate();
    assert_eq!(handle.state(), LifecycleState::Degraded);
    assert!(handle.try_ensure().is_ok());
    assert_eq!(handle.state(), LifecycleState::Ready);
    assert_eq!(handle.reported_capacity(), Some(5));
}

#[test]
fn ensure_on_a_ready_handle_changes_nothing() {
    let mut handle = SafePool::new(local_endpoint(), RedisMode::NonCluster, 2).unwrap();
    assert!(handle.try_ensure().is_ok());
    assert_eq!(handle.state(), LifecycleState::Ready);
    assert_eq!(handle.reported_capacity(), Some(2));
}

#[test]
fn a_snapshot_shares_the_held_pool() {
    let handle = SafePool::new(local_endpoint(), RedisMode::NonCluster, 6).unwrap();
    let snapshot = handle.snapshot().unwrap();
    assert_eq!(snapshot.reported_capacity(), 6);
    // The handle still holds the pool: the snapshot was a second handle,
    // not a removal.
    assert!(handle.is_ready());
}
