use safe_pool::{PoolError, RedisMode, create_cluster_pool, create_non_cluster_pool,
    select_endpoints};

fn two_endpoints() -> Vec<String> {
    vec!["proto://host-a:1".to_string(), "proto://host-b:2".to_string()]
}

#[test]
fn non_clustered_mode_consumes_only_the_first_endpoint() {
    let selected = select_endpoints(&two_endpoints(), RedisMode::NonCluster).unwrap();
    assert_eq!(selected, vec!["proto://host-a:1".to_string()]);
}

#[test]
fn clustered_mode_consumes_every_endpoint() {
    let selected = select_endpoints(&two_endpoints(), RedisMode::Cluster).unwrap();
    assert_eq!(selected, two_endpoints());
}

#[test]
fn empty_endpoint_set_is_rejected_in_either_mode() {
    let none: Vec<String> = Vec::new();
    assert!(matches!(
        select_endpoints(&none, RedisMode::NonCluster),
        Err(PoolError::EmptyEndpointSet)
    ));
    assert!(matches!(
        select_endpoints(&none, RedisMode::Cluster),
        Err(PoolError::EmptyEndpointSet)
    ));
}

#[test]
fn non_cluster_pool_is_built_with_the_requested_bound() {
    let url = "redis://127.0.0.1:6379".to_string();
    let pool = create_non_cluster_pool(&url, 4).unwrap();
    assert_eq!(safe_pool::RedisPool::NonCluster(pool).reported_capacity(), 4);
}

#[test]
fn cluster_pool_is_built_with_the_requested_bound() {
    let urls = vec![
        "redis://127.0.0.1:7000".to_string(),
        "redis://127.0.0.1:7001".to_string(),
    ];
    let pool = create_cluster_pool(urls, 2).unwrap();
    assert_eq!(safe_pool::RedisPool::Cluster(pool).reported_capacity(), 2);
}

#[test]
fn malformed_endpoint_fails_pool_creation() {
    let url = "this is not an address".to_string();
    let r = create_non_cluster_pool(&url, 1);
    assert!(matches!(r, Err(PoolError::PoolCreationFailed(_))));
}

#[test]
fn pool_creation_failure_carries_a_diagnostic() {
    let url = "this is not an address".to_string();
    match create_non_cluster_pool(&url, 1) {
        Err(e) => assert!(!e.message().is_empty()),
        Ok(_) => panic!("a malformed endpoint must not produce a pool"),
    }
}

#[test]
fn empty_endpoint_error_has_its_own_message() {
    assert_eq!(
        PoolError::EmptyEndpointSet.message(),
        "no endpoint was provided".to_string()
    );
    assert_eq!(
        PoolError::PoolCreationFailed("cause".to_string()).message(),
        "cause".to_string()
    );
}
