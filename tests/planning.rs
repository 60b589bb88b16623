use starsign::config::default_wasmd_config;
use starsign::error::SetupError;
use starsign::statesync::{
    configure_node, rpc_servers, snapshot_height, snapshot_interval, StatesyncPlan,
    DEFAULT_SNAPSHOT_INTERVAL,
};

#[test]
fn snapshot_height_rounds_down_to_interval() {
    assert_eq!(snapshot_height(123456, 2000).ok(), Some(122000));
    assert_eq!(snapshot_height(122000, 2000).ok(), Some(122000));
    assert_eq!(snapshot_height(1999, 2000).ok(), Some(0));
    assert_eq!(snapshot_height(0, 1).ok(), Some(0));
}

#[test]
fn snapshot_height_errors() {
    assert!(matches!(snapshot_height(5, 0), Err(SetupError::ZeroSnapshotInterval)));
    let big = (u32::MAX as u64 + 1) * 2;
    assert!(matches!(snapshot_height(big + 1, 2), Err(SetupError::SnapshotHeightTooLarge(h)) if h == big));
    assert_eq!(snapshot_height(u32::MAX as u64, 1).ok(), Some(u32::MAX));
}

#[test]
fn snapshot_interval_default() {
    assert_eq!(snapshot_interval(None), 2000);
    assert_eq!(DEFAULT_SNAPSHOT_INTERVAL, 2000);
    assert_eq!(snapshot_interval(Some(500)), 500);
}

#[test]
fn single_endpoint_is_doubled() {
    let e = "https://rpc.example:443".to_string();
    assert_eq!(rpc_servers(None, &vec![e.clone()]).ok(), Some(vec![e.clone(), e.clone()]));
    assert_eq!(rpc_servers(Some(e.clone()), &vec![]).ok(), Some(vec![e.clone(), e.clone()]));
}

#[test]
fn endpoint_list_kept_or_refused() {
    let a = "http://a".to_string();
    let b = "http://b".to_string();
    assert_eq!(rpc_servers(None, &vec![a.clone(), b.clone()]).ok(), Some(vec![a.clone(), b.clone()]));
    assert_eq!(
        rpc_servers(Some(b.clone()), &vec![a.clone(), a.clone()]).ok(),
        Some(vec![b.clone(), b.clone()])
    );
    assert!(matches!(rpc_servers(None, &vec![]), Err(SetupError::NoRpcServers)));
}

#[test]
fn plan_is_folded_into_network_facet() {
    let mut cfg = default_wasmd_config().tendermint;
    let plan = StatesyncPlan {
        rpc_servers: vec!["http://a".to_string(), "http://a".to_string()],
        trust_height: 122000,
        trust_hash: "ABCDEF".to_string(),
    };
    configure_node(&mut cfg, "val".to_string(), Some(plan));
    assert_eq!(cfg.moniker, "val");
    assert!(cfg.statesync.enable);
    assert_eq!(cfg.statesync.trust_height, 122000);
    assert_eq!(cfg.statesync.trust_hash, "ABCDEF");
    assert_eq!(cfg.statesync.rpc_servers.len(), 2);
    assert_eq!(cfg.statesync.discovery_time, "15s");

    let mut plain = default_wasmd_config().tendermint;
    configure_node(&mut plain, "node".to_string(), None);
    assert_eq!(plain.moniker, "node");
    assert!(!plain.statesync.enable);
    assert_eq!(plain.statesync.trust_height, 0);
}
