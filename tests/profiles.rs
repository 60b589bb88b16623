use starsign::chain::{Chain, ChainRegistry};
use starsign::compose::{base_config, compose_facet, resolve_moniker, split_patch};
use starsign::config::{default_config, default_wasmd_config, KAIYO_FEES};
use starsign::error::{ErrorKind, SetupError};
use starsign::json::Json;

fn chain(id: &str, name: &str, image: &str) -> Chain {
    Chain {
        name: name.to_string(),
        chain_id: id.to_string(),
        minimum_gas_prices: "0stake".to_string(),
        genesis_url: String::new(),
        rpcs: vec!["https://rpc.example:443".to_string()],
        seeds: vec!["a@seed:26656".to_string(), "b@seed:26656".to_string()],
        docker_image: image.to_string(),
    }
}

#[test]
fn wasmd_defaults() {
    let c = default_wasmd_config();
    assert_eq!(c.app.minimum_gas_prices, "0stake");
    assert_eq!(c.app.pruning, "nothing");
    assert_eq!(c.app.iavl_cache_size, 781250);
    assert_eq!(c.app.state_sync.snapshot_interval, 2000);
    assert_eq!(c.app.wasm.as_ref().map(|w| w.query_gas_limit), Some(30000000));
    assert_eq!(c.tendermint.consensus.timeout_commit, "5s");
    assert_eq!(c.tendermint.rpc.cors_allowed_origins, vec!["*".to_string()]);
    assert_eq!(c.tendermint.p2p.laddr, "tcp://0.0.0.0:26656");
    assert_eq!(c.tendermint.statesync.chunk_fetchers, 4);
    assert!(!c.tendermint.statesync.enable);
    assert_eq!(c.tendermint.instrumentation.namespace, "tendermint");
    assert_eq!(c.genesis_url, "");
}

#[test]
fn chain_profiles_override_defaults() {
    let k = default_config("kaiyo-1").unwrap();
    assert_eq!(k.app.minimum_gas_prices, KAIYO_FEES);
    assert_eq!(k.tendermint.consensus.timeout_commit, "1500ms");
    assert!(k.app.wasm.is_some());
    assert_eq!(k.genesis_url, "https://raw.githubusercontent.com/Team-Kujira/networks/master/mainnet/kaiyo-1.json");
    let h = default_config("harpoon-4").unwrap();
    assert_eq!(h.app.minimum_gas_prices, "0.00125ukuji");
    let c = default_config("cosmoshub-4").unwrap();
    assert_eq!(c.app.minimum_gas_prices, "0.0025uatom");
    assert!(c.app.wasm.is_none());
    assert_eq!(c.tendermint.consensus.timeout_commit, "5s");
    assert!(c.genesis_url.ends_with(".json.gz"));
    let t = default_config("theta-testnet-001").unwrap();
    assert!(t.app.wasm.is_none());
    assert_eq!(t.genesis_url, "https://github.com/cosmos/testnets/raw/master/public/genesis.json.gz");
}

#[test]
fn unknown_chain_is_configuration_error() {
    assert!(default_config("not-a-real-chain").is_none());
    match base_config(Some("not-a-real-chain")) {
        Err(e) => {
            assert_eq!(e.kind(), ErrorKind::Configuration);
            assert!(matches!(e, SetupError::ChainNotSupported(ref s) if s == "not-a-real-chain"));
        }
        Ok(_) => panic!("an unknown chain must be refused"),
    }
    assert_eq!(base_config(None).unwrap().app.minimum_gas_prices, "0stake");
    assert_eq!(base_config(Some("harpoon-4")).unwrap().app.minimum_gas_prices, "0.00125ukuji");
}

#[test]
fn chain_default_profile() {
    let c = Chain::default();
    assert_eq!(c.minimum_gas_prices, "0stake");
    assert!(c.name.is_empty() && c.chain_id.is_empty() && c.docker_image.is_empty());
    assert!(c.rpcs.is_empty() && c.seeds.is_empty());
}

#[test]
fn registry_lookup_prefers_later_profile() {
    let reg = ChainRegistry::new(vec![
        chain("kaiyo-1", "kujira", "image:1"),
        chain("cosmoshub-4", "gaia", "gaia:1"),
        chain("kaiyo-1", "kujira", "image:2"),
    ]);
    let k = Chain::from_id(&reg, "kaiyo-1").ok().unwrap();
    assert_eq!(k.docker_image, "image:2");
    assert_eq!(k.seeds.len(), 2);
    assert_eq!(Chain::from_id(&reg, "cosmoshub-4").ok().unwrap().name, "gaia");
    match Chain::from_id(&reg, "missing-1") {
        Err(SetupError::ChainNotSupported(s)) => assert_eq!(s, "missing-1"),
        _ => panic!("a missing chain must be refused"),
    }
}

#[test]
fn moniker_resolution_order() {
    assert_eq!(resolve_moniker(Some("mine".to_string()), Some("host".to_string())), "mine");
    assert_eq!(resolve_moniker(None, Some("host".to_string())), "host");
    assert_eq!(resolve_moniker(None, None), "node");
}

#[test]
fn combined_patch_splits_by_facet() {
    let p = Json::Object(vec![
        ("app".to_string(), Json::Number("1".to_string())),
        ("genesis".to_string(), Json::Str("g".to_string())),
    ]);
    let f = split_patch(&p);
    assert!(matches!(f.app, Some(Json::Number(ref n)) if n == "1"));
    assert!(f.tendermint.is_none());
    assert!(matches!(f.genesis, Some(Json::Str(ref g)) if g == "g"));
    let none = split_patch(&Json::Null);
    assert!(none.app.is_none() && none.tendermint.is_none() && none.genesis.is_none());
}

#[test]
fn facet_override_leaves_other_facets() {
    let base = Json::Object(vec![
        ("app".to_string(), Json::Object(vec![("pruning".to_string(), Json::Str("nothing".to_string()))])),
        ("tendermint".to_string(), Json::Object(vec![("moniker".to_string(), Json::Str("m".to_string()))])),
        ("genesis_url".to_string(), Json::Str("u".to_string())),
    ]);
    let patch = Json::Object(vec![("pruning".to_string(), Json::Str("everything".to_string()))]);
    match compose_facet(base, "app", Some(&patch)) {
        Json::Object(m) => {
            assert_eq!(m.len(), 3);
            assert_eq!(m[0].0, "app");
            assert!(matches!(&m[0].1, Json::Object(a) if matches!(&a[0].1, Json::Str(s) if s == "everything")));
            assert_eq!(m[1].0, "tendermint");
            assert!(matches!(&m[1].1, Json::Object(t) if matches!(&t[0].1, Json::Str(s) if s == "m")));
            assert!(matches!(&m[2].1, Json::Str(s) if s == "u"));
        }
        _ => panic!("an object stays an object"),
    }
}
