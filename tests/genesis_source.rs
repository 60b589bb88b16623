use std::io::Write;

use flate2::write::GzEncoder;
use flate2::Compression;
use starsign::compose::compose_genesis;
use starsign::error::{ErrorKind, SetupError};
use starsign::genesis::{decompress_genesis, genesis_encoding, genesis_from_decoded, GenesisEncoding};
use starsign::json::Json;

const FIXTURE: &str = "{\n  \"chain_id\": \"theta-testnet-001\",\n  \"initial_height\": \"1\"\n}\n";

fn gzip(text: &str) -> Vec<u8> {
    let mut enc = GzEncoder::new(Vec::new(), Compression::default());
    enc.write_all(text.as_bytes()).unwrap();
    enc.finish().unwrap()
}

#[test]
fn encoding_follows_url_suffix() {
    assert_eq!(
        genesis_encoding("https://github.com/cosmos/testnets/raw/master/public/genesis.json.gz").ok(),
        Some(GenesisEncoding::Gzip)
    );
    assert_eq!(genesis_encoding("https://example.org/genesis.json").ok(), Some(GenesisEncoding::Plain));
    assert_eq!(genesis_encoding("gz").ok(), Some(GenesisEncoding::Plain));
    assert_eq!(genesis_encoding(".gz").ok(), Some(GenesisEncoding::Gzip));
    match genesis_encoding("") {
        Err(e) => {
            assert!(matches!(e, SetupError::NoGenesisUrl));
            assert_eq!(e.kind(), ErrorKind::Configuration);
        }
        Ok(_) => panic!("an empty URL names no source"),
    }
}

#[test]
fn compressed_genesis_decompresses_to_fixture() {
    let body = gzip(FIXTURE);
    assert_ne!(body, FIXTURE.as_bytes());
    let text = decompress_genesis(&body).ok().unwrap();
    assert_eq!(text, FIXTURE);
}

#[test]
fn corrupt_stream_is_network_error() {
    match decompress_genesis(b"not a gzip stream") {
        Err(e) => {
            assert!(matches!(e, SetupError::GenesisNotDecodable));
            assert_eq!(e.kind(), ErrorKind::Network);
        }
        Ok(_) => panic!("a corrupt stream must be refused"),
    }
    assert!(matches!(genesis_from_decoded(None), Err(SetupError::GenesisNotDecodable)));
    assert_eq!(genesis_from_decoded(Some("x".to_string())).ok(), Some("x".to_string()));
}

#[test]
fn genesis_patch_is_merged() {
    let base = Json::Object(vec![
        ("chain_id".to_string(), Json::Str("a".to_string())),
        ("initial_height".to_string(), Json::Str("1".to_string())),
    ]);
    let patch = Json::Object(vec![("initial_height".to_string(), Json::Null)]);
    let out = compose_genesis(base, Some(&patch));
    match out {
        Json::Object(m) => {
            assert_eq!(m.len(), 1);
            assert_eq!(m[0].0, "chain_id");
        }
        _ => panic!("an object patch yields an object"),
    }
}
