use starsign::error::{ErrorKind, SetupError};
use starsign::guard::{entries_to_clear, PROTECTED_FILE};

fn names(v: &[&str]) -> Vec<String> {
    v.iter().map(|s| s.to_string()).collect()
}

#[test]
fn non_empty_without_force_is_refused() {
    let entries = names(&["application.db", "priv_validator_state.json"]);
    match entries_to_clear("/node/data", &entries, false) {
        Err(e) => {
            assert_eq!(e.kind(), ErrorKind::DataSafety);
            assert!(matches!(e, SetupError::DataDirNotEmpty(ref p) if p == "/node/data"));
        }
        Ok(_) => panic!("a non-empty directory must not be cleared without force"),
    }
}

#[test]
fn force_removes_all_but_protected() {
    let entries = names(&["application.db", "priv_validator_state.json", "blockstore.db", "cs.wal"]);
    let r = entries_to_clear("/node/data", &entries, true).ok().unwrap();
    assert_eq!(r, names(&["application.db", "blockstore.db", "cs.wal"]));
    assert!(!r.iter().any(|n| n == PROTECTED_FILE));
}

#[test]
fn empty_directory_passes() {
    assert_eq!(entries_to_clear("/node/data", &vec![], false).ok(), Some(vec![]));
    assert_eq!(entries_to_clear("/node/data", &vec![], true).ok(), Some(vec![]));
    let only = names(&["priv_validator_state.json"]);
    assert_eq!(entries_to_clear("/d", &only, true).ok(), Some(vec![]));
}
