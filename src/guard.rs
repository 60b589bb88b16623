//! The data directory guard: decides whether local chain data may be reset, and
//! which entries a reset removes.
use vstd::prelude::*;
use vstd::string::StringExecFns;
use crate::error::SetupError;

verus! {

/// The validator's signing state, which survives every reset.
pub const PROTECTED_FILE: &'static str = "priv_validator_state.json";

/// The entries of `entries` that a reset removes, in order: all but the protected file.
pub open spec fn removable(entries: Seq<String>) -> Seq<String>
    decreases entries.len(),
{
    if entries.len() == 0 {
        Seq::empty()
    } else {
        let rest = removable(entries.drop_last());
        if entries.last()@ == PROTECTED_FILE@ {
            rest
        } else {
            rest.push(entries.last())
        }
    }
}

/// Decides on the data directory at `path`, whose top-level entries are `entries`
/// (none where it does not exist). An empty directory needs nothing removed; a
/// non-empty one is refused unless `force` is set, and then every entry but the
/// protected file is to be removed.
pub fn entries_to_clear(path: &str, entries: &Vec<String>, force: bool) -> (r: Result<
    Vec<String>,
    SetupError,
>)
    ensures
        entries@.len() == 0 ==> (r matches Ok(d) && d@.len() == 0),
        entries@.len() > 0 && !force ==> (r matches Err(SetupError::DataDirNotEmpty(p))
            && p@ == path@),
        entries@.len() > 0 && force ==> (r matches Ok(d) && d@ == removable(entries@)),
{
    if entries.len() == 0 {
        return Ok(Vec::new());
    }
    if !force {
        return Err(SetupError::DataDirNotEmpty(String::from_str(path)));
    }
    let protected = String::from_str(PROTECTED_FILE);
    let mut out: Vec<String> = Vec::new();
    let mut i: usize = 0;
    while i < entries.len()
        invariant
            0 <= i <= entries.len(),
            protected@ == PROTECTED_FILE@,
            out@ == removable(entries@.take(i as int)),
        decreases entries.len() - i,
    {
        assert(entries@.take(i + 1).drop_last() =~= entries@.take(i as int));
        assert(entries@.take(i + 1).last() == entries@[i as int]);
        if entries[i] != protected {
            out.push(entries[i].clone());
        }
        i += 1;
    }
    assert(entries@.take(entries.len() as int) =~= entries@);
    Ok(out)
}

/// A reset removes exactly the entries other than the protected file: each of
/// them is listed, and the protected file never is.
pub proof fn law_reset_spares_only_protected(entries: Seq<String>)
    ensures
        forall|i: int|
            0 <= i < entries.len() && entries[i]@ != PROTECTED_FILE@ ==> removable(
                entries,
            ).contains(#[trigger] entries[i]),
        forall|j: int|
            0 <= j < removable(entries).len() ==> (#[trigger] removable(entries)[j])@
                != PROTECTED_FILE@,
        forall|j: int|
            0 <= j < removable(entries).len() ==> entries.contains(#[trigger] removable(entries)[j]),
    decreases entries.len(),
{
    if entries.len() > 0 {
        let init = entries.drop_last();
        law_reset_spares_only_protected(init);
        let rest = removable(init);
        assert forall|i: int|
            0 <= i < entries.len() && entries[i]@ != PROTECTED_FILE@ implies removable(
                entries,
            ).contains(#[trigger] entries[i]) by {
            if i < init.len() {
                assert(init[i] == entries[i]);
                let k = choose|k: int| 0 <= k < rest.len() && rest[k] == init[i];
                assert(removable(entries)[k] == entries[i]);
            } else {
                assert(removable(entries).last() == entries[i]);
            }
        }
        assert forall|j: int| 0 <= j < removable(entries).len() implies entries.contains(
            #[trigger] removable(entries)[j],
        ) by {
            if j < rest.len() {
                assert(removable(entries)[j] == rest[j]);
                let k = choose|k: int| 0 <= k < init.len() && init[k] == rest[j];
                assert(entries[k] == init[k]);
            } else {
                assert(removable(entries)[j] == entries.last());
            }
        }
        assert forall|j: int| 0 <= j < removable(entries).len() implies (#[trigger] removable(
            entries,
        )[j])@ != PROTECTED_FILE@ by {
            if j < rest.len() {
                assert(removable(entries)[j] == rest[j]);
            }
        }
    }
}

} // verus!
