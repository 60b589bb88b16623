//! The configuration composer: built-in defaults, then a chain profile, then a
//! user's merge patch, for each configuration facet.
use vstd::prelude::*;
use vstd::string::StringExecFns;
use crate::config::{
    default_config, default_wasmd_config, profile_settings, wasmd_settings, CosmosChainConfig,
};
use crate::error::{ErrorKind, SetupError};
use crate::json::{
    has_key, key_index, members_of, merge, merge_members, merge_patch, unique_keys, value_at, with_member, without_key, wf,
    Json, JsonModel, Members,
};

verus! {

/// The defaults of a run: those of chain `chain` where one is named, else the wasmd defaults.
pub fn base_config(chain: Option<&str>) -> (r: Result<CosmosChainConfig, SetupError>)
    ensures
        r matches Err(e) ==> e.kind() == ErrorKind::Configuration,
        match chain {
            None => r matches Ok(c) && c.is_profile(wasmd_settings()),
            Some(id) => match profile_settings(id@) {
                Some(p) => r matches Ok(c) && c.is_profile(p),
                None => r matches Err(SetupError::ChainNotSupported(s)) && s@ == id@,
            },
        },
{
    match chain {
        Some(id) => match default_config(id) {
            Some(c) => Ok(c),
            None => Err(SetupError::ChainNotSupported(String::from_str(id))),
        },
        None => Ok(default_wasmd_config()),
    }
}

/// The node's advertised name: the explicit one, else the host name, else "node".
pub fn resolve_moniker(flag: Option<String>, host: Option<String>) -> (r: String)
    ensures
        r@ == match flag {
            Some(m) => m@,
            None => match host {
                Some(h) => h@,
                None => "node"@,
            },
        },
{
    match flag {
        Some(m) => m,
        None => match host {
            Some(h) => h,
            None => String::from_str("node"),
        },
    }
}

/// The overrides of each facet, taken from one combined patch.
pub struct FacetPatches {
    pub app: Option<Json>,
    pub tendermint: Option<Json>,
    pub genesis: Option<Json>,
}

/// Member `key` of the combined patch `p`, where there is one.
pub open spec fn facet_of(p: JsonModel, key: Seq<char>) -> Option<JsonModel> {
    if has_key(members_of(p), key) {
        Some(value_at(members_of(p), key))
    } else {
        None
    }
}

pub open spec fn model_of(o: Option<Json>) -> Option<JsonModel> {
    match o {
        Some(j) => Some(j.model()),
        None => None,
    }
}

/// Splits a combined patch into its "app", "tendermint" and "genesis" members.
pub fn split_patch(custom: &Json) -> (r: FacetPatches)
    requires
        wf(custom.model()),
    ensures
        model_of(r.app) == facet_of(custom.model(), "app"@),
        model_of(r.tendermint) == facet_of(custom.model(), "tendermint"@),
        model_of(r.genesis) == facet_of(custom.model(), "genesis"@),
{
    FacetPatches {
        app: custom.get("app"),
        tendermint: custom.get("tendermint"),
        genesis: custom.get("genesis"),
    }
}

/// The patch that overrides facet `facet` of a whole configuration with `patch`.
pub open spec fn facet_patch(facet: Seq<char>, patch: JsonModel) -> JsonModel {
    JsonModel::Object(seq![(facet, patch)])
}

/// The configuration document `base` with `patch`, where given, merged into its
/// member `facet`.
pub fn compose_facet(base: Json, facet: &str, patch: Option<&Json>) -> (r: Json)
    requires
        wf(base.model()),
        match patch {
            Some(p) => wf(p.model()),
            None => true,
        },
    ensures
        r.model() == match patch {
            Some(p) => merge_patch(base.model(), facet_patch(facet@, p.model())),
            None => base.model(),
        },
        wf(r.model()),
{
    match patch {
        Some(p) => {
            let wrapped = Json::single(String::from_str(facet), p.deep_clone());
            assert(wf(wrapped.model()));
            let mut doc = base;
            merge(&mut doc, &wrapped);
            doc
        },
        None => base,
    }
}

/// The genesis document `base` with `patch`, where given, merged into it.
pub fn compose_genesis(base: Json, patch: Option<&Json>) -> (r: Json)
    requires
        wf(base.model()),
        match patch {
            Some(p) => wf(p.model()),
            None => true,
        },
    ensures
        r.model() == match patch {
            Some(p) => merge_patch(base.model(), p.model()),
            None => base.model(),
        },
        wf(r.model()),
{
    match patch {
        Some(p) => {
            let mut doc = base;
            merge(&mut doc, p);
            doc
        },
        None => base,
    }
}

proof fn lemma_other_member_kept(m: Members, f: Seq<char>, k: Seq<char>, v: JsonModel)
    requires
        unique_keys(m),
        k != f,
    ensures
        has_key(without_key(m, f), k) == has_key(m, k),
        has_key(with_member(m, f, v), k) == has_key(m, k),
        value_at(without_key(m, f), k) == value_at(m, k),
        value_at(with_member(m, f, v), k) == value_at(m, k),
{
    if has_key(m, k) {
        let i = key_index(m, k);
        if has_key(m, f) {
            let j = key_index(m, f);
            assert(i != j);
            let r = m.remove(j);
            let ri = if i < j { i } else { i - 1 };
            assert(r[ri] == m[i]);
            assert(has_key(r, k));
            let c = key_index(r, k);
            let c2 = if c < j { c } else { c + 1 };
            assert(r[c] == m[c2]);
            let u = m.update(j, (f, v));
            assert(u[i] == m[i]);
            assert(has_key(u, k));
            let d = key_index(u, k);
            assert(u[d] == m[d]);
        } else {
            let u = m.push((f, v));
            assert(u[i] == m[i]);
            assert(has_key(u, k));
            let d = key_index(u, k);
            assert(d < m.len());
            assert(u[d] == m[d]);
        }
    } else {
        if has_key(m, f) {
            let j = key_index(m, f);
            let r = m.remove(j);
            if has_key(r, k) {
                let c = key_index(r, k);
                let c2 = if c < j { c } else { c + 1 };
                assert(r[c] == m[c2]);
            }
            let u = m.update(j, (f, v));
            if has_key(u, k) {
                let d = key_index(u, k);
                assert(u[d] == m[d]);
            }
        } else {
            let u = m.push((f, v));
            if has_key(u, k) {
                let d = key_index(u, k);
                assert(d < m.len());
                assert(u[d] == m[d]);
            }
        }
    }
}

/// Overriding one facet leaves every other member of the configuration as it was.
pub proof fn law_facet_patch_touches_only_its_facet(
    base: JsonModel,
    facet: Seq<char>,
    patch: JsonModel,
    k: Seq<char>,
)
    requires
        wf(base),
        k != facet,
    ensures
        has_key(members_of(merge_patch(base, facet_patch(facet, patch))), k) == has_key(
            members_of(base),
            k,
        ),
        value_at(members_of(merge_patch(base, facet_patch(facet, patch))), k) == value_at(
            members_of(base),
            k,
        ),
{
    let pm = seq![(facet, patch)];
    assert(pm.drop_last() =~= Seq::<(Seq<char>, JsonModel)>::empty());
    let m = members_of(base);
    assert(unique_keys(m));
    assert(merge_members(m, pm.drop_last()) == m);
    assert(pm.last() == (facet, patch));
    lemma_other_member_kept(m, facet, k, merge_patch(value_at(m, facet), patch));
}

} // verus!
