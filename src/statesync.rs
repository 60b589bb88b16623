//! Statesync planning: the endpoint list and the trust checkpoint that let a node
//! start from a snapshot instead of replaying the chain from genesis.
use vstd::prelude::*;
use crate::config::{TendermintConfig, TendermintStatesyncConfig};
use crate::text::views;
use crate::error::SetupError;

verus! {

/// Block-height granularity at which snapshots are assumed to exist, unless another is given.
pub const DEFAULT_SNAPSHOT_INTERVAL: u64 = 2000;

/// The largest multiple of `interval` that does not exceed `latest`.
pub open spec fn snapshot_floor(latest: int, interval: int) -> int {
    (latest / interval) * interval
}

/// The endpoint list that statesync is given: an explicit endpoint twice; else the
/// configured list, with a single entry doubled.
pub open spec fn planned_servers(explicit: Option<Seq<char>>, configured: Seq<Seq<char>>) -> Option<
    Seq<Seq<char>>,
> {
    match explicit {
        Some(e) => Some(seq![e, e]),
        None => if configured.len() == 0 {
            None
        } else if configured.len() == 1 {
            Some(seq![configured[0], configured[0]])
        } else {
            Some(configured)
        },
    }
}

/// The trust height for `latest` and `interval`, or why there is none.
pub open spec fn planned_height(latest: u64, interval: u64) -> Result<u32, SetupError> {
    if interval == 0 {
        Err(SetupError::ZeroSnapshotInterval)
    } else if snapshot_floor(latest as int, interval as int) > u32::MAX {
        Err(SetupError::SnapshotHeightTooLarge(snapshot_floor(latest as int, interval as int) as u64))
    } else {
        Ok(snapshot_floor(latest as int, interval as int) as u32)
    }
}

/// A resolved trust checkpoint.
pub struct StatesyncPlan {
    pub rpc_servers: Vec<String>,
    pub trust_height: u32,
    pub trust_hash: String,
}

/// The snapshot interval to use: the given one, else the default.
pub fn snapshot_interval(given: Option<u64>) -> (r: u64)
    ensures
        r == match given {
            Some(i) => i,
            None => DEFAULT_SNAPSHOT_INTERVAL,
        },
{
    match given {
        Some(i) => i,
        None => DEFAULT_SNAPSHOT_INTERVAL,
    }
}

/// The trust height for a chain whose latest block is `latest`: the largest multiple
/// of `interval` not above it, which the block query takes as a 32-bit height.
pub fn snapshot_height(latest: u64, interval: u64) -> (r: Result<u32, SetupError>)
    ensures
        r == planned_height(latest, interval),
{
    if interval == 0 {
        return Err(SetupError::ZeroSnapshotInterval);
    }
    let q = latest / interval;
    assert(q * interval <= latest) by (nonlinear_arith)
        requires
            q == latest / interval,
            interval > 0,
    ;
    let h = q * interval;
    if h > u32::MAX as u64 {
        Err(SetupError::SnapshotHeightTooLarge(h))
    } else {
        Ok(h as u32)
    }
}

/// The endpoints to hand to statesync; the first is the one queried.
pub fn rpc_servers(explicit: Option<String>, configured: &Vec<String>) -> (r: Result<
    Vec<String>,
    SetupError,
>)
    ensures
        match planned_servers(
            match explicit {
                Some(e) => Some(e@),
                None => None,
            },
            views(configured@),
        ) {
            Some(p) => r matches Ok(v) && views(v@) == p,
            None => r matches Err(SetupError::NoRpcServers),
        },
{
    match explicit {
        Some(e) => {
            let v = vec![e.clone(), e];
            assert(views(v@) =~= seq![v@[0]@, v@[0]@]);
            Ok(v)
        },
        None => {
            if configured.len() == 0 {
                Err(SetupError::NoRpcServers)
            } else if configured.len() == 1 {
                let v = vec![configured[0].clone(), configured[0].clone()];
                assert(views(v@) =~= seq![views(configured@)[0], views(configured@)[0]]);
                Ok(v)
            } else {
                let mut v: Vec<String> = Vec::new();
                let mut i: usize = 0;
                while i < configured.len()
                    invariant
                        0 <= i <= configured.len(),
                        v@ == configured@.take(i as int),
                    decreases configured.len() - i,
                {
                    v.push(configured[i].clone());
                    assert(v@ =~= configured@.take(i + 1));
                    i += 1;
                }
                assert(configured@.take(configured.len() as int) =~= configured@);
                Ok(v)
            }
        },
    }
}

/// Writes a resolved checkpoint into the statesync settings and enables statesync.
pub fn apply_plan(cfg: &mut TendermintStatesyncConfig, plan: StatesyncPlan)
    ensures
        final(cfg).enable,
        final(cfg).rpc_servers@ == plan.rpc_servers@,
        final(cfg).trust_height == plan.trust_height as u64,
        final(cfg).trust_hash@ == plan.trust_hash@,
        final(cfg).trust_period == old(cfg).trust_period,
        final(cfg).discovery_time == old(cfg).discovery_time,
        final(cfg).temp_dir == old(cfg).temp_dir,
        final(cfg).chunk_request_timeout == old(cfg).chunk_request_timeout,
        final(cfg).chunk_fetchers == old(cfg).chunk_fetchers,
{
    cfg.enable = true;
    cfg.rpc_servers = plan.rpc_servers;
    cfg.trust_height = plan.trust_height as u64;
    cfg.trust_hash = plan.trust_hash;
}

/// Gives the node its advertised name and, where a checkpoint was planned, enables
/// statesync to it; the plan is folded in here, before the facet is rendered.
pub fn configure_node(cfg: &mut TendermintConfig, moniker: String, plan: Option<StatesyncPlan>)
    ensures
        final(cfg).moniker@ == moniker@,
        match plan {
            Some(p) => {
                &&& final(cfg).statesync.enable
                &&& final(cfg).statesync.rpc_servers@ == p.rpc_servers@
                &&& final(cfg).statesync.trust_height == p.trust_height as u64
                &&& final(cfg).statesync.trust_hash@ == p.trust_hash@
            },
            None => final(cfg).statesync == old(cfg).statesync,
        },
        final(cfg).p2p == old(cfg).p2p,
        final(cfg).consensus == old(cfg).consensus,
        final(cfg).rpc == old(cfg).rpc,
{
    cfg.moniker = moniker;
    if let Some(p) = plan {
        apply_plan(&mut cfg.statesync, p);
    }
}

} // verus!
