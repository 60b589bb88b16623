//! Chain profiles and the registry that looks them up by chain identifier.
use vstd::prelude::*;
use vstd::string::StringExecFns;
use crate::error::SetupError;

verus! {

/// Static metadata of one network.
pub struct Chain {
    pub name: String,
    pub chain_id: String,
    pub minimum_gas_prices: String,
    pub genesis_url: String,
    pub rpcs: Vec<String>,
    pub seeds: Vec<String>,
    pub docker_image: String,
}

/// The profiles known to a run, built once and passed by reference.
pub struct ChainRegistry {
    pub chains: Vec<Chain>,
}

/// The last profile in `chains` whose identifier is `id`.
pub open spec fn last_with_id(chains: Seq<Chain>, id: Seq<char>) -> Option<Chain>
    decreases chains.len(),
{
    if chains.len() == 0 {
        None
    } else if chains.last().chain_id@ == id {
        Some(chains.last())
    } else {
        last_with_id(chains.drop_last(), id)
    }
}

fn copy_strings(v: &Vec<String>) -> (r: Vec<String>)
    ensures
        r@ == v@,
{
    let mut out: Vec<String> = Vec::new();
    let mut i: usize = 0;
    while i < v.len()
        invariant
            0 <= i <= v.len(),
            out@ == v@.take(i as int),
        decreases v.len() - i,
    {
        out.push(v[i].clone());
        assert(out@ =~= v@.take(i + 1));
        i += 1;
    }
    assert(v@.take(v.len() as int) =~= v@);
    out
}

impl Chain {
    /// Both profiles hold the same metadata.
    pub open spec fn same_as(&self, o: &Chain) -> bool {
        &&& self.name@ == o.name@
        &&& self.chain_id@ == o.chain_id@
        &&& self.minimum_gas_prices@ == o.minimum_gas_prices@
        &&& self.genesis_url@ == o.genesis_url@
        &&& self.rpcs@ == o.rpcs@
        &&& self.seeds@ == o.seeds@
        &&& self.docker_image@ == o.docker_image@
    }

    /// A profile with no metadata and the default fee.
    pub fn default() -> (r: Chain)
        ensures
            r.name@ == ""@,
            r.chain_id@ == ""@,
            r.minimum_gas_prices@ == "0stake"@,
            r.genesis_url@ == ""@,
            r.rpcs@.len() == 0,
            r.seeds@.len() == 0,
            r.docker_image@ == ""@,
    {
        Chain {
            name: String::from_str(""),
            chain_id: String::from_str(""),
            minimum_gas_prices: String::from_str("0stake"),
            genesis_url: String::from_str(""),
            rpcs: Vec::new(),
            seeds: Vec::new(),
            docker_image: String::from_str(""),
        }
    }

    /// A copy of this profile.
    pub fn duplicate(&self) -> (r: Chain)
        ensures
            r.same_as(self),
    {
        Chain {
            name: self.name.clone(),
            chain_id: self.chain_id.clone(),
            minimum_gas_prices: self.minimum_gas_prices.clone(),
            genesis_url: self.genesis_url.clone(),
            rpcs: copy_strings(&self.rpcs),
            seeds: copy_strings(&self.seeds),
            docker_image: self.docker_image.clone(),
        }
    }

    /// The profile of chain `id` in `registry`; an unknown identifier is a
    /// configuration error.
    pub fn from_id(registry: &ChainRegistry, id: &str) -> (r: Result<Chain, SetupError>)
        ensures
            match last_with_id(registry.chains@, id@) {
                Some(c) => r matches Ok(x) && x.same_as(&c),
                None => r matches Err(SetupError::ChainNotSupported(s)) && s@ == id@,
            },
    {
        match registry.find(id) {
            Some(i) => Ok(registry.chains[i].duplicate()),
            None => Err(SetupError::ChainNotSupported(String::from_str(id))),
        }
    }
}

impl ChainRegistry {
    /// A registry of `chains`; where two share an identifier the later one counts.
    pub fn new(chains: Vec<Chain>) -> (r: ChainRegistry)
        ensures
            r.chains@ == chains@,
    {
        ChainRegistry { chains }
    }

    /// The position of the profile that `id` resolves to.
    pub fn find(&self, id: &str) -> (r: Option<usize>)
        ensures
            match last_with_id(self.chains@, id@) {
                Some(c) => r matches Some(i) && i < self.chains.len() && self.chains@[i as int] == c,
                None => r is None,
            },
    {
        let key = String::from_str(id);
        let mut n: usize = self.chains.len();
        assert(self.chains@.take(n as int) =~= self.chains@);
        while n > 0
            invariant
                n <= self.chains.len(),
                key@ == id@,
                last_with_id(self.chains@, id@) == last_with_id(self.chains@.take(n as int), id@),
            decreases n,
        {
            let ghost pre = self.chains@.take(n as int);
            assert(pre.drop_last() =~= self.chains@.take(n - 1));
            if self.chains[n - 1].chain_id == key {
                return Some(n - 1);
            }
            n -= 1;
        }
        None
    }
}

} // verus!
