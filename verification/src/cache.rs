use crate::ir::{BlockModel, CompiledBlock};
use crate::jit::{spec_build, BuildError, JIT, ROM_WORDS_MAX};
use std::collections::HashMap;
use vstd::prelude::*;

verus! {

broadcast use vstd::std_specs::hash::group_hash_axioms;

/// Memoizes compiled blocks by their entry address. There is at most one
/// block per address for the cache's lifetime: a hit never invokes the
/// builder, and nothing is ever evicted (the instruction memory is
/// immutable for the life of a run).
pub struct BlockCache {
    map: HashMap<u64, CompiledBlock>,
}

impl BlockCache {
    /// The cache's contents: which entry address maps to which block.
    pub closed spec fn blocks(&self) -> Map<u64, BlockModel> {
        self.map@.map_values(|b: CompiledBlock| b@)
    }

    pub fn new() -> (r: BlockCache)
        ensures
            r.blocks() == Map::<u64, BlockModel>::empty(),
    {
        let r = BlockCache { map: HashMap::new() };
        proof {
            assert(r.blocks() =~= Map::<u64, BlockModel>::empty());
        }
        r
    }

    /// Returns the block compiled for `addr`, building it first if this is
    /// the first request for that address. On a hit the builder is not
    /// invoked and the cache is unchanged; on a miss the builder runs
    /// exactly once and its result, if any, is stored under `addr` — so one
    /// address is compiled at most once, and what is returned for it is
    /// always the block stored under it. A build failure is propagated and
    /// caches nothing.
    pub fn get_or_build(&mut self, jit: &mut JIT, rom: &Vec<u32>, addr: u64) -> (r: Result<
        &CompiledBlock,
        BuildError,
    >)
        requires
            rom@.len() <= ROM_WORDS_MAX,
            old(jit).builds < u64::MAX,
        ensures
            old(self).blocks().contains_key(addr) ==> (r matches Ok(b) && b@ == old(
                self,
            ).blocks()[addr] && final(self).blocks() == old(self).blocks() && *final(jit) == *old(
                jit,
            )),
            !old(self).blocks().contains_key(addr) ==> final(jit).builds == old(jit).builds + 1
                && match spec_build(rom@, addr) {
                Ok(m) => (r matches Ok(b) && b@ == m && final(self).blocks() == old(
                    self,
                ).blocks().insert(addr, m)),
                Err(e) => (r matches Err(e2) && e2 == e && final(self).blocks() == old(
                    self,
                ).blocks()),
            },
    {
        if !self.map.contains_key(&addr) {
            match jit.build_block(rom, addr) {
                Ok(block) => {
                    let ghost m = block@;
                    self.map.insert(addr, block);
                    proof {
                        assert(self.blocks() =~= old(self).blocks().insert(addr, m));
                    }
                },
                Err(e) => {
                    return Err(e);
                },
            }
        }
        match self.map.get(&addr) {
            Some(b) => Ok(b),
            None => vstd::pervasive::unreached(),
        }
    }
}

} // verus!
