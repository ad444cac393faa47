use vstd::prelude::*;

verus! {

/// The shards a bot starts for `shard_info`, read as (first shard id,
/// number of shards to start, total number of shards): the given number of
/// consecutive ids from the first, counted modulo 2^32, each given with the
/// total, in order.
pub fn shards_to_start(shard_info: (u32, u32, u32)) -> (plan: Vec<(u32, u32)>)
    ensures
        plan.len() == shard_info.1,
        forall|i: int| 0 <= i < plan.len() ==>
            plan[i].0 == (shard_info.0 + i) % 0x1_0000_0000 && plan[i].1 == shard_info.2,
{
    let mut plan: Vec<(u32, u32)> = Vec::new();
    let mut i: u32 = 0;
    while i < shard_info.1
        invariant
            i <= shard_info.1,
            plan.len() == i,
            forall|k: int| 0 <= k < plan.len() ==>
                plan[k].0 == (shard_info.0 + k) % 0x1_0000_0000 && plan[k].1 == shard_info.2,
        decreases shard_info.1 - i,
    {
        plan.push((i.wrapping_add(shard_info.0), shard_info.2));
        i = i + 1;
    }
    plan
}

} // verus!
