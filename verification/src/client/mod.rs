use vstd::prelude::*;

pub mod user;

verus! {

/// The shards a client starts for `shard_info`, read as (first shard id,
/// end shard id, total number of shards): one for each id from the first up
/// to the end, the end left out, each given with the total, in order.
pub fn shards_to_start(shard_info: (u32, u32, u32)) -> (plan: Vec<(u32, u32)>)
    ensures
        plan.len() == if shard_info.0 < shard_info.1 { shard_info.1 - shard_info.0 } else { 0 },
        forall|i: int| 0 <= i < plan.len() ==> plan[i].0 == shard_info.0 + i && plan[i].1 == shard_info.2,
{
    let mut plan: Vec<(u32, u32)> = Vec::new();
    let mut num: u32 = shard_info.0;
    while num < shard_info.1
        invariant
            shard_info.0 <= num,
            shard_info.0 < shard_info.1 ==> num <= shard_info.1,
            shard_info.0 >= shard_info.1 ==> num == shard_info.0,
            plan.len() == num - shard_info.0,
            forall|i: int| 0 <= i < plan.len() ==> plan[i].0 == shard_info.0 + i && plan[i].1 == shard_info.2,
        decreases shard_info.1 - num,
    {
        plan.push((num, shard_info.2));
        num = num + 1;
    }
    plan
}

} // verus!
