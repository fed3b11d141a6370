//! Who holds which hero.
//!
//! Heroes are numbered from 1 and never change hands, so the index is a
//! sequence of accounts: the holder of hero `k` stands at position `k - 1`.

use vstd::prelude::*;
use crate::address::Address;

verus! {

/// Whether `who` holds hero `id` according to `holders`.
pub open spec fn held_by(holders: Seq<Address>, who: Address, id: nat) -> bool {
    1 <= id <= holders.len() && holders[id - 1] == who
}

/// Returns the ids of the heroes `owner` holds, in increasing order.
pub fn ids_held_by(holders: &Vec<Address>, owner: Address) -> (ids: Vec<u64>)
    requires
        holders@.len() <= u64::MAX,
    ensures
        forall|id: u64| ids@.contains(id) <==> held_by(holders@, owner, id as nat),
        forall|j: int, k: int| 0 <= j < k < ids@.len() ==> ids@[j] < ids@[k],
{
    let mut ids: Vec<u64> = Vec::new();
    let mut i: usize = 0;
    while i < holders.len()
        invariant
            holders@.len() <= u64::MAX,
            i <= holders@.len(),
            forall|j: int|
                0 <= j < ids@.len() ==> 1 <= #[trigger] ids@[j] <= i && holders@[ids@[j] - 1]
                    == owner,
            forall|p: int| 0 <= p < i && holders@[p] == owner ==> ids@.contains((p + 1) as u64),
            forall|j: int, k: int| 0 <= j < k < ids@.len() ==> ids@[j] < ids@[k],
        decreases holders@.len() - i,
    {
        if holders[i] == owner {
            let id: u64 = (i + 1) as u64;
            let ghost before = ids@;
            ids.push(id);
            assert(ids@[before.len() as int] == id);
            assert forall|p: int| 0 <= p < i + 1 && holders@[p] == owner implies ids@.contains(
                (p + 1) as u64,
            ) by {
                if p < i {
                    let j = choose|j: int| 0 <= j < before.len() && before[j] == (p + 1) as u64;
                    assert(ids@[j] == (p + 1) as u64);
                }
            }
        }
        i = i + 1;
    }
    assert forall|id: u64| ids@.contains(id) implies held_by(holders@, owner, id as nat) by {
        let j = choose|j: int| 0 <= j < ids@.len() && ids@[j] == id;
        assert(ids@[j] == id);
    }
    assert forall|id: u64| held_by(holders@, owner, id as nat) implies ids@.contains(id) by {
        assert(holders@[id - 1] == owner);
    }
    ids
}

} // verus!
