//! Choosing the items of a list that pass a test, by their positions.

use crate::uuid::Uuid;
use vstd::prelude::*;

verus! {

/// The positions at which `flags` holds true, in rising order.
pub open spec fn positions(flags: Seq<bool>) -> Seq<usize>
    decreases flags.len(),
{
    if flags.len() == 0 {
        Seq::empty()
    } else if flags.last() {
        positions(flags.drop_last()).push((flags.len() - 1) as usize)
    } else {
        positions(flags.drop_last())
    }
}

/// The positions are exactly those at which the flag is set, each once and
/// in rising order.
pub proof fn lemma_positions(flags: Seq<bool>)
    requires
        flags.len() <= usize::MAX,
    ensures
        forall|k: int|
            0 <= k < positions(flags).len() ==> 0 <= #[trigger] positions(flags)[k] < flags.len()
                && flags[positions(flags)[k] as int],
        forall|j: int, k: int|
            0 <= j < k < positions(flags).len() ==> positions(flags)[j] < positions(flags)[k],
        forall|i: int|
            0 <= i < flags.len() && flags[i] ==> exists|k: int|
                0 <= k < positions(flags).len() && positions(flags)[k] == i,
        positions(flags).len() <= flags.len(),
    decreases flags.len(),
{
    if flags.len() > 0 {
        let front = flags.drop_last();
        lemma_positions(front);
        let here = positions(flags);
        assert forall|i: int| 0 <= i < flags.len() && flags[i] implies exists|k: int|
            0 <= k < here.len() && here[k] == i by {
            if i < front.len() {
                assert(front[i]);
                let k = choose|k: int| 0 <= k < positions(front).len() && positions(front)[k] == i;
                assert(here[k] == i);
            } else {
                assert(here[here.len() - 1] == i);
            }
        }
    }
}

/// Whether `wanted` is at position `i` of `uuids`.
pub open spec fn hits(uuids: Seq<Uuid>, wanted: Uuid) -> Seq<bool> {
    Seq::new(uuids.len(), |i: int| uuids[i] == wanted)
}

/// The positions in `uuids` of the identifiers equal to `wanted`, in
/// rising order.
pub fn matching_uuid(uuids: &Vec<Uuid>, wanted: Uuid) -> (found: Vec<usize>)
    ensures
        found@ == positions(hits(uuids@, wanted)),
{
    let mut found: Vec<usize> = Vec::new();
    let mut i: usize = 0;
    while i < uuids.len()
        invariant
            i <= uuids.len(),
            found@ == positions(hits(uuids@, wanted).take(i as int)),
        decreases uuids.len() - i,
    {
        proof {
            let all = hits(uuids@, wanted);
            assert(all.take(i + 1).drop_last() =~= all.take(i as int));
            assert(all.take(i + 1).last() == (uuids@[i as int] == wanted));
        }
        if uuids[i] == wanted {
            found.push(i);
        }
        i = i + 1;
    }
    proof {
        let all = hits(uuids@, wanted);
        assert(all.take(i as int) =~= all);
    }
    found
}

/// Whether `list` holds `wanted`.
pub fn contains_uuid(list: &Vec<Uuid>, wanted: Uuid) -> (found: bool)
    ensures
        found == list@.contains(wanted),
{
    let mut i: usize = 0;
    while i < list.len()
        invariant
            i <= list.len(),
            forall|j: int| 0 <= j < i ==> list@[j] != wanted,
        decreases list.len() - i,
    {
        if list[i] == wanted {
            return true;
        }
        i = i + 1;
    }
    false
}

/// Whether some identifier of `offered` is among `wanted`.
pub open spec fn offers_any(offered: Seq<Uuid>, wanted: Seq<Uuid>) -> bool {
    exists|i: int| 0 <= i < offered.len() && wanted.contains(#[trigger] offered[i])
}

/// Whether some identifier of `offered` is among `wanted`.
pub fn any_wanted(offered: &Vec<Uuid>, wanted: &Vec<Uuid>) -> (found: bool)
    ensures
        found == offers_any(offered@, wanted@),
{
    let mut i: usize = 0;
    while i < offered.len()
        invariant
            i <= offered.len(),
            forall|j: int| 0 <= j < i ==> !wanted@.contains(#[trigger] offered@[j]),
        decreases offered.len() - i,
    {
        if contains_uuid(wanted, offered[i]) {
            return true;
        }
        i = i + 1;
    }
    false
}

} // verus!
