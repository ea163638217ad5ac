//! Which of the entities under a pointer are reported as hit: entities are
//! tested nearest first, and a hit entity that blocks lower entities hides
//! every entity behind it.

use vstd::prelude::*;

verus! {

/// An entity under test, in nearest-first order: whether the pointer's ray
/// hits its bounds, and whether it blocks the entities below it.
#[derive(Clone, Copy, Debug, PartialEq, Eq, Structural)]
pub struct PickCandidate {
    pub hit: bool,
    pub blocks_lower: bool,
}

/// Whether a hit entity before position `i` blocks the entities below it.
pub open spec fn blocked_before(cs: Seq<PickCandidate>, i: int) -> bool {
    exists|j: int| 0 <= j < i && #[trigger] cs[j].hit && cs[j].blocks_lower
}

/// Whether the entity at `i` is reported: it is hit and nothing in front of
/// it blocks it.
pub open spec fn picked(cs: Seq<PickCandidate>, i: int) -> bool {
    cs[i].hit && !blocked_before(cs, i)
}

/// The positions of the reported entities among the first `n`, in order.
pub open spec fn picked_positions(cs: Seq<PickCandidate>, n: nat) -> Seq<usize>
    decreases n,
{
    if n == 0 {
        Seq::empty()
    } else {
        let rest = picked_positions(cs, (n - 1) as nat);
        if picked(cs, n - 1) {
            rest.push((n - 1) as usize)
        } else {
            rest
        }
    }
}

/// The positions of the entities a pointer hits, nearest first, up to and
/// including the first hit entity that blocks the ones below it.
pub fn pick_hits(candidates: &Vec<PickCandidate>) -> (picks: Vec<usize>)
    ensures
        picks@ == picked_positions(candidates@, candidates@.len()),
{
    let mut picks: Vec<usize> = Vec::new();
    let mut blocked = false;
    let mut i: usize = 0;
    while i < candidates.len()
        invariant
            i <= candidates@.len(),
            blocked == blocked_before(candidates@, i as int),
            picks@ == picked_positions(candidates@, i as nat),
        decreases candidates@.len() - i,
    {
        let c = candidates[i];
        proof {
            assert(picked_positions(candidates@, (i + 1) as nat) == if picked(candidates@, i as int) {
                picked_positions(candidates@, i as nat).push(i)
            } else {
                picked_positions(candidates@, i as nat)
            });
        }
        if !blocked && c.hit {
            picks.push(i);
            if c.blocks_lower {
                blocked = true;
            }
        }
        proof {
            if blocked_before(candidates@, i as int) {
                let j = choose|j: int|
                    0 <= j < i && #[trigger] candidates@[j].hit && candidates@[j].blocks_lower;
                assert(0 <= j < i + 1 && candidates@[j].hit && candidates@[j].blocks_lower);
            }
            if c.hit && c.blocks_lower {
                assert(candidates@[i as int].hit && candidates@[i as int].blocks_lower);
            }
            if !blocked_before(candidates@, i as int) && !(c.hit && c.blocks_lower) {
                assert forall|j: int| 0 <= j < i + 1 implies !(#[trigger] candidates@[j].hit
                    && candidates@[j].blocks_lower) by {
                    if j < i {
                        assert(!(candidates@[j].hit && candidates@[j].blocks_lower));
                    }
                }
            }
        }
        i = i + 1;
    }
    picks
}

/// Nothing behind a reported blocking entity is reported.
pub proof fn lemma_blocking_hit_hides_the_rest(cs: Seq<PickCandidate>, i: int, j: int)
    requires
        0 <= i < j < cs.len(),
        picked(cs, i),
        cs[i].blocks_lower,
    ensures
        !picked(cs, j),
{
    assert(cs[i].hit && cs[i].blocks_lower);
}

/// With no blocking entities, every hit entity is reported.
pub proof fn lemma_no_blockers_reports_every_hit(cs: Seq<PickCandidate>, i: int)
    requires
        0 <= i < cs.len(),
        cs[i].hit,
        forall|j: int| 0 <= j < cs.len() ==> !(#[trigger] cs[j]).blocks_lower,
    ensures
        picked(cs, i),
{
    if blocked_before(cs, i) {
        let j = choose|j: int| 0 <= j < i && #[trigger] cs[j].hit && cs[j].blocks_lower;
        assert(!cs[j].blocks_lower);
    }
}

} // verus!
