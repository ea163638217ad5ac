use bevy_vello::picking::{pick_hits, PickCandidate};

fn c(hit: bool, blocks_lower: bool) -> PickCandidate {
    PickCandidate { hit, blocks_lower }
}

#[test]
fn blocking_hit_ends_the_picks() {
    let cs = vec![c(false, true), c(true, false), c(true, true), c(true, false), c(true, true)];
    assert_eq!(pick_hits(&cs), vec![1, 2]);
}

#[test]
fn without_blockers_every_hit_is_picked() {
    let cs = vec![c(true, false), c(false, false), c(true, false)];
    assert_eq!(pick_hits(&cs), vec![0, 2]);
}

#[test]
fn a_missed_blocker_blocks_nothing() {
    let cs = vec![c(false, true), c(true, true)];
    assert_eq!(pick_hits(&cs), vec![1]);
    assert!(pick_hits(&vec![]).is_empty());
}
