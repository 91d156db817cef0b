use vstd::prelude::*;

verus! {

/// Points for each collected thought.
pub const COLLECT_POINTS: u32 = 10000;

/// Points for each finished merge cutscene.
pub const MERGE_POINTS: u32 = 100000;

/// The score plus `points`, held at `u32::MAX` rather than wrapping.
pub open spec fn credited(score: u32, points: int) -> u32 {
    if score + points > u32::MAX {
        u32::MAX
    } else {
        (score + points) as u32
    }
}

/// One fixed-rate tick of survival earns a point.
pub fn tick_counter(score: u32) -> (r: u32)
    ensures
        r == credited(score, 1),
{
    score.saturating_add(1)
}

/// The score after a frame's collected thoughts and finished merges.
pub fn add_event_scores(score: u32, collected: u32, merged: u32) -> (r: u32)
    ensures
        r == credited(score, collected * COLLECT_POINTS + merged * MERGE_POINTS),
{
    proof {
        assert(collected * COLLECT_POINTS <= 0xffff_ffff * 10000) by (nonlinear_arith)
            requires
                collected <= 0xffff_ffff,
        ;
        assert(merged * MERGE_POINTS <= 0xffff_ffff * 100000) by (nonlinear_arith)
            requires
                merged <= 0xffff_ffff,
        ;
    }
    let c = (collected as u64) * (COLLECT_POINTS as u64);
    let m = (merged as u64) * (MERGE_POINTS as u64);
    let total = (score as u64) + c + m;
    if total > u32::MAX as u64 {
        u32::MAX
    } else {
        total as u32
    }
}

} // verus!
