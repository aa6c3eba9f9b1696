//! Global laws of the simulation, stated and proved once: determinism of
//! whole runs, the difficulty curve's shape, and completeness of culling.

use vstd::prelude::*;
use crate::field::{
    FieldModel, step_model, gap_for, gap_reduction, live_rect, GAP_START_UNITS, GAP_TICK_FRAMES,
    GAP_MAX_TICKS,
};
use crate::fxpt::FIXED_POINT_DIVISOR;

verus! {

/// The state after feeding `live` to a field tick by tick, in order: each
/// tick steps the simulation with its input bit unless the field is already
/// dead, in which case the state no longer changes.
pub open spec fn run_model(m: FieldModel, live: Seq<bool>) -> FieldModel
    decreases live.len(),
{
    if live.len() == 0 {
        m
    } else {
        let m1 = if m.dead {
            m
        } else {
            step_model(m, live[0])
        };
        run_model(m1, live.subrange(1, live.len() as int))
    }
}

/// Determinism: runs from equal states over equal input sequences end in
/// equal states — player trajectory, wall and obstacle layout, and the
/// frame the field dies on are functions of the seed and the inputs alone.
pub proof fn lemma_run_deterministic(
    m1: FieldModel,
    m2: FieldModel,
    live1: Seq<bool>,
    live2: Seq<bool>,
)
    requires
        m1 == m2,
        live1 == live2,
    ensures
        run_model(m1, live1) == run_model(m2, live2),
{
}

/// The gap between a wall pair never widens as physics frames pass.
pub proof fn lemma_gap_monotonic(pf1: u64, pf2: u64)
    requires
        pf1 <= pf2,
    ensures
        gap_for(pf2) <= gap_for(pf1),
{
    vstd::arithmetic::div_mod::lemma_div_is_ordered(
        pf1 as int,
        pf2 as int,
        GAP_TICK_FRAMES as int,
    );
}

/// The gap never shrinks below its fixed minimum, and once enough frames
/// have passed it sits exactly there.
pub proof fn lemma_gap_minimum(pf: u64)
    ensures
        gap_for(pf) >= (GAP_START_UNITS as int - GAP_MAX_TICKS as int) * FIXED_POINT_DIVISOR
            as int,
        pf >= GAP_MAX_TICKS * GAP_TICK_FRAMES ==> gap_for(pf) == (GAP_START_UNITS as int
            - GAP_MAX_TICKS as int) * FIXED_POINT_DIVISOR as int,
{
    assert(gap_reduction(pf) <= GAP_MAX_TICKS as int);
    if pf >= GAP_MAX_TICKS * GAP_TICK_FRAMES {
        vstd::arithmetic::div_mod::lemma_div_is_ordered(
            (GAP_MAX_TICKS * GAP_TICK_FRAMES) as int,
            pf as int,
            GAP_TICK_FRAMES as int,
        );
        vstd::arithmetic::div_mod::lemma_div_multiples_vanish(
            GAP_MAX_TICKS as int,
            GAP_TICK_FRAMES as int,
        );
        assert((GAP_MAX_TICKS * GAP_TICK_FRAMES) as int == (GAP_TICK_FRAMES as int) * (
        GAP_MAX_TICKS as int)) by (nonlinear_arith);
    }
}

/// Culling is exact: after any step, every wall and obstacle still held
/// satisfies `x + width > 0`, so nothing that has fully left the field
/// survives the step that culled it.
pub proof fn lemma_step_culled(m: FieldModel, live: bool)
    ensures
        forall|i: int| 0 <= i < step_model(m, live).walls.len() ==> live_rect(
            #[trigger] step_model(m, live).walls[i],
        ),
        forall|i: int| 0 <= i < step_model(m, live).obstacles.len() ==> live_rect(
            #[trigger] step_model(m, live).obstacles[i],
        ),
{
    broadcast use vstd::seq_lib::group_filter_ensures;

}

} // verus!
