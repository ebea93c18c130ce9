//! Scoring: a streak combo drives a capped multiplier on the per-kind base
//! score of each block destroyed by a ball.

use vstd::prelude::*;
use crate::kinds::BlockKind;

verus! {

/// Combo multiplier in tenths: 10 (x1.0) up to a streak of one, then one
/// extra tenth per combo step, capped at 30 (x3.0) from a streak of 21 on.
pub open spec fn spec_combo_multiplier_tenths(combo: u32) -> u32 {
    if combo <= 1 {
        10u32
    } else if combo >= 22 {
        30u32
    } else {
        (9 + combo) as u32
    }
}

/// Combo multiplier in tenths of the base score.
pub fn combo_multiplier_tenths(combo: u32) -> (r: u32)
    ensures
        r == spec_combo_multiplier_tenths(combo),
        10 <= r <= 30,
{
    if combo <= 1 {
        10
    } else if combo >= 22 {
        30
    } else {
        9 + combo
    }
}

/// Points awarded for destroying a block of `kind` with a streak of `combo`
/// damaging hits: the kind's base score times the capped combo multiplier,
/// truncated to whole points.
pub open spec fn spec_score_for_break(kind: BlockKind, combo: u32) -> u64 {
    (kind.spec_base_score() * spec_combo_multiplier_tenths(combo) / 10) as u64
}

/// Points awarded for destroying a block of `kind` with a streak of `combo`.
pub fn score_for_break(kind: BlockKind, combo: u32) -> (r: u64)
    ensures
        r == spec_score_for_break(kind, combo),
        kind.spec_base_score() <= r <= 3 * kind.spec_base_score(),
{
    let base = kind.base_score();
    let tenths = combo_multiplier_tenths(combo);
    assert(base <= 50 && tenths <= 30);
    base * (tenths as u64) / 10
}

} // verus!
