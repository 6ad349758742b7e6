use super::state::{intent_sum, AppState, Mode};
use crate::text::same_text;
use vstd::prelude::*;

verus! {

/// The shape of the curve that maps input magnitude to a speed factor.
#[derive(Debug, Clone, Copy, PartialEq, Eq, Structural)]
pub enum CurveKind {
    Sigmoid,
    Exponential,
    Linear,
}

/// The curve a configured name selects: any name other than `sigmoid` and
/// `exponential` falls back to the identity curve.
pub open spec fn curve_kind_of(name: Seq<char>) -> CurveKind {
    if name == "sigmoid"@ {
        CurveKind::Sigmoid
    } else if name == "exponential"@ {
        CurveKind::Exponential
    } else {
        CurveKind::Linear
    }
}

impl CurveKind {
    pub fn from_name(name: &str) -> (r: CurveKind)
        ensures
            r == curve_kind_of(name@),
    {
        if same_text(name, "sigmoid") {
            CurveKind::Sigmoid
        } else if same_text(name, "exponential") {
            CurveKind::Exponential
        } else {
            CurveKind::Linear
        }
    }
}

/// The velocity multiplier of each mode, in hundredths.
///
/// These are fixed values: the multipliers that a configuration file may
/// declare per mode are not consulted.
pub open spec fn multiplier_percent_of(mode: Mode) -> u32 {
    match mode {
        Mode::Normal => 100,
        Mode::Precise => 30,
        Mode::Fast => 250,
    }
}

pub fn mode_multiplier_percent(mode: Mode) -> (r: u32)
    ensures
        r == multiplier_percent_of(mode),
{
    match mode {
        Mode::Normal => 100,
        Mode::Precise => 30,
        Mode::Fast => 250,
    }
}

/// What one motion tick has to compute.
#[derive(Debug, Clone, Copy, PartialEq, Eq, Structural)]
pub enum TickPlan {
    /// Inactive or stopped: velocity and position delta are both zero.
    Halt,
    /// No net input: ease towards rest, then apply friction.
    Coast,
    /// Ease towards the target velocity along the summed direction `(x, y)`
    /// (to be normalised), scaled by the mode multiplier.
    Drive { x: i8, y: i8, multiplier_percent: u32 },
}

/// The plan of a tick on `state`.
pub open spec fn plan_of<V>(state: AppState<V>) -> TickPlan {
    if !state.active || state.emergency_stop {
        TickPlan::Halt
    } else if intent_sum(state.input.active_directions@) == (0int, 0int) {
        TickPlan::Coast
    } else {
        let s = intent_sum(state.input.active_directions@);
        TickPlan::Drive {
            x: s.0 as i8,
            y: s.1 as i8,
            multiplier_percent: multiplier_percent_of(state.input.mode),
        }
    }
}

/// Decides what a tick on `state` computes. An inactive or stopped state
/// halts whatever is held and however much time has passed.
pub fn plan_tick<V>(state: &AppState<V>) -> (r: TickPlan)
    ensures
        r == plan_of(*state),
        (!state.active || state.emergency_stop) ==> r == TickPlan::Halt,
        r matches TickPlan::Drive { x, y, .. } ==> (x as int, y as int) == intent_sum(
            state.input.active_directions@,
        ),
{
    if !state.active || state.emergency_stop {
        return TickPlan::Halt;
    }
    let (x, y) = state.input.direction_sum();
    if x == 0 && y == 0 {
        TickPlan::Coast
    } else {
        TickPlan::Drive { x, y, multiplier_percent: mode_multiplier_percent(state.input.mode) }
    }
}

} // verus!
