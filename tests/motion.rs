use kact::model::motion::{mode_multiplier_percent, plan_tick, CurveKind, TickPlan};
use kact::model::state::{AppState, Mode};
use kact::model::types::Direction;

fn fresh() -> AppState<(f64, f64)> {
    AppState::new((0.0, 0.0))
}

#[test]
fn inactive_state_halts_whatever_is_held() {
    let mut s = fresh();
    s.input.press_direction(Direction::Right);
    s.velocity = (500.0, 0.0);
    assert_eq!(plan_tick(&s), TickPlan::Halt);
}

#[test]
fn stopped_state_halts() {
    let mut s = fresh();
    s.toggle_active();
    s.input.press_direction(Direction::Down);
    s.trigger_emergency_stop();
    assert_eq!(plan_tick(&s), TickPlan::Halt);
}

#[test]
fn active_without_input_coasts() {
    let mut s = fresh();
    s.toggle_active();
    assert_eq!(plan_tick(&s), TickPlan::Coast);
    s.input.press_direction(Direction::Left);
    s.input.press_direction(Direction::Right);
    assert_eq!(plan_tick(&s), TickPlan::Coast);
}

#[test]
fn active_with_input_drives() {
    let mut s = fresh();
    s.toggle_active();
    s.input.press_direction(Direction::Right);
    assert_eq!(plan_tick(&s), TickPlan::Drive { x: 1, y: 0, multiplier_percent: 100 });
    s.input.set_mode(Mode::Fast);
    s.input.press_direction(Direction::Up);
    assert_eq!(plan_tick(&s), TickPlan::Drive { x: 1, y: -1, multiplier_percent: 250 });
}

#[test]
fn mode_multipliers() {
    assert_eq!(mode_multiplier_percent(Mode::Normal), 100);
    assert_eq!(mode_multiplier_percent(Mode::Precise), 30);
    assert_eq!(mode_multiplier_percent(Mode::Fast), 250);
}

#[test]
fn curve_names() {
    assert_eq!(CurveKind::from_name("sigmoid"), CurveKind::Sigmoid);
    assert_eq!(CurveKind::from_name("exponential"), CurveKind::Exponential);
    assert_eq!(CurveKind::from_name("linear"), CurveKind::Linear);
    assert_eq!(CurveKind::from_name("cubic"), CurveKind::Linear);
    assert_eq!(CurveKind::from_name(""), CurveKind::Linear);
    assert_eq!(CurveKind::from_name("Sigmoid"), CurveKind::Linear);
}
