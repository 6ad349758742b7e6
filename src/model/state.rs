use super::types::Direction;
use crate::platform::InputEvent;
use vstd::prelude::*;

verus! {

/// A named speed profile selected by the user at runtime.
#[derive(Debug, Clone, Copy, PartialEq, Eq, Structural)]
pub enum Mode {
    Normal,
    Precise,
    Fast,
}

impl Default for Mode {
    fn default() -> (r: Self)
        ensures
            r == Mode::Normal,
    {
        Mode::Normal
    }
}

/// The set of directional keys currently held, one flag per direction,
/// so that no direction can be held twice.
#[derive(Debug, Clone, Copy, PartialEq, Eq, Structural)]
pub struct DirectionSet {
    pub up: bool,
    pub down: bool,
    pub left: bool,
    pub right: bool,
}

impl DirectionSet {
    pub open spec fn holds(&self, d: Direction) -> bool {
        match d {
            Direction::Up => self.up,
            Direction::Down => self.down,
            Direction::Left => self.left,
            Direction::Right => self.right,
        }
    }

    /// No flag is set.
    pub open spec fn none_held(&self) -> bool {
        !self.up && !self.down && !self.left && !self.right
    }

    /// The empty set.
    pub fn new() -> (r: Self)
        ensures
            r@ == Set::<Direction>::empty(),
            r.none_held(),
    {
        let r = DirectionSet { up: false, down: false, left: false, right: false };
        assert(r@ =~= Set::<Direction>::empty());
        r
    }

    pub fn contains(&self, d: Direction) -> (r: bool)
        ensures
            r == self@.contains(d),
    {
        match d {
            Direction::Up => self.up,
            Direction::Down => self.down,
            Direction::Left => self.left,
            Direction::Right => self.right,
        }
    }

    /// Adds `d`; adding a direction already held changes nothing.
    pub fn insert(&mut self, d: Direction)
        ensures
            final(self)@ == old(self)@.insert(d),
    {
        match d {
            Direction::Up => self.up = true,
            Direction::Down => self.down = true,
            Direction::Left => self.left = true,
            Direction::Right => self.right = true,
        }
        assert(self@ =~= old(self)@.insert(d));
    }

    /// Removes `d`; removing a direction not held changes nothing.
    pub fn remove(&mut self, d: Direction)
        ensures
            final(self)@ == old(self)@.remove(d),
    {
        match d {
            Direction::Up => self.up = false,
            Direction::Down => self.down = false,
            Direction::Left => self.left = false,
            Direction::Right => self.right = false,
        }
        assert(self@ =~= old(self)@.remove(d));
    }

    /// Two sets with the same members are the same value.
    pub proof fn lemma_view_injective(a: DirectionSet, b: DirectionSet)
        requires
            a@ == b@,
        ensures
            a == b,
    {
        assert(a.holds(Direction::Up) == b@.contains(Direction::Up));
        assert(a.holds(Direction::Down) == b@.contains(Direction::Down));
        assert(a.holds(Direction::Left) == b@.contains(Direction::Left));
        assert(a.holds(Direction::Right) == b@.contains(Direction::Right));
    }

    pub fn is_empty(&self) -> (r: bool)
        ensures
            r == (self@ == Set::<Direction>::empty()),
    {
        let r = !self.up && !self.down && !self.left && !self.right;
        if !r {
            let w = if self.up {
                Direction::Up
            } else if self.down {
                Direction::Down
            } else if self.left {
                Direction::Left
            } else {
                Direction::Right
            };
            assert(self@.contains(w));
        } else {
            assert(self@ =~= Set::<Direction>::empty());
        }
        r
    }
}

impl View for DirectionSet {
    type V = Set<Direction>;

    open spec fn view(&self) -> Set<Direction> {
        Set::new(|d: Direction| self.holds(d))
    }
}

/// The unit vector of `d` when it is held, else the zero vector.
pub open spec fn held_unit(dirs: Set<Direction>, d: Direction) -> (int, int) {
    if dirs.contains(d) {
        d.unit()
    } else {
        (0, 0)
    }
}

/// The sum of the unit vectors of all held directions.
pub open spec fn intent_sum(dirs: Set<Direction>) -> (int, int) {
    let u = held_unit(dirs, Direction::Up);
    let d = held_unit(dirs, Direction::Down);
    let l = held_unit(dirs, Direction::Left);
    let r = held_unit(dirs, Direction::Right);
    (u.0 + d.0 + l.0 + r.0, u.1 + d.1 + l.1 + r.1)
}

/// Opposing keys cancel: with Up and Down both held the vertical component
/// of the intent is zero, and with Left and Right both held the horizontal
/// one is; holding exactly one opposing pair gives the zero vector.
pub proof fn lemma_opposing_directions_cancel(dirs: Set<Direction>)
    ensures
        dirs.contains(Direction::Up) && dirs.contains(Direction::Down) ==> intent_sum(dirs).1 == 0,
        dirs.contains(Direction::Left) && dirs.contains(Direction::Right) ==> intent_sum(dirs).0
            == 0,
        dirs == Set::<Direction>::empty().insert(Direction::Up).insert(Direction::Down)
            ==> intent_sum(dirs) == (0int, 0int),
{
}

/// Which directions are held, and the active speed mode.
#[derive(Debug, Clone, Copy, PartialEq, Eq, Structural)]
pub struct InputState {
    pub active_directions: DirectionSet,
    pub mode: Mode,
}

impl InputState {
    /// No direction held, normal mode.
    pub fn new() -> (r: Self)
        ensures
            r.active_directions@ == Set::<Direction>::empty(),
            r.active_directions.none_held(),
            r.mode == Mode::Normal,
    {
        InputState { active_directions: DirectionSet::new(), mode: Mode::Normal }
    }

    pub fn press_direction(&mut self, dir: Direction)
        ensures
            final(self).active_directions@ == old(self).active_directions@.insert(dir),
            final(self).mode == old(self).mode,
    {
        self.active_directions.insert(dir);
    }

    pub fn release_direction(&mut self, dir: Direction)
        ensures
            final(self).active_directions@ == old(self).active_directions@.remove(dir),
            final(self).mode == old(self).mode,
    {
        self.active_directions.remove(dir);
    }

    pub fn set_mode(&mut self, mode: Mode)
        ensures
            final(self).active_directions == old(self).active_directions,
            final(self).mode == mode,
    {
        self.mode = mode;
    }

    /// The sum of the unit vectors of the held directions, before
    /// normalisation: opposing directions cancel.
    pub fn direction_sum(&self) -> (r: (i8, i8))
        ensures
            (r.0 as int, r.1 as int) == intent_sum(self.active_directions@),
    {
        let mut x: i8 = 0;
        let mut y: i8 = 0;
        if self.active_directions.contains(Direction::Up) {
            y = y - 1;
        }
        if self.active_directions.contains(Direction::Down) {
            y = y + 1;
        }
        if self.active_directions.contains(Direction::Left) {
            x = x - 1;
        }
        if self.active_directions.contains(Direction::Right) {
            x = x + 1;
        }
        (x, y)
    }

    /// Whether the held directions give a non-zero intent, that is whether
    /// the normalised input vector has a positive magnitude.
    pub fn has_input(&self) -> (r: bool)
        ensures
            r == (intent_sum(self.active_directions@) != (0int, 0int)),
    {
        let (x, y) = self.direction_sum();
        x != 0 || y != 0
    }
}

/// The full runtime snapshot shared between the input and motion sides.
///
/// `V` is the vector type that carries velocity and position; this library
/// moves it through unchanged and never computes with it.
#[derive(Debug, Clone, Copy)]
pub struct AppState<V> {
    pub active: bool,
    pub emergency_stop: bool,
    pub input: InputState,
    pub velocity: V,
    pub position: V,
}

impl<V> AppState<V> {
    /// Once the emergency latch is set, motion is inactive.
    pub open spec fn wf(&self) -> bool {
        self.emergency_stop ==> !self.active
    }

    /// The state after a toggle: the active flag flips, unless the emergency
    /// latch holds it off.
    pub open spec fn toggled(self) -> Self {
        if self.emergency_stop {
            self
        } else {
            AppState { active: !self.active, ..self }
        }
    }

    /// The state after an emergency stop: latched and inactive.
    pub open spec fn stopped(self) -> Self {
        AppState { active: false, emergency_stop: true, ..self }
    }

    /// The state after one input event.
    pub open spec fn after_event(self, e: InputEvent) -> Self {
        match e {
            InputEvent::DirectionPressed(d) => self.with_held(d, true),
            InputEvent::DirectionReleased(d) => self.with_held(d, false),
            InputEvent::ModeChanged(m) => AppState {
                input: InputState { mode: m, ..self.input },
                ..self
            },
            InputEvent::ToggleActive => self.toggled(),
            InputEvent::EmergencyStop => self.stopped(),
        }
    }

    /// `self` with the flag of direction `d` set to `held`.
    pub open spec fn with_held(self, d: Direction, held: bool) -> Self {
        let ds = self.input.active_directions;
        let ds2 = match d {
            Direction::Up => DirectionSet { up: held, ..ds },
            Direction::Down => DirectionSet { down: held, ..ds },
            Direction::Left => DirectionSet { left: held, ..ds },
            Direction::Right => DirectionSet { right: held, ..ds },
        };
        AppState { input: InputState { active_directions: ds2, ..self.input }, ..self }
    }

    /// The state after the events of `es`, applied first to last.
    pub open spec fn after_events(self, es: Seq<InputEvent>) -> Self
        decreases es.len(),
    {
        if es.len() == 0 {
            self
        } else {
            self.after_event(es[0]).after_events(es.drop_first())
        }
    }

    /// A fresh state: inactive, not stopped, nothing held, normal mode, with
    /// `zero` as velocity and position.
    pub fn new(zero: V) -> (r: Self)
        where
            V: Copy,
        ensures
            !r.active,
            !r.emergency_stop,
            r.input.active_directions@ == Set::<Direction>::empty(),
            r.input.active_directions.none_held(),
            r.input.mode == Mode::Normal,
            r.velocity == zero,
            r.position == zero,
            r.wf(),
    {
        AppState {
            active: false,
            emergency_stop: false,
            input: InputState::new(),
            velocity: zero,
            position: zero,
        }
    }

    /// Flips the active flag; while the emergency latch is set this does nothing.
    pub fn toggle_active(&mut self)
        ensures
            *final(self) == old(self).toggled(),
    {
        if !self.emergency_stop {
            self.active = !self.active;
        }
    }

    /// Sets the one-way emergency latch and deactivates motion in one step.
    pub fn trigger_emergency_stop(&mut self)
        ensures
            *final(self) == old(self).stopped(),
            final(self).emergency_stop,
            !final(self).active,
    {
        self.emergency_stop = true;
        self.active = false;
    }

    /// Applies one input event.
    pub fn apply_event(&mut self, event: InputEvent)
        ensures
            *final(self) == old(self).after_event(event),
    {
        match event {
            InputEvent::DirectionPressed(dir) => {
                self.input.press_direction(dir);
                proof {
                    let want = old(self).with_held(dir, true).input.active_directions;
                    assert(want@ =~= old(self).input.active_directions@.insert(dir));
                    DirectionSet::lemma_view_injective(self.input.active_directions, want);
                }
            },
            InputEvent::DirectionReleased(dir) => {
                self.input.release_direction(dir);
                proof {
                    let want = old(self).with_held(dir, false).input.active_directions;
                    assert(want@ =~= old(self).input.active_directions@.remove(dir));
                    DirectionSet::lemma_view_injective(self.input.active_directions, want);
                }
            },
            InputEvent::ModeChanged(mode) => {
                self.input.set_mode(mode);
            },
            InputEvent::ToggleActive => {
                self.toggle_active();
            },
            InputEvent::EmergencyStop => {
                self.trigger_emergency_stop();
            },
        }
    }

    /// Applies the events of `events` in order, first to last.
    pub fn apply_events(&mut self, events: &Vec<InputEvent>)
        ensures
            *final(self) == old(self).after_events(events@),
    {
        let mut i: usize = 0;
        assert(events@.skip(0) =~= events@);
        while i < events.len()
            invariant
                0 <= i <= events.len(),
                old(self).after_events(events@) == self.after_events(events@.skip(i as int)),
            decreases events.len() - i,
        {
            proof {
                assert(events@.skip(i as int).drop_first() =~= events@.skip(i + 1));
            }
            self.apply_event(events[i]);
            i = i + 1;
        }
        assert(events@.skip(i as int) =~= Seq::<InputEvent>::empty());
    }
}

/// Triggering the emergency stop twice leaves the same state as once, and
/// the result is always latched and inactive.
pub proof fn lemma_emergency_stop_idempotent<V>(s: AppState<V>)
    ensures
        s.stopped().stopped() == s.stopped(),
        s.stopped().emergency_stop,
        !s.stopped().active,
{
}

/// No sequence of events clears the emergency latch, and a well-formed state
/// stays well-formed under every sequence of events.
pub proof fn lemma_latch_never_clears<V>(s: AppState<V>, es: Seq<InputEvent>)
    ensures
        s.emergency_stop ==> s.after_events(es).emergency_stop,
        s.wf() ==> s.after_events(es).wf(),
    decreases es.len(),
{
    if es.len() > 0 {
        lemma_latch_never_clears(s.after_event(es[0]), es.drop_first());
    }
}

} // verus!
