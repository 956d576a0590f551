//! Logical input actions and per-frame edge detection. An external input
//! mapper samples the device once per rendered frame and hands this module
//! the raw pressed levels; the tracker keeps the previous frame's levels so
//! that `just_pressed` reports exactly the inactive-to-active transitions.

use vstd::prelude::*;

verus! {

/// A logical input action, decoupled from the physical key bound to it.
#[derive(Clone, Copy, Debug, PartialEq, Eq, Structural)]
pub enum Action {
    Right,
    Left,
    Up,
    Down,
    Shoot,
}

/// The pressed level of every action during one rendered frame, as sampled
/// by the external input mapper.
#[derive(Clone, Copy, Debug, PartialEq, Eq, Structural, Default)]
pub struct ActionFrame {
    pub right: bool,
    pub left: bool,
    pub up: bool,
    pub down: bool,
    pub shoot: bool,
}

impl ActionFrame {
    /// The level of one action in this frame.
    pub open spec fn spec_level(self, a: Action) -> bool {
        match a {
            Action::Right => self.right,
            Action::Left => self.left,
            Action::Up => self.up,
            Action::Down => self.down,
            Action::Shoot => self.shoot,
        }
    }

    /// All actions at rest.
    pub open spec fn spec_idle() -> ActionFrame {
        ActionFrame { right: false, left: false, up: false, down: false, shoot: false }
    }

    /// A frame with every action inactive.
    pub fn idle() -> (f: ActionFrame)
        ensures
            f == ActionFrame::spec_idle(),
    {
        ActionFrame { right: false, left: false, up: false, down: false, shoot: false }
    }

    /// Reads the level of one action in this frame.
    pub fn level(&self, a: Action) -> (b: bool)
        ensures
            b == self.spec_level(a),
    {
        match a {
            Action::Right => self.right,
            Action::Left => self.left,
            Action::Up => self.up,
            Action::Down => self.down,
            Action::Shoot => self.shoot,
        }
    }
}

/// An action rises when it is active now but was inactive in the previous
/// frame: the edge that `just_pressed` reports.
pub open spec fn rises(previous: bool, current: bool) -> bool {
    current && !previous
}

/// Per-entity action state: the current frame's levels plus the previous
/// frame's, refreshed once per rendered frame, exposing the two pure queries
/// `pressed` and `just_pressed`.
#[derive(Clone, Copy, Debug, PartialEq, Eq, Structural, Default)]
pub struct ActionState {
    pub previous: ActionFrame,
    pub current: ActionFrame,
}

impl ActionState {
    /// The state this tracker holds after one more sampled frame.
    pub open spec fn spec_advanced(self, frame: ActionFrame) -> ActionState {
        ActionState { previous: self.current, current: frame }
    }

    /// Whether `a` is active in the current frame.
    pub open spec fn spec_pressed(self, a: Action) -> bool {
        self.current.spec_level(a)
    }

    /// Whether `a` rose from inactive to active with the current frame.
    pub open spec fn spec_just_pressed(self, a: Action) -> bool {
        rises(self.previous.spec_level(a), self.current.spec_level(a))
    }

    /// A fresh tracker: every action inactive in both remembered frames.
    pub fn new() -> (s: ActionState)
        ensures
            s.previous == ActionFrame::spec_idle(),
            s.current == ActionFrame::spec_idle(),
            forall|a: Action| !s.spec_pressed(a) && !s.spec_just_pressed(a),
    {
        ActionState { previous: ActionFrame::idle(), current: ActionFrame::idle() }
    }

    /// Takes the next sampled frame: the current levels become the previous
    /// ones, and the sample becomes current.
    pub fn advance(&mut self, frame: ActionFrame)
        ensures
            *final(self) == old(self).spec_advanced(frame),
    {
        self.previous = self.current;
        self.current = frame;
    }

    /// Whether `a` is active in the current frame (level query).
    pub fn pressed(&self, a: Action) -> (b: bool)
        ensures
            b == self.spec_pressed(a),
    {
        self.current.level(a)
    }

    /// Whether `a` became active with the current frame (edge query): true
    /// only on the frame of an inactive-to-active transition, never while
    /// the action merely stays held.
    pub fn just_pressed(&self, a: Action) -> (b: bool)
        ensures
            b == self.spec_just_pressed(a),
            b == rises(self.previous.spec_level(a), self.current.spec_level(a)),
    {
        self.current.level(a) && !self.previous.level(a)
    }
}

/// The level an action shows after `levels` have been fed to a tracker whose
/// current level was `initial`: the last fed level, or `initial` when none
/// was fed yet.
pub open spec fn last_level(initial: bool, levels: Seq<bool>) -> bool {
    if levels.len() == 0 {
        initial
    } else {
        levels.last()
    }
}

/// How many notifications a tracker fires over a run: starting from current
/// level `initial`, the levels of `levels` are fed one frame at a time, and
/// a notification fires on every frame whose level rises.
pub open spec fn rise_count(initial: bool, levels: Seq<bool>) -> nat
    decreases levels.len(),
{
    if levels.len() == 0 {
        0
    } else {
        rise_count(initial, levels.drop_last()) + if rises(
            last_level(initial, levels.drop_last()),
            levels.last(),
        ) {
            1nat
        } else {
            0nat
        }
    }
}

/// Law: an edge fires once per press, on the transition frame itself. A
/// frame whose level is active while the action was already active fires
/// nothing, however long the key stays held.
pub proof fn law_held_frame_fires_nothing(initial: bool, levels: Seq<bool>)
    requires
        last_level(initial, levels),
    ensures
        rise_count(initial, levels.push(true)) == rise_count(initial, levels),
{
    assert(levels.push(true).drop_last() =~= levels);
}

/// Law: a frame whose level turns active while the action rested fires
/// exactly one notification.
pub proof fn law_press_fires_once(initial: bool, levels: Seq<bool>)
    requires
        !last_level(initial, levels),
    ensures
        rise_count(initial, levels.push(true)) == rise_count(initial, levels) + 1,
{
    assert(levels.push(true).drop_last() =~= levels);
}

/// Law: releasing never fires a notification.
pub proof fn law_release_fires_nothing(initial: bool, levels: Seq<bool>)
    ensures
        rise_count(initial, levels.push(false)) == rise_count(initial, levels),
{
    assert(levels.push(false).drop_last() =~= levels);
}

/// Law: a release followed by a new press fires exactly one more
/// notification than the run before it, whatever came before.
pub proof fn law_release_then_press_fires_once(initial: bool, levels: Seq<bool>)
    ensures
        rise_count(initial, levels.push(false).push(true)) == rise_count(initial, levels) + 1,
{
    law_release_fires_nothing(initial, levels);
    assert(!last_level(initial, levels.push(false)));
    law_press_fires_once(initial, levels.push(false));
}

/// Law: pressing from rest and then holding for any number of further
/// frames — any nonempty run of active levels — fires exactly one
/// notification over the whole run.
pub proof fn law_press_then_hold_fires_once(levels: Seq<bool>)
    requires
        levels.len() >= 1,
        forall|i: int| 0 <= i < levels.len() ==> levels[i],
    ensures
        rise_count(false, levels) == 1,
    decreases levels.len(),
{
    let d = levels.drop_last();
    assert(levels.last() == levels[levels.len() - 1]);
    if levels.len() == 1 {
        assert(rise_count(false, d) == 0);
        assert(!last_level(false, d));
        assert(rises(false, levels.last()));
    } else {
        assert forall|i: int| 0 <= i < d.len() implies d[i] by {
            assert(d[i] == levels[i]);
        }
        law_press_then_hold_fires_once(d);
        assert(last_level(false, d) == levels[levels.len() - 2]);
        assert(!rises(last_level(false, d), levels.last()));
    }
}

} // verus!
