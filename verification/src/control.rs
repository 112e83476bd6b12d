//! Who steers the paddle: the knob or the two buttons. The knob takes over
//! when it is turned; a button press takes over when no knob is connected.

use vstd::prelude::*;

verus! {

/// What the controls read this frame.
pub struct Controls {
    /// A knob is connected and gave a reading.
    pub knob_present: bool,
    /// A knob was connected and gave a reading last frame.
    pub knob_was_present: bool,
    /// Both readings exist and differ by more than the knob's slack.
    pub knob_moved: bool,
    /// Button A (left) is pressed.
    pub button_a: bool,
    /// Button B (right) is pressed.
    pub button_b: bool,
    /// The button-set paddle position is above 0.1, so it can move left.
    pub room_left: bool,
    /// The button-set paddle position is below 0.9, so it can move right.
    pub room_right: bool,
}

/// Which way the buttons move the paddle position they set.
#[derive(Debug, PartialEq, Eq, Structural)]
pub enum Nudge {
    /// The position stays.
    Stay,
    /// The position moves a tenth of the field left.
    Left,
    /// The position moves a tenth of the field right.
    Right,
}

/// What the frame's controls decided.
pub struct Steering {
    /// The knob steers the paddle.
    pub knob_active: bool,
    /// How the buttons move their paddle position.
    pub nudge: Nudge,
    /// The button-set paddle position jumps to the knob's reading.
    pub follow_knob: bool,
}

/// Whether the knob steers after this frame's readings: a knob read twice
/// running decides by whether it moved; otherwise control stays where it
/// was, except that a button press with no knob hands it to the buttons.
pub open spec fn spec_knob_active(active: bool, c: Controls) -> bool {
    let turned = if c.knob_present && c.knob_was_present {
        c.knob_moved
    } else {
        active
    };
    if (c.button_a || c.button_b) && !c.knob_present {
        false
    } else {
        turned
    }
}

/// How the buttons move their paddle position: button B wins over button A,
/// and neither moves it past the edge it is up against.
pub open spec fn spec_nudge(c: Controls) -> Nudge {
    if c.button_b && c.room_right {
        Nudge::Right
    } else if c.button_a && c.room_left {
        Nudge::Left
    } else {
        Nudge::Stay
    }
}

/// Decides, from whether the knob was steering and this frame's readings,
/// who steers now and how the button-set paddle position moves.
pub fn steer(knob_active: bool, c: &Controls) -> (s: Steering)
    ensures
        s.knob_active == spec_knob_active(knob_active, *c),
        s.nudge == spec_nudge(*c),
        s.follow_knob == (s.knob_active && c.knob_present),
{
    let mut active = knob_active;
    if c.knob_present && c.knob_was_present {
        active = c.knob_moved;
    }
    let mut nudge = Nudge::Stay;
    if c.button_a {
        if !c.knob_present {
            active = false;
        }
        if c.room_left {
            nudge = Nudge::Left;
        }
    }
    if c.button_b {
        if !c.knob_present {
            active = false;
        }
        if c.room_right {
            nudge = Nudge::Right;
        }
    }
    Steering { knob_active: active, nudge, follow_knob: active && c.knob_present }
}

/// With no knob connected, a button press hands the paddle to the buttons,
/// and once the buttons steer, the knob takes the paddle back only by being
/// read twice running and turned.
pub proof fn buttons_take_over_without_knob(active: bool, c: Controls)
    ensures
        (c.button_a || c.button_b) && !c.knob_present ==> !spec_knob_active(active, c),
        !active && spec_knob_active(active, c) ==> c.knob_present && c.knob_was_present
            && c.knob_moved,
{
}

/// A frame in which nothing is pressed and the knob is not read twice
/// running leaves control where it was and the paddle position where it was.
pub proof fn idle_frame_changes_nothing(active: bool, c: Controls)
    requires
        !c.button_a,
        !c.button_b,
        !(c.knob_present && c.knob_was_present),
    ensures
        spec_knob_active(active, c) == active,
        spec_nudge(c) == Nudge::Stay,
{
}

/// A knob read this frame and last frame and turned steers after the
/// frame, whoever steered before; read twice running and not turned, it
/// hands the paddle to the buttons.
pub proof fn turned_knob_steers(active: bool, c: Controls)
    requires
        c.knob_present,
        c.knob_was_present,
    ensures
        c.knob_moved ==> spec_knob_active(active, c),
        !c.knob_moved ==> !spec_knob_active(active, c),
{
}

/// The buttons never move their paddle position past an edge it is up
/// against: a move right needs button B and room on the right, a move left
/// needs button A and room on the left; button B with room on the right
/// always moves right, and button A with room on the left moves left unless
/// that happens.
pub proof fn nudge_respects_edges(c: Controls)
    ensures
        spec_nudge(c) == Nudge::Right ==> c.button_b && c.room_right,
        spec_nudge(c) == Nudge::Left ==> c.button_a && c.room_left,
        c.button_b && c.room_right ==> spec_nudge(c) == Nudge::Right,
        c.button_a && c.room_left && !(c.button_b && c.room_right) ==> spec_nudge(c)
            == Nudge::Left,
        !(c.button_a && c.room_left) && !(c.button_b && c.room_right) ==> spec_nudge(c)
            == Nudge::Stay,
{
}

} // verus!
