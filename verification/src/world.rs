//! The things in the world that answer the select input besides sockets
//! and combiner: the tutorial switch and the bed.

use vstd::prelude::*;

verus! {

/// The frame of the switch's picture while the player is away.
pub const SWITCH_IDLE: usize = 0;

/// The frame of the switch's picture while the player can throw it.
pub const SWITCH_LIT: usize = 1;

/// The frame of the switch's picture once it is thrown.
pub const SWITCH_THROWN: usize = 2;

/// The switch that opens the tutorial wall.
#[derive(Clone, Copy, PartialEq, Eq, Structural, Debug)]
pub struct TutorialSwitch {
    /// Whether the switch was thrown.
    pub triggered: bool,
    /// The frame of its picture that is shown.
    pub index: usize,
}

impl Default for TutorialSwitch {
    fn default() -> (r: TutorialSwitch)
        ensures
            r == (TutorialSwitch { triggered: false, index: SWITCH_IDLE }),
    {
        TutorialSwitch { triggered: false, index: SWITCH_IDLE }
    }
}

impl TutorialSwitch {
    /// The switch after the highlight pass: a thrown switch stays as it is,
    /// any other is lit exactly while the player is within reach.
    pub open spec fn after_highlight(self, in_reach: bool) -> TutorialSwitch {
        if self.triggered {
            self
        } else {
            TutorialSwitch {
                index: if in_reach {
                    SWITCH_LIT
                } else {
                    SWITCH_IDLE
                },
                ..self
            }
        }
    }

    /// Whether the select input throws the switch: it does while the switch
    /// is lit.
    pub open spec fn throws(self, select_socket: bool) -> bool {
        select_socket && self.index == SWITCH_LIT
    }

    /// The switch after the select input.
    pub open spec fn after_trigger(self, select_socket: bool) -> TutorialSwitch {
        if self.throws(select_socket) {
            TutorialSwitch { triggered: true, index: SWITCH_THROWN }
        } else {
            self
        }
    }
}

/// Lights the switch up while the player is within reach.
pub fn highlight_tutorial_switch(switch: &mut TutorialSwitch, in_reach: bool)
    ensures
        *final(switch) == old(switch).after_highlight(in_reach),
{
    if switch.triggered {
        return ;
    }
    let index = if in_reach {
        SWITCH_LIT
    } else {
        SWITCH_IDLE
    };
    switch.index = index;
}

/// Throws the lit-up switch on the select input. Returns whether it was
/// thrown just now: then the tutorial wall falls.
pub fn trigger_tutorial_switch(switch: &mut TutorialSwitch, select_socket: bool) -> (thrown: bool)
    ensures
        thrown == old(switch).throws(select_socket),
        *final(switch) == old(switch).after_trigger(select_socket),
{
    if !select_socket {
        return false;
    }
    if switch.index == SWITCH_LIT {
        switch.triggered = true;
        switch.index = SWITCH_THROWN;
        true
    } else {
        false
    }
}

/// A switch is thrown once: after that neither the player's coming and
/// going nor the select input changes it, and the wall does not fall a
/// second time.
pub proof fn thrown_switch_stays_thrown(switch: TutorialSwitch, in_reach: bool, select_socket: bool)
    requires
        switch.throws(true),
    ensures
        switch.after_trigger(true).after_highlight(in_reach) == switch.after_trigger(true),
        !switch.after_trigger(true).throws(select_socket),
        switch.after_trigger(true).after_trigger(select_socket) == switch.after_trigger(true),
{
}

/// What the bed shows and does in one frame: whether it is lit up, whether
/// the player has gone to bed by now, and whether they went just now. The
/// bed is lit while the player is within reach and has not gone to bed;
/// the select input at the lit-up bed sends them there.
pub open spec fn bed_step(selected: bool, in_reach: bool, select_socket: bool) -> (
    bool,
    bool,
    bool,
) {
    let lit = !selected && in_reach;
    (lit, selected || (lit && select_socket), lit && select_socket)
}

/// Lights the bed up and sends the player to bed on the select input.
/// `selected` remembers between frames that the player has gone to bed.
/// Returns whether the bed is lit up, and whether the player went to bed
/// just now.
pub fn highlight_and_select_bed(selected: &mut bool, in_reach: bool, select_socket: bool) -> (r: (
    bool,
    bool,
))
    ensures
        (r.0, *final(selected), r.1) == bed_step(*old(selected), in_reach, select_socket),
{
    if !*selected && in_reach {
        if select_socket {
            *selected = true;
            (true, true)
        } else {
            (true, false)
        }
    } else {
        (false, false)
    }
}

/// The player goes to bed once: after that the bed stays dark and the
/// select input does nothing.
pub proof fn player_goes_to_bed_once(in_reach: bool, select_socket: bool)
    ensures
        bed_step(true, in_reach, select_socket) == (false, true, false),
{
}

} // verus!
