//! The combiner station: the two staged operands, the preview of what they
//! would combine to, and the confirmation that turns the preview into a
//! discovery.

use crate::aspect::Aspect;
use crate::combination::{aspect_combinations, combine};
use crate::socket::{all_full, PlacedSocket};
use vstd::prelude::*;

verus! {

/// Announces that a combination was confirmed. It carries nothing: the
/// result is the combiner's `last_combined_aspect`.
#[derive(Clone, Copy, PartialEq, Eq, Structural, Debug)]
pub struct CombinedAspect;

/// The sound that answers a selection.
#[derive(Clone, Copy, PartialEq, Eq, Structural, Debug)]
pub enum SelectionCue {
    /// A socket's aspect was staged.
    Select,
    /// The staged aspect was taken back.
    Deselect,
}

/// What the preview icon above the combiner has to do.
#[derive(Clone, Copy, PartialEq, Eq, Structural, Debug)]
pub enum PreviewAction {
    /// Nothing changes.
    Keep,
    /// The icon is already up; it shows this aspect.
    Update(Aspect),
    /// The icon shows this aspect and rises into view.
    Reveal(Aspect),
    /// The icon sinks out of view.
    Conceal,
}

/// The selection state of the combiner station.
#[derive(Clone, Copy, PartialEq, Eq, Structural, Debug)]
pub struct Combiner {
    /// The operand staged from a socket on top.
    pub left_aspect: Option<Aspect>,
    /// The operand staged from a socket at the bottom.
    pub right_aspect: Option<Aspect>,
    /// What the two staged operands would combine to, as last previewed.
    pub current_combination: Option<Aspect>,
    /// The result of the most recent confirmed combination.
    pub last_combined_aspect: Aspect,
    /// Whether every socket holds an aspect: the game's terminal condition.
    pub all_sockets_full: bool,
}

impl Default for Combiner {
    fn default() -> (r: Combiner)
        ensures
            r == Combiner::initial(),
    {
        Combiner {
            left_aspect: None,
            right_aspect: None,
            current_combination: None,
            last_combined_aspect: Aspect::NotImplemented,
            all_sockets_full: false,
        }
    }
}

impl Combiner {
    /// The combiner at game start: nothing staged, nothing combined yet.
    pub open spec fn initial() -> Combiner {
        Combiner {
            left_aspect: None,
            right_aspect: None,
            current_combination: None,
            last_combined_aspect: Aspect::NotImplemented,
            all_sockets_full: false,
        }
    }

    /// The operand staged for one side.
    pub open spec fn staged(self, on_top: bool) -> Option<Aspect> {
        if on_top {
            self.left_aspect
        } else {
            self.right_aspect
        }
    }

    /// The same combiner with another operand staged for one side.
    pub open spec fn with_staged(self, on_top: bool, staged: Option<Aspect>) -> Combiner {
        if on_top {
            Combiner { left_aspect: staged, ..self }
        } else {
            Combiner { right_aspect: staged, ..self }
        }
    }

    /// Whether both operands are staged.
    pub open spec fn both_staged(self) -> bool {
        self.left_aspect is Some && self.right_aspect is Some
    }

    /// What the staged operands combine to. Meaningful while both are
    /// staged.
    pub open spec fn prospect(self) -> Aspect {
        combine(self.left_aspect->0, self.right_aspect->0)
    }
}

/// The combiner, the icon's visibility and the icon's task after one
/// frame's preview. Without an icon in the world nothing happens. With both
/// operands staged the preview is what they combine to, and the icon is
/// up; otherwise the icon is down.
pub open spec fn preview_step(combiner: Combiner, icon_present: bool, visible: bool) -> (
    Combiner,
    bool,
    PreviewAction,
) {
    if !icon_present {
        (combiner, visible, PreviewAction::Keep)
    } else if combiner.both_staged() {
        (
            Combiner { current_combination: Some(combiner.prospect()), ..combiner },
            true,
            if visible {
                PreviewAction::Update(combiner.prospect())
            } else {
                PreviewAction::Reveal(combiner.prospect())
            },
        )
    } else {
        (
            combiner,
            false,
            if visible {
                PreviewAction::Conceal
            } else {
                PreviewAction::Keep
            },
        )
    }
}

/// Computes the preview of the staged combination and says what the
/// preview icon has to do. `visible` remembers between frames whether the
/// icon is up.
pub fn show_combiner_icon(
    combiner: &mut Combiner,
    icon_present: bool,
    visible: &mut bool,
) -> (action: PreviewAction)
    ensures
        (*final(combiner), *final(visible), action) == preview_step(
            *old(combiner),
            icon_present,
            *old(visible),
        ),
{
    if !icon_present {
        return PreviewAction::Keep;
    }
    if let (Some(left_aspect), Some(right_aspect)) = (combiner.left_aspect, combiner.right_aspect) {
        let combined_aspect = aspect_combinations(&left_aspect, &right_aspect);
        combiner.current_combination = Some(combined_aspect);
        if !*visible {
            *visible = true;
            PreviewAction::Reveal(combined_aspect)
        } else {
            PreviewAction::Update(combined_aspect)
        }
    } else if *visible {
        *visible = false;
        PreviewAction::Conceal
    } else {
        PreviewAction::Keep
    }
}

/// The preview is idempotent: run again on its own outcome, it changes
/// neither the combiner nor the icon's visibility, and starts no animation.
pub proof fn preview_idempotent(combiner: Combiner, icon_present: bool, visible: bool)
    ensures
        ({
            let (combiner1, visible1, _action1) = preview_step(combiner, icon_present, visible);
            let (combiner2, visible2, action2) = preview_step(combiner1, icon_present, visible1);
            &&& combiner2 == combiner1
            &&& visible2 == visible1
            &&& action2 == PreviewAction::Keep || action2 == PreviewAction::Update(
                combiner.prospect(),
            )
        }),
{
}

/// The preview touches nothing but the previewed combination.
pub proof fn preview_keeps_selection(combiner: Combiner, icon_present: bool, visible: bool)
    ensures
        ({
            let after = preview_step(combiner, icon_present, visible).0;
            after == (Combiner { current_combination: after.current_combination, ..combiner })
        }),
{
}

/// The combiner after the confirm input, and the event it fires. The
/// input counts only while the combiner itself is lit up and both operands
/// are staged; then the result is recorded and both operands are cleared.
pub open spec fn confirm_step(combiner: Combiner, select_socket: bool, combiner_highlighted: bool)
    -> (Combiner, Option<CombinedAspect>) {
    if select_socket && combiner_highlighted && combiner.both_staged() {
        (
            Combiner {
                left_aspect: None,
                right_aspect: None,
                last_combined_aspect: combiner.prospect(),
                ..combiner
            },
            Some(CombinedAspect),
        )
    } else {
        (combiner, None)
    }
}

/// Confirms the staged combination if the confirm input was given at the
/// lit-up combiner with both operands staged, and returns the event to
/// fire.
pub fn select_combined_aspect(
    combiner: &mut Combiner,
    select_socket: bool,
    combiner_highlighted: bool,
) -> (event: Option<CombinedAspect>)
    ensures
        (*final(combiner), event) == confirm_step(
            *old(combiner),
            select_socket,
            combiner_highlighted,
        ),
{
    if !select_socket {
        return None;
    }
    if !combiner_highlighted {
        return None;
    }
    let (left_aspect, right_aspect) = if let (Some(l_aspect), Some(r_aspect)) = (
        combiner.left_aspect,
        combiner.right_aspect,
    ) {
        (l_aspect, r_aspect)
    } else {
        return None;
    };

    let combined_aspect = aspect_combinations(&left_aspect, &right_aspect);

    combiner.last_combined_aspect = combined_aspect;
    combiner.left_aspect = None;
    combiner.right_aspect = None;
    Some(CombinedAspect)
}

/// A combination is confirmed only from the state in which both operands
/// are staged, and the confirmation leaves the combiner with nothing
/// staged and the result recorded. Any other confirm input changes
/// nothing.
pub proof fn confirmation_empties_the_combiner(
    combiner: Combiner,
    select_socket: bool,
    combiner_highlighted: bool,
)
    ensures
        ({
            let (after, event) = confirm_step(combiner, select_socket, combiner_highlighted);
            &&& event is Some <==> select_socket && combiner_highlighted && combiner.both_staged()
            &&& event is Some ==> after.left_aspect is None && after.right_aspect is None
                && after.last_combined_aspect == combiner.prospect()
            &&& event is None ==> after == combiner
            &&& after.current_combination == combiner.current_combination
            &&& after.all_sockets_full == combiner.all_sockets_full
        }),
{
}

/// Records whether every socket holds an aspect.
pub fn check_all_aspects_full(combiner: &mut Combiner, sockets: &Vec<PlacedSocket>)
    ensures
        *final(combiner) == (Combiner { all_sockets_full: all_full(sockets@), ..*old(combiner) }),
{
    let mut full = true;
    let mut i: usize = 0;
    while i < sockets.len()
        invariant
            i <= sockets.len(),
            full <==> forall|j: int| 0 <= j < i ==> !(#[trigger] sockets@[j]).socket.is_empty(),
        decreases sockets.len() - i,
    {
        if sockets[i].socket.aspect == Aspect::NotImplemented {
            full = false;
        }
        i += 1;
    }
    combiner.all_sockets_full = full;
}

} // verus!
