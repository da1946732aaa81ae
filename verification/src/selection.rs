//! Selecting sockets: the select input stages a socket's aspect for its
//! side of the combiner, or takes it back.

use crate::aspect::Aspect;
use crate::combiner::{Combiner, SelectionCue};
use crate::socket::{PlacedSocket, Socket};
use vstd::prelude::*;

verus! {

/// What a side has staged after a socket holding `aspect` was selected:
/// the aspect, or nothing if that aspect was the one staged.
pub open spec fn toggled(staged: Option<Aspect>, aspect: Aspect) -> Option<Aspect> {
    if staged == Some(aspect) {
        None
    } else {
        Some(aspect)
    }
}

/// The sound for selecting a socket holding `aspect` on a side that has
/// `staged`.
pub open spec fn cue_for(staged: Option<Aspect>, aspect: Aspect) -> SelectionCue {
    if staged == Some(aspect) {
        SelectionCue::Deselect
    } else {
        SelectionCue::Select
    }
}

/// Whether a socket can be selected at all: it holds an aspect, and the
/// game has not reached its terminal condition.
pub open spec fn selectable(combiner: Combiner, socket: Socket) -> bool {
    !socket.is_empty() && !combiner.all_sockets_full
}

/// Whether the select input of this frame goes to the socket.
pub open spec fn targeted(combiner: Combiner, socket: PlacedSocket) -> bool {
    socket.highlighted && selectable(combiner, socket.socket)
}

impl Combiner {
    /// The combiner after the socket was selected. Selecting what is
    /// already staged for the socket's side takes it back; anything else
    /// replaces what the side had staged. A socket that cannot be selected
    /// changes nothing.
    pub open spec fn after_toggle(self, socket: Socket) -> Combiner {
        if selectable(self, socket) {
            self.with_staged(socket.on_top, toggled(self.staged(socket.on_top), socket.aspect))
        } else {
            self
        }
    }

    /// Selects one socket and returns the sound that answers, if any.
    pub fn toggle_selection(&mut self, socket: &Socket) -> (cue: Option<SelectionCue>)
        ensures
            *final(self) == old(self).after_toggle(*socket),
            cue == if selectable(*old(self), *socket) {
                Some(cue_for(old(self).staged(socket.on_top), socket.aspect))
            } else {
                None
            },
    {
        if socket.aspect == Aspect::NotImplemented || self.all_sockets_full {
            return None;
        }
        if socket.on_top {
            let (staged, cue) = toggle(self.left_aspect, socket.aspect);
            self.left_aspect = staged;
            Some(cue)
        } else {
            let (staged, cue) = toggle(self.right_aspect, socket.aspect);
            self.right_aspect = staged;
            Some(cue)
        }
    }
}

/// Toggles one side's staged operand against a selected aspect.
fn toggle(staged: Option<Aspect>, aspect: Aspect) -> (r: (Option<Aspect>, SelectionCue))
    ensures
        r.0 == toggled(staged, aspect),
        r.1 == cue_for(staged, aspect),
{
    match staged {
        Some(current) if current == aspect => (None, SelectionCue::Deselect),
        _ => (Some(aspect), SelectionCue::Select),
    }
}

/// Selecting the same socket twice in a row puts its side back to what it
/// had staged before.
///
/// Left out is the selection that replaces another staged aspect: there
/// the first selection drops that aspect for good, and the second leaves
/// the side empty.
pub proof fn toggle_twice_restores(combiner: Combiner, socket: Socket)
    requires
        !selectable(combiner, socket) || combiner.staged(socket.on_top) is None
            || combiner.staged(socket.on_top) == Some(socket.aspect),
    ensures
        combiner.after_toggle(socket).after_toggle(socket) == combiner,
{
}

/// What selecting the same socket twice in a row leaves staged on its
/// side: the socket's aspect if that was staged before, and nothing
/// otherwise.
pub proof fn toggle_twice(combiner: Combiner, socket: Socket)
    requires
        selectable(combiner, socket),
    ensures
        ({
            let before = combiner.staged(socket.on_top);
            let after = combiner.after_toggle(socket).after_toggle(socket).staged(socket.on_top);
            after == if before == Some(socket.aspect) {
                Some(socket.aspect)
            } else {
                None
            }
        }),
{
}

/// At most one aspect is staged per side: after a socket was selected, its
/// side holds that socket's aspect or nothing, and the other side is as it
/// was.
pub proof fn toggle_stages_one_per_side(combiner: Combiner, socket: Socket)
    ensures
        combiner.after_toggle(socket).staged(!socket.on_top) == combiner.staged(!socket.on_top),
        selectable(combiner, socket) ==> {
            let staged = combiner.after_toggle(socket).staged(socket.on_top);
            staged == Some(socket.aspect) || staged is None
        },
{
}

/// What a side has staged once the select input went to a row of sockets.
/// Every targeted socket of that side toggles against what the side had
/// staged when the frame began, and the last of them decides; with none,
/// the side keeps what it had.
pub open spec fn staged_after(combiner: Combiner, sockets: Seq<PlacedSocket>, on_top: bool)
    -> Option<Aspect>
    decreases sockets.len(),
{
    if sockets.len() == 0 {
        combiner.staged(on_top)
    } else if targeted(combiner, sockets.last()) && sockets.last().socket.on_top == on_top {
        toggled(combiner.staged(on_top), sockets.last().socket.aspect)
    } else {
        staged_after(combiner, sockets.drop_last(), on_top)
    }
}

/// The sounds that answer the select input on a row of sockets: one for
/// each targeted socket, in the row's order.
pub open spec fn selection_cues(combiner: Combiner, sockets: Seq<PlacedSocket>) -> Seq<
    SelectionCue,
>
    decreases sockets.len(),
{
    if sockets.len() == 0 {
        Seq::empty()
    } else if targeted(combiner, sockets.last()) {
        selection_cues(combiner, sockets.drop_last()).push(
            cue_for(
                combiner.staged(sockets.last().socket.on_top),
                sockets.last().socket.aspect,
            ),
        )
    } else {
        selection_cues(combiner, sockets.drop_last())
    }
}

/// The combiner after one frame's select input on a row of sockets.
pub open spec fn selection_step(
    combiner: Combiner,
    select_socket: bool,
    sockets: Seq<PlacedSocket>,
) -> Combiner {
    if select_socket {
        Combiner {
            left_aspect: staged_after(combiner, sockets, true),
            right_aspect: staged_after(combiner, sockets, false),
            ..combiner
        }
    } else {
        combiner
    }
}

/// Applies one frame's select input to the sockets that are lit up, and
/// returns the sounds to play. Empty sockets are passed over, and so is
/// every socket once all of them are full.
pub fn select_aspects(combiner: &mut Combiner, select_socket: bool, sockets: &Vec<PlacedSocket>)
    -> (cues: Vec<SelectionCue>)
    ensures
        *final(combiner) == selection_step(*old(combiner), select_socket, sockets@),
        cues@ == if select_socket {
            selection_cues(*old(combiner), sockets@)
        } else {
            Seq::empty()
        },
{
    let mut cues: Vec<SelectionCue> = Vec::new();
    if !select_socket {
        return cues;
    }
    let mut left_aspect = combiner.left_aspect;
    let mut right_aspect = combiner.right_aspect;
    let mut i: usize = 0;
    while i < sockets.len()
        invariant
            i <= sockets.len(),
            *combiner == *old(combiner),
            left_aspect == staged_after(*combiner, sockets@.take(i as int), true),
            right_aspect == staged_after(*combiner, sockets@.take(i as int), false),
            cues@ == selection_cues(*combiner, sockets@.take(i as int)),
        decreases sockets.len() - i,
    {
        proof {
            assert(sockets@.take(i + 1).drop_last() == sockets@.take(i as int));
        }
        let placed = &sockets[i];
        if placed.highlighted && placed.socket.aspect != Aspect::NotImplemented
            && !combiner.all_sockets_full {
            if placed.socket.on_top {
                let (staged, cue) = toggle(combiner.left_aspect, placed.socket.aspect);
                left_aspect = staged;
                cues.push(cue);
            } else {
                let (staged, cue) = toggle(combiner.right_aspect, placed.socket.aspect);
                right_aspect = staged;
                cues.push(cue);
            }
        }
        i += 1;
    }
    proof {
        assert(sockets@.take(sockets.len() as int) == sockets@);
    }
    combiner.left_aspect = left_aspect;
    combiner.right_aspect = right_aspect;
    cues
}

/// Where the select input goes to exactly one socket, the frame does what
/// selecting that socket does, and answers with that one sound.
pub proof fn selection_of_one_socket(combiner: Combiner, sockets: Seq<PlacedSocket>, i: int)
    requires
        0 <= i < sockets.len(),
        targeted(combiner, sockets[i]),
        forall|j: int|
            0 <= j < sockets.len() && j != i ==> !targeted(combiner, #[trigger] sockets[j]),
    ensures
        selection_step(combiner, true, sockets) == combiner.after_toggle(sockets[i].socket),
        selection_cues(combiner, sockets) == seq![
            cue_for(combiner.staged(sockets[i].socket.on_top), sockets[i].socket.aspect),
        ],
    decreases sockets.len(),
{
    let on_top = sockets[i].socket.on_top;
    if i == sockets.len() - 1 {
        selection_without_target(combiner, sockets.drop_last());
    } else {
        selection_of_one_socket(combiner, sockets.drop_last(), i);
    }
}

/// Where the select input goes to no socket, nothing is staged or taken
/// back, and nothing sounds.
pub proof fn selection_without_target(combiner: Combiner, sockets: Seq<PlacedSocket>)
    requires
        forall|j: int| 0 <= j < sockets.len() ==> !targeted(combiner, #[trigger] sockets[j]),
    ensures
        selection_step(combiner, true, sockets) == combiner,
        selection_cues(combiner, sockets) == Seq::<SelectionCue>::empty(),
    decreases sockets.len(),
{
    if sockets.len() > 0 {
        selection_without_target(combiner, sockets.drop_last());
    }
}

} // verus!
