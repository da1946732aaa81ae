//! Lighting up what the select input would go to: the sockets whose
//! aspect can still lead to a combination, and the combiner while it holds
//! a discovery that is new.

use crate::aspect::Aspect;
use crate::combination::{aspect_combinations, combine};
use crate::combiner::{confirm_step, CombinedAspect, Combiner};
use crate::socket::{all_full, holds, PlacedSocket, Socket};
use vstd::prelude::*;

verus! {

/// Whether staging a socket's aspect can lead anywhere: the other side is
/// still open, or holds an operand that some rule combines with it.
pub open spec fn combination_possible(combiner: Combiner, socket: Socket) -> bool {
    match combiner.staged(!socket.on_top) {
        Some(other) => combine(socket.aspect, other) != Aspect::NotImplemented,
        None => true,
    }
}

/// Whether staging the socket's aspect can lead to a combination, given
/// what the other side has staged.
pub fn is_socket_combination_possible(combiner: &Combiner, socket: &Socket) -> (possible: bool)
    ensures
        possible == combination_possible(*combiner, *socket),
{
    let combiner_aspect = if socket.on_top {
        match combiner.right_aspect {
            Some(r) => r,
            None => return true,
        }
    } else {
        match combiner.left_aspect {
            Some(r) => r,
            None => return true,
        }
    };
    aspect_combinations(&socket.aspect, &combiner_aspect) != Aspect::NotImplemented
}

/// Whether a socket is lit up after the highlight pass. An empty socket
/// keeps what it had; any other is lit exactly when the player is within
/// reach and staging its aspect can lead to a combination.
pub open spec fn socket_highlight(combiner: Combiner, socket: PlacedSocket) -> bool {
    if socket.socket.is_empty() {
        socket.highlighted
    } else {
        combination_possible(combiner, socket.socket) && socket.in_reach
    }
}

/// The row after the highlight pass. The pass is skipped once all sockets
/// are full, and while there is no player.
pub open spec fn highlighted_row(
    combiner: Combiner,
    player_present: bool,
    sockets: Seq<PlacedSocket>,
) -> Seq<PlacedSocket> {
    if combiner.all_sockets_full || !player_present {
        sockets
    } else {
        sockets.map_values(
            |s: PlacedSocket| PlacedSocket { highlighted: socket_highlight(combiner, s), ..s },
        )
    }
}

/// Lights up the sockets that the player can select in this frame.
pub fn highlight_sockets(combiner: &Combiner, player_present: bool, sockets: &mut Vec<PlacedSocket>)
    ensures
        final(sockets)@ == highlighted_row(*combiner, player_present, old(sockets)@),
{
    if combiner.all_sockets_full {
        return ;
    }
    if !player_present {
        return ;
    }
    let ghost before = sockets@;
    let mut i: usize = 0;
    while i < sockets.len()
        invariant
            i <= sockets.len(),
            sockets@.len() == before.len(),
            forall|j: int|
                0 <= j < i ==> sockets@[j] == (PlacedSocket {
                    highlighted: socket_highlight(*combiner, before[j]),
                    ..before[j]
                }),
            forall|j: int| i <= j < sockets.len() ==> sockets@[j] == before[j],
        decreases sockets.len() - i,
    {
        let placed = sockets[i];
        if placed.socket.aspect != Aspect::NotImplemented {
            let lit = is_socket_combination_possible(combiner, &placed.socket) && placed.in_reach;
            sockets[i] = PlacedSocket {
                socket: placed.socket,
                x: placed.x,
                in_reach: placed.in_reach,
                highlighted: lit,
            };
        }
        i += 1;
    }
    assert(sockets@ =~= highlighted_row(*combiner, player_present, before));
}

/// Whether the combiner is lit up as the target of the confirm input: both
/// operands are staged, no socket holds what they combine to, and the
/// player is within reach.
pub open spec fn combiner_highlight(combiner: Combiner, in_reach: bool, sockets: Seq<PlacedSocket>)
    -> bool {
    combiner.both_staged() && !holds(sockets, combiner.prospect()) && in_reach
}

/// Decides whether the combiner is lit up in this frame. `in_reach` is
/// `None` while the player or the combiner is missing from the world; the
/// decision is then left as it was, and the result is `None`.
pub fn highlight_combiner(combiner: &Combiner, in_reach: Option<bool>, sockets: &Vec<PlacedSocket>)
    -> (lit: Option<bool>)
    ensures
        lit == match in_reach {
            Some(near) => Some(combiner_highlight(*combiner, near, sockets@)),
            None => None,
        },
{
    let near = match in_reach {
        Some(near) => near,
        None => return None,
    };
    let (left_aspect, right_aspect) = if let (Some(l_aspect), Some(r_aspect)) = (
        combiner.left_aspect,
        combiner.right_aspect,
    ) {
        (l_aspect, r_aspect)
    } else {
        return Some(false);
    };

    let combined_aspect = aspect_combinations(&left_aspect, &right_aspect);
    let mut aspect_already_exists = false;
    let mut i: usize = 0;
    while i < sockets.len()
        invariant_except_break
            i <= sockets.len(),
            !aspect_already_exists,
            forall|j: int| 0 <= j < i ==> (#[trigger] sockets@[j]).socket.aspect != combined_aspect,
        ensures
            aspect_already_exists == holds(sockets@, combined_aspect),
        decreases sockets.len() - i,
    {
        if sockets[i].socket.aspect == combined_aspect {
            aspect_already_exists = true;
            break ;
        }
        i += 1;
    }

    Some(!aspect_already_exists && near)
}

/// No discovery is made twice: while some socket holds what the staged
/// operands combine to, the combiner stays dark, and the confirm input
/// changes nothing and fires nothing.
pub proof fn no_duplicate_discovery(
    combiner: Combiner,
    sockets: Seq<PlacedSocket>,
    in_reach: bool,
    select_socket: bool,
)
    requires
        combiner.both_staged(),
        holds(sockets, combiner.prospect()),
    ensures
        !combiner_highlight(combiner, in_reach, sockets),
        confirm_step(combiner, select_socket, combiner_highlight(combiner, in_reach, sockets)) == (
            combiner,
            None::<CombinedAspect>,
        ),
{
}

/// A pair that no rule covers is no discovery. Its result is the
/// sentinel, which every empty socket holds: so the combiner stays dark for
/// such a pair as long as a socket is empty. Once all sockets are full the
/// pair can be confirmed, and the write-back then finds no socket to fill.
pub proof fn unlisted_pair_is_refused_while_a_socket_is_empty(
    combiner: Combiner,
    sockets: Seq<PlacedSocket>,
    in_reach: bool,
)
    requires
        combiner.both_staged(),
        combiner.prospect() == Aspect::NotImplemented,
        !all_full(sockets),
    ensures
        !combiner_highlight(combiner, in_reach, sockets),
{
}

} // verus!
