//! One frame of the combination engine: the steps of the combiner in the
//! order that keeps them sound.
//!
//! The select input is applied before the preview is computed, so that the
//! preview is never stale. The combiner is lit up after the selection, so
//! that the guard against a second discovery looks at the operands the
//! confirmation will use. The confirmation comes before the write-back
//! that answers it, and the sockets are counted last.

use crate::aspect::Aspect;
use crate::combiner::{
    check_all_aspects_full, confirm_step, preview_step, select_combined_aspect,
    show_combiner_icon, CombinedAspect, Combiner, PreviewAction, SelectionCue,
};
use crate::highlight::{combiner_highlight, highlight_combiner, highlight_sockets, highlighted_row};
use crate::selection::{select_aspects, selection_cues, selection_step};
use crate::socket::{
    all_full, held_aspect_is_never_overwritten, holds, push_combined_aspect,
    write_back_keeps_the_rest, write_back_slot, written_back, PlacedSocket,
};
use vstd::prelude::*;

verus! {

/// What the world tells the engine in one frame, besides the sockets.
#[derive(Clone, Copy, PartialEq, Eq, Structural, Debug)]
pub struct FrameInput {
    /// Whether the select input was given.
    pub select_socket: bool,
    /// Whether there is a player in the world.
    pub player_present: bool,
    /// Whether the player stands within reach of the combiner; `None`
    /// while the player or the combiner is missing.
    pub combiner_in_reach: Option<bool>,
    /// Whether the combiner's preview icon is in the world.
    pub icon_present: bool,
}

/// The engine's state between frames.
#[derive(Debug)]
pub struct Board {
    pub combiner: Combiner,
    pub sockets: Vec<PlacedSocket>,
    /// Whether the combiner is lit up as the target of the confirm input.
    pub combiner_highlighted: bool,
    /// Whether the preview icon is up.
    pub icon_visible: bool,
}

/// What a frame asks the world to do.
#[derive(Debug)]
pub struct FrameOutput {
    /// The sounds to play, in order.
    pub cues: Vec<SelectionCue>,
    /// What the preview icon has to do.
    pub preview: PreviewAction,
    /// The event of a confirmed combination.
    pub combined: Option<CombinedAspect>,
    /// After a confirmed combination: the socket filled on top and the
    /// one filled at the bottom.
    pub written: (Option<usize>, Option<usize>),
}

/// A board, seen as plain values.
pub struct BoardView {
    pub combiner: Combiner,
    pub sockets: Seq<PlacedSocket>,
    pub combiner_highlighted: bool,
    pub icon_visible: bool,
}

/// A frame's output, seen as plain values.
pub struct FrameOutputView {
    pub cues: Seq<SelectionCue>,
    pub preview: PreviewAction,
    pub combined: Option<CombinedAspect>,
    pub written: (Option<usize>, Option<usize>),
}

impl View for Board {
    type V = BoardView;

    open spec fn view(&self) -> BoardView {
        BoardView {
            combiner: self.combiner,
            sockets: self.sockets@,
            combiner_highlighted: self.combiner_highlighted,
            icon_visible: self.icon_visible,
        }
    }
}

impl View for FrameOutput {
    type V = FrameOutputView;

    open spec fn view(&self) -> FrameOutputView {
        FrameOutputView {
            cues: self.cues@,
            preview: self.preview,
            combined: self.combined,
            written: self.written,
        }
    }
}

/// The board after one frame, and what the frame asks of the world.
pub open spec fn frame_step(board: BoardView, input: FrameInput) -> (BoardView, FrameOutputView) {
    let lit_sockets = highlighted_row(board.combiner, input.player_present, board.sockets);
    let selected = selection_step(board.combiner, input.select_socket, lit_sockets);
    let cues = if input.select_socket {
        selection_cues(board.combiner, lit_sockets)
    } else {
        Seq::empty()
    };
    let (previewed, icon_visible, preview) = preview_step(
        selected,
        input.icon_present,
        board.icon_visible,
    );
    let combiner_highlighted = match input.combiner_in_reach {
        Some(in_reach) => combiner_highlight(previewed, in_reach, lit_sockets),
        None => board.combiner_highlighted,
    };
    let (confirmed, combined) = confirm_step(previewed, input.select_socket, combiner_highlighted);
    let sockets = if combined is Some {
        written_back(lit_sockets, confirmed.last_combined_aspect)
    } else {
        lit_sockets
    };
    let written = if combined is Some {
        (write_back_slot(lit_sockets, true), write_back_slot(lit_sockets, false))
    } else {
        (None, None)
    };
    (
        BoardView {
            combiner: Combiner { all_sockets_full: all_full(sockets), ..confirmed },
            sockets,
            combiner_highlighted,
            icon_visible,
        },
        FrameOutputView { cues, preview, combined, written },
    )
}

impl Board {
    /// A board at game start, with the sockets that the level holds.
    pub fn new(sockets: Vec<PlacedSocket>) -> (board: Board)
        ensures
            board@ == (BoardView {
                combiner: Combiner::initial(),
                sockets: sockets@,
                combiner_highlighted: false,
                icon_visible: false,
            }),
    {
        Board {
            combiner: Combiner::default(),
            sockets,
            combiner_highlighted: false,
            icon_visible: false,
        }
    }

    /// Runs one frame: lights the sockets up, applies the select input,
    /// computes the preview, lights the combiner up, confirms, writes a
    /// confirmed combination back, and counts the sockets.
    pub fn frame(&mut self, input: FrameInput) -> (output: FrameOutput)
        ensures
            (final(self)@, output@) == frame_step(old(self)@, input),
    {
        highlight_sockets(&self.combiner, input.player_present, &mut self.sockets);
        let cues = select_aspects(&mut self.combiner, input.select_socket, &self.sockets);
        let preview = show_combiner_icon(
            &mut self.combiner,
            input.icon_present,
            &mut self.icon_visible,
        );
        match highlight_combiner(&self.combiner, input.combiner_in_reach, &self.sockets) {
            Some(lit) => {
                self.combiner_highlighted = lit;
            },
            None => {},
        }
        let combined = select_combined_aspect(
            &mut self.combiner,
            input.select_socket,
            self.combiner_highlighted,
        );
        let written = if combined.is_some() {
            push_combined_aspect(&self.combiner, &mut self.sockets)
        } else {
            (None, None)
        };
        check_all_aspects_full(&mut self.combiner, &self.sockets);
        FrameOutput { cues, preview, combined, written }
    }
}

/// The highlight pass changes no socket's aspect.
pub proof fn highlighting_keeps_aspects(
    combiner: Combiner,
    player_present: bool,
    sockets: Seq<PlacedSocket>,
    aspect: Aspect,
)
    ensures
        holds(highlighted_row(combiner, player_present, sockets), aspect) == holds(sockets, aspect),
{
    let lit = highlighted_row(combiner, player_present, sockets);
    if holds(sockets, aspect) {
        let i = choose|i: int|
            0 <= i < sockets.len() && (#[trigger] sockets[i]).socket.aspect == aspect;
        assert(lit[i].socket.aspect == aspect);
    }
    if holds(lit, aspect) {
        let i = choose|i: int| 0 <= i < lit.len() && (#[trigger] lit[i]).socket.aspect == aspect;
        assert(sockets[i].socket.aspect == aspect);
    }
}

/// No discovery is made twice. Whenever a frame has the combiner's reach
/// told and confirms a combination, no socket held the result when the
/// frame began.
pub proof fn frame_discovers_only_new_aspects(board: BoardView, input: FrameInput)
    requires
        input.combiner_in_reach is Some,
        frame_step(board, input).1.combined is Some,
    ensures
        !holds(board.sockets, frame_step(board, input).0.combiner.last_combined_aspect),
{
    let lit_sockets = highlighted_row(board.combiner, input.player_present, board.sockets);
    let selected = selection_step(board.combiner, input.select_socket, lit_sockets);
    let previewed = preview_step(selected, input.icon_present, board.icon_visible).0;
    highlighting_keeps_aspects(
        board.combiner,
        input.player_present,
        board.sockets,
        previewed.prospect(),
    );
}

/// A frame neither adds nor removes a socket, moves none to the other
/// side or to another place, and never takes an aspect out of a socket
/// that holds one.
pub proof fn frame_keeps_held_aspects(board: BoardView, input: FrameInput, i: int)
    requires
        0 <= i < board.sockets.len(),
        board.sockets.len() <= usize::MAX,
    ensures
        ({
            let after = frame_step(board, input).0.sockets;
            &&& after.len() == board.sockets.len()
            &&& after[i].socket.on_top == board.sockets[i].socket.on_top
            &&& after[i].x == board.sockets[i].x
            &&& !board.sockets[i].socket.is_empty() ==> after[i].socket == board.sockets[i].socket
        }),
{
    let lit_sockets = highlighted_row(board.combiner, input.player_present, board.sockets);
    let selected = selection_step(board.combiner, input.select_socket, lit_sockets);
    let previewed = preview_step(selected, input.icon_present, board.icon_visible).0;
    let combiner_highlighted = match input.combiner_in_reach {
        Some(in_reach) => combiner_highlight(previewed, in_reach, lit_sockets),
        None => board.combiner_highlighted,
    };
    let confirmed = confirm_step(previewed, input.select_socket, combiner_highlighted).0;
    assert(lit_sockets[i].socket == board.sockets[i].socket && lit_sockets[i].x
        == board.sockets[i].x);
    write_back_keeps_the_rest(lit_sockets, confirmed.last_combined_aspect, i);
    if !board.sockets[i].socket.is_empty() {
        held_aspect_is_never_overwritten(lit_sockets, confirmed.last_combined_aspect, i);
    }
}

/// A frame without the select input stages nothing, confirms nothing and
/// writes nothing.
pub proof fn frame_without_input_keeps_selection(board: BoardView, input: FrameInput)
    requires
        !input.select_socket,
    ensures
        ({
            let (after, output) = frame_step(board, input);
            &&& after.combiner.left_aspect == board.combiner.left_aspect
            &&& after.combiner.right_aspect == board.combiner.right_aspect
            &&& after.combiner.last_combined_aspect == board.combiner.last_combined_aspect
            &&& aspects_kept(board.sockets, after.sockets)
            &&& output.cues == Seq::<SelectionCue>::empty()
            &&& output.combined is None
            &&& output.written == (None::<usize>, None::<usize>)
        }),
{
}

/// Whether two rows hold the same aspects, socket for socket.
pub open spec fn aspects_kept(before: Seq<PlacedSocket>, after: Seq<PlacedSocket>) -> bool {
    &&& after.len() == before.len()
    &&& forall|i: int| 0 <= i < before.len() ==> (#[trigger] after[i]).socket == before[i].socket
}

} // verus!
