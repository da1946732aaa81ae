//! Sockets: the world slots that hold aspects, and the write-back that puts
//! a newly combined aspect into the leftmost empty one on each side.

use crate::aspect::{aspect_named, Aspect};
use crate::combiner::Combiner;
use vstd::prelude::*;

verus! {

/// A world slot that holds one aspect and feeds one half of the combiner:
/// a socket on top stages the left operand, one at the bottom the right.
#[derive(Clone, Copy, PartialEq, Eq, Structural, Debug)]
pub struct Socket {
    pub aspect: Aspect,
    pub on_top: bool,
}

/// A socket together with what the world shows of it in the current frame.
#[derive(Clone, Copy, PartialEq, Eq, Structural, Debug)]
pub struct PlacedSocket {
    pub socket: Socket,
    /// Horizontal position. Only the order matters: a smaller value is
    /// further left.
    pub x: i32,
    /// Whether the player stands within reach of the socket.
    pub in_reach: bool,
    /// Whether the socket is lit up as the target of the select input.
    pub highlighted: bool,
}

impl Socket {
    /// Whether the socket holds no aspect yet.
    pub open spec fn is_empty(self) -> bool {
        self.aspect == Aspect::NotImplemented
    }
}

impl PlacedSocket {
    /// The same socket, now holding `aspect`.
    pub open spec fn holding(self, aspect: Aspect) -> PlacedSocket {
        PlacedSocket { socket: Socket { aspect, on_top: self.socket.on_top }, ..self }
    }

    /// Whether the socket is empty and sits on the given side.
    pub open spec fn is_empty_on(self, on_top: bool) -> bool {
        self.socket.is_empty() && self.socket.on_top == on_top
    }
}

/// The aspects that a row of sockets holds, in the row's order.
pub open spec fn aspects_of(sockets: Seq<PlacedSocket>) -> Seq<Aspect> {
    sockets.map_values(|s: PlacedSocket| s.socket.aspect)
}

/// Whether some socket holds `aspect`.
pub open spec fn holds(sockets: Seq<PlacedSocket>, aspect: Aspect) -> bool {
    exists|i: int| 0 <= i < sockets.len() && (#[trigger] sockets[i]).socket.aspect == aspect
}

/// Whether every socket holds an aspect.
pub open spec fn all_full(sockets: Seq<PlacedSocket>) -> bool {
    !holds(sockets, Aspect::NotImplemented)
}

/// Whether socket `i` is the one the write-back fills on the given side: it
/// is empty, no empty socket of that side lies further left, and among
/// those at the same position it comes first.
pub open spec fn is_leftmost_empty(sockets: Seq<PlacedSocket>, on_top: bool, i: int) -> bool {
    &&& 0 <= i < sockets.len()
    &&& sockets[i].is_empty_on(on_top)
    &&& forall|j: int|
        0 <= j < sockets.len() && (#[trigger] sockets[j]).is_empty_on(on_top) ==> sockets[i].x
            < sockets[j].x || (sockets[i].x == sockets[j].x && i <= j)
}

/// Whether `slot` names the socket that the write-back fills on the given
/// side: the leftmost empty one, or none where the side has no empty socket.
pub open spec fn is_write_back_slot(
    sockets: Seq<PlacedSocket>,
    on_top: bool,
    slot: Option<usize>,
) -> bool {
    match slot {
        Some(i) => is_leftmost_empty(sockets, on_top, i as int),
        None => forall|j: int|
            0 <= j < sockets.len() ==> !(#[trigger] sockets[j]).is_empty_on(on_top),
    }
}

/// The row after `aspect` was put into `slot`.
pub open spec fn filled(sockets: Seq<PlacedSocket>, slot: Option<usize>, aspect: Aspect) -> Seq<
    PlacedSocket,
> {
    match slot {
        Some(i) => sockets.update(i as int, sockets[i as int].holding(aspect)),
        None => sockets,
    }
}

/// The socket that the write-back fills on the given side: the leftmost
/// empty one, or none where the side has no empty socket.
pub open spec fn write_back_slot(sockets: Seq<PlacedSocket>, on_top: bool) -> Option<usize> {
    if exists|i: int| is_leftmost_empty(sockets, on_top, i) {
        Some((choose|i: int| is_leftmost_empty(sockets, on_top, i)) as usize)
    } else {
        None
    }
}

/// The row after a confirmed combination was written back: `aspect` sits
/// in the leftmost empty socket on top and in the leftmost empty socket at
/// the bottom.
pub open spec fn written_back(sockets: Seq<PlacedSocket>, aspect: Aspect) -> Seq<PlacedSocket> {
    filled(
        filled(sockets, write_back_slot(sockets, true), aspect),
        write_back_slot(sockets, false),
        aspect,
    )
}

/// Finds the socket that the write-back fills on the given side.
pub fn leftmost_empty_socket(sockets: &Vec<PlacedSocket>, on_top: bool) -> (slot: Option<usize>)
    ensures
        is_write_back_slot(sockets@, on_top, slot),
        slot == write_back_slot(sockets@, on_top),
{
    let mut best: Option<usize> = None;
    let mut i: usize = 0;
    while i < sockets.len()
        invariant
            i <= sockets.len(),
            match best {
                Some(b) => {
                    &&& b < i
                    &&& sockets@[b as int].is_empty_on(on_top)
                    &&& forall|j: int|
                        0 <= j < i && (#[trigger] sockets@[j]).is_empty_on(on_top)
                            ==> sockets@[b as int].x < sockets@[j].x || (sockets@[b as int].x
                            == sockets@[j].x && b <= j)
                },
                None => forall|j: int|
                    0 <= j < i ==> !(#[trigger] sockets@[j]).is_empty_on(on_top),
            },
        decreases sockets.len() - i,
    {
        let s = &sockets[i];
        if s.socket.aspect == Aspect::NotImplemented && s.socket.on_top == on_top {
            match best {
                Some(b) => {
                    if s.x < sockets[b].x {
                        best = Some(i);
                    }
                },
                None => {
                    best = Some(i);
                },
            }
        }
        i += 1;
    }
    proof {
        write_back_slot_found(sockets@, on_top, best);
    }
    best
}

/// Puts the combiner's last result into the leftmost empty socket of one
/// side and says which socket that was, so that its icon and label can
/// follow. A side without an empty socket is left as it is.
pub fn set_visuals_for_socket(combiner: &Combiner, sockets: &mut Vec<PlacedSocket>, on_top: bool)
    -> (slot: Option<usize>)
    ensures
        is_write_back_slot(old(sockets)@, on_top, slot),
        slot == write_back_slot(old(sockets)@, on_top),
        final(sockets)@ == filled(old(sockets)@, slot, combiner.last_combined_aspect),
{
    let slot = leftmost_empty_socket(sockets, on_top);
    if let Some(i) = slot {
        let before = sockets[i];
        sockets[i] = PlacedSocket {
            socket: Socket { aspect: combiner.last_combined_aspect, on_top: before.socket.on_top },
            x: before.x,
            in_reach: before.in_reach,
            highlighted: before.highlighted,
        };
    }
    slot
}

/// Writes a confirmed combination back into the world: the combiner's last
/// result goes into the leftmost empty socket on top and into the leftmost
/// empty socket at the bottom. Returns the socket filled on top and the one
/// filled at the bottom.
pub fn push_combined_aspect(combiner: &Combiner, sockets: &mut Vec<PlacedSocket>) -> (slots: (
    Option<usize>,
    Option<usize>,
))
    ensures
        is_write_back_slot(old(sockets)@, true, slots.0),
        is_write_back_slot(old(sockets)@, false, slots.1),
        slots == (write_back_slot(old(sockets)@, true), write_back_slot(old(sockets)@, false)),
        final(sockets)@ == written_back(old(sockets)@, combiner.last_combined_aspect),
{
    let top = set_visuals_for_socket(combiner, sockets, true);
    let ghost between = sockets@;
    let bottom = set_visuals_for_socket(combiner, sockets, false);
    proof {
        let before = old(sockets)@;
        assert forall|j: int| 0 <= j < before.len() implies (#[trigger] before[j]).is_empty_on(
            false,
        ) == between[j].is_empty_on(false) && before[j].x == between[j].x by {}
        match bottom {
            Some(b) => {
                assert(between[b as int].is_empty_on(false));
                assert forall|j: int|
                    0 <= j < before.len() && (#[trigger] before[j]).is_empty_on(
                        false,
                    ) implies before[b as int].x < before[j].x || (before[b as int].x
                    == before[j].x && b <= j) by {
                    assert(between[j].is_empty_on(false));
                }
            },
            None => {
                assert forall|j: int| 0 <= j < before.len() implies !(#[trigger] before[j])
                    .is_empty_on(false) by {
                    assert(!between[j].is_empty_on(false));
                }
            },
        }
        assert(before.len() == old(sockets).len());
        write_back_slot_found(before, false, bottom);
    }
    (top, bottom)
}

/// The write-back fills at most one socket per side, and which one is
/// settled by the row alone.
pub proof fn write_back_slot_unique(
    sockets: Seq<PlacedSocket>,
    on_top: bool,
    first: Option<usize>,
    second: Option<usize>,
)
    requires
        is_write_back_slot(sockets, on_top, first),
        is_write_back_slot(sockets, on_top, second),
    ensures
        first == second,
{
    if first is Some && second is Some {
        assert(sockets[first->0 as int].is_empty_on(on_top));
        assert(sockets[second->0 as int].is_empty_on(on_top));
    } else if first is Some {
        assert(sockets[first->0 as int].is_empty_on(on_top));
    } else if second is Some {
        assert(sockets[second->0 as int].is_empty_on(on_top));
    }
}

/// Of two empty sockets on one side, the one further left is filled first:
/// while socket `left` is empty, the write-back on that side fills some
/// socket, and never one that lies to the right of `left`.
pub proof fn leftmost_filled_first(sockets: Seq<PlacedSocket>, on_top: bool, left: int, right: int)
    requires
        0 <= left < sockets.len(),
        0 <= right < sockets.len(),
        sockets[left].is_empty_on(on_top),
        sockets[right].is_empty_on(on_top),
        sockets[left].x < sockets[right].x,
    ensures
        forall|slot: Option<usize>| #[trigger]
            is_write_back_slot(sockets, on_top, slot) ==> {
                &&& slot is Some
                &&& slot->0 != right
                &&& sockets[slot->0 as int].x <= sockets[left].x
            },
{
}

/// A socket is the one the write-back fills exactly if it is the one that
/// `write_back_slot` names.
pub proof fn write_back_slot_found(sockets: Seq<PlacedSocket>, on_top: bool, slot: Option<usize>)
    requires
        sockets.len() <= usize::MAX,
    ensures
        is_write_back_slot(sockets, on_top, slot) <==> slot == write_back_slot(sockets, on_top),
{
    let named = write_back_slot(sockets, on_top);
    if named is Some {
        let i = choose|i: int| is_leftmost_empty(sockets, on_top, i);
        assert(is_write_back_slot(sockets, on_top, named));
    } else {
        assert forall|j: int| 0 <= j < sockets.len() implies !(#[trigger] sockets[j]).is_empty_on(
            on_top,
        ) by {
            if sockets[j].is_empty_on(on_top) {
                some_empty_socket_is_leftmost(sockets, on_top, j);
            }
        }
        assert(is_write_back_slot(sockets, on_top, named));
    }
    if is_write_back_slot(sockets, on_top, slot) {
        write_back_slot_unique(sockets, on_top, slot, named);
    }
}

/// Where a side has an empty socket, one of its empty sockets is the
/// leftmost.
proof fn some_empty_socket_is_leftmost(sockets: Seq<PlacedSocket>, on_top: bool, j: int)
    requires
        0 <= j < sockets.len(),
        sockets[j].is_empty_on(on_top),
    ensures
        exists|i: int| is_leftmost_empty(sockets, on_top, i),
    decreases sockets.len(),
{
    let shorter = sockets.drop_last();
    let last = sockets.len() - 1;
    if exists|k: int| 0 <= k < last && (#[trigger] sockets[k]).is_empty_on(on_top) {
        let k = choose|k: int| 0 <= k < last && (#[trigger] sockets[k]).is_empty_on(on_top);
        assert(shorter[k].is_empty_on(on_top));
        some_empty_socket_is_leftmost(shorter, on_top, k);
        let b = choose|b: int| is_leftmost_empty(shorter, on_top, b);
        assert(sockets[b] == shorter[b]);
        if sockets[last].is_empty_on(on_top) && sockets[last].x < sockets[b].x {
            assert forall|m: int|
                0 <= m < sockets.len() && (#[trigger] sockets[m]).is_empty_on(
                    on_top,
                ) implies sockets[last].x < sockets[m].x || (sockets[last].x == sockets[m].x
                && last <= m) by {
                if m < last {
                    assert(shorter[m].is_empty_on(on_top));
                }
            }
            assert(is_leftmost_empty(sockets, on_top, last));
        } else {
            assert forall|m: int|
                0 <= m < sockets.len() && (#[trigger] sockets[m]).is_empty_on(
                    on_top,
                ) implies sockets[b].x < sockets[m].x || (sockets[b].x == sockets[m].x && b
                <= m) by {
                if m < last {
                    assert(shorter[m].is_empty_on(on_top));
                }
            }
            assert(is_leftmost_empty(sockets, on_top, b));
        }
    } else {
        assert(j == last);
        assert(is_leftmost_empty(sockets, on_top, last));
    }
}

/// The write-back changes nothing but the aspect of the sockets it fills:
/// every other socket is as it was, and a filled socket keeps its side,
/// its place and its light.
pub proof fn write_back_keeps_the_rest(sockets: Seq<PlacedSocket>, aspect: Aspect, i: int)
    requires
        0 <= i < sockets.len(),
        sockets.len() <= usize::MAX,
    ensures
        written_back(sockets, aspect).len() == sockets.len(),
        written_back(sockets, aspect)[i] == if write_back_slot(sockets, true) == Some(i as usize)
            || write_back_slot(sockets, false) == Some(i as usize) {
            sockets[i].holding(aspect)
        } else {
            sockets[i]
        },
{
    write_back_slot_found(sockets, true, write_back_slot(sockets, true));
    write_back_slot_found(sockets, false, write_back_slot(sockets, false));
}

/// A socket is filled once: the write-back never touches a socket that
/// holds an aspect.
pub proof fn held_aspect_is_never_overwritten(sockets: Seq<PlacedSocket>, aspect: Aspect, i: int)
    requires
        0 <= i < sockets.len(),
        sockets.len() <= usize::MAX,
        !sockets[i].socket.is_empty(),
    ensures
        written_back(sockets, aspect)[i] == sockets[i],
{
    write_back_keeps_the_rest(sockets, aspect, i);
    write_back_slot_found(sockets, true, write_back_slot(sockets, true));
    write_back_slot_found(sockets, false, write_back_slot(sockets, false));
}

/// Once every socket is full the write-back has nothing left to do, and
/// the sockets stay full.
pub proof fn full_sockets_stay_full(sockets: Seq<PlacedSocket>, aspect: Aspect)
    requires
        all_full(sockets),
        sockets.len() <= usize::MAX,
    ensures
        written_back(sockets, aspect) == sockets,
{
    write_back_slot_found(sockets, true, write_back_slot(sockets, true));
    write_back_slot_found(sockets, false, write_back_slot(sockets, false));
    if write_back_slot(sockets, true) is Some {
        assert(sockets[write_back_slot(sockets, true)->0 as int].socket.is_empty());
    }
    if write_back_slot(sockets, false) is Some {
        assert(sockets[write_back_slot(sockets, false)->0 as int].socket.is_empty());
    }
}

/// What the level data says of a socket before it is built.
#[derive(Clone, Copy, PartialEq, Eq, Structural, Debug)]
pub struct AspectSocketInitiater {
    pub aspect: Aspect,
    pub on_top: bool,
}

impl Default for AspectSocketInitiater {
    fn default() -> (r: AspectSocketInitiater)
        ensures
            r == (AspectSocketInitiater { aspect: Aspect::NotImplemented, on_top: false }),
    {
        AspectSocketInitiater { aspect: Aspect::NotImplemented, on_top: false }
    }
}

impl AspectSocketInitiater {
    /// The aspect that a level's `aspect` field stands for: the one it
    /// names, or none where the field is missing or names no aspect.
    pub open spec fn aspect_of_field(aspect_field: Option<Seq<char>>) -> Aspect {
        match aspect_field {
            Some(name) => match aspect_named(name) {
                Some(aspect) => aspect,
                None => Aspect::NotImplemented,
            },
            None => Aspect::NotImplemented,
        }
    }

    /// Reads a socket's fields as the level data gives them. A field is
    /// `None` where the level does not have it. A missing or unknown
    /// aspect leaves the socket empty, and a missing side puts it at the
    /// bottom.
    pub fn from_field(aspect_field: Option<&str>, on_top_field: Option<bool>) -> (r:
        AspectSocketInitiater)
        ensures
            r.aspect == Self::aspect_of_field(
                match aspect_field {
                    Some(name) => Some(name@),
                    None => None,
                },
            ),
            r.on_top == (on_top_field == Some(true)),
    {
        let aspect = match aspect_field {
            Some(name) => match Aspect::from_name(name) {
                Some(aspect) => aspect,
                None => Aspect::NotImplemented,
            },
            None => Aspect::NotImplemented,
        };
        let on_top = match on_top_field {
            Some(on_top) => on_top,
            None => false,
        };
        AspectSocketInitiater { aspect, on_top }
    }

    /// The socket to build.
    pub fn socket(&self) -> (socket: Socket)
        ensures
            socket == (Socket { aspect: self.aspect, on_top: self.on_top }),
    {
        Socket { aspect: self.aspect, on_top: self.on_top }
    }
}

} // verus!
