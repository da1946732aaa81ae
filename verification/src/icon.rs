//! How a socket's icon and the combiner's label present the selection.

use crate::aspect::{aspect_name, Aspect};
use crate::combiner::Combiner;
use crate::socket::Socket;
use vstd::prelude::*;

verus! {

/// Where a socket's icon floats above the socket.
#[derive(Clone, Copy, PartialEq, Eq, Structural, Debug)]
pub enum IconPosition {
    /// Nothing is staged on the icon's side.
    Resting,
    /// The icon's aspect is the staged one.
    Raised,
    /// Another aspect is staged on the icon's side, or the game is over.
    Lowered,
}

/// The colour an icon is drawn in.
#[derive(Clone, Copy, PartialEq, Eq, Structural, Debug)]
pub enum IconTint {
    White,
    Gray,
}

/// How an icon is drawn.
#[derive(Clone, Copy, PartialEq, Eq, Structural, Debug)]
pub struct IconProperties {
    pub position: IconPosition,
    pub tint: IconTint,
}

impl IconPosition {
    /// The icon's height above its socket.
    pub open spec fn spec_height(self) -> i32 {
        match self {
            IconPosition::Resting => 16,
            IconPosition::Raised => 24,
            IconPosition::Lowered => 8,
        }
    }

    /// The icon's height above its socket.
    #[verifier::when_used_as_spec(spec_height)]
    pub fn height(self) -> (height: i32)
        ensures
            height == self.spec_height(),
    {
        match self {
            IconPosition::Resting => 16,
            IconPosition::Raised => 24,
            IconPosition::Lowered => 8,
        }
    }
}

/// How the icon of a socket is drawn. Once all sockets are full every icon
/// is lowered and gray. Before that, the icon of the staged aspect is
/// raised, the others on its side are lowered and gray, and a side with
/// nothing staged has its icons at rest.
pub open spec fn icon_look(combiner: Combiner, socket: Socket) -> IconProperties {
    let staged = combiner.staged(socket.on_top);
    if combiner.all_sockets_full || (staged is Some && staged != Some(socket.aspect)) {
        IconProperties { position: IconPosition::Lowered, tint: IconTint::Gray }
    } else if staged == Some(socket.aspect) {
        IconProperties { position: IconPosition::Raised, tint: IconTint::White }
    } else {
        IconProperties { position: IconPosition::Resting, tint: IconTint::White }
    }
}

/// Decides how the icon of a socket is drawn.
pub fn icon_properties(combiner: &Combiner, socket: &Socket) -> (look: IconProperties)
    ensures
        look == icon_look(*combiner, *socket),
{
    let staged = if socket.on_top {
        combiner.left_aspect
    } else {
        combiner.right_aspect
    };
    match staged {
        _ if combiner.all_sockets_full => IconProperties {
            position: IconPosition::Lowered,
            tint: IconTint::Gray,
        },
        Some(aspect) if aspect == socket.aspect => IconProperties {
            position: IconPosition::Raised,
            tint: IconTint::White,
        },
        Some(_) => IconProperties { position: IconPosition::Lowered, tint: IconTint::Gray },
        None => IconProperties { position: IconPosition::Resting, tint: IconTint::White },
    }
}

/// The label above the lit-up combiner: the name of the previewed
/// combination, or the sentinel's name while nothing was previewed.
pub fn combined_aspect_label(combiner: &Combiner) -> (label: &'static str)
    ensures
        label@ == aspect_name(
            match combiner.current_combination {
                Some(aspect) => aspect,
                None => Aspect::NotImplemented,
            },
        ),
{
    match combiner.current_combination {
        Some(aspect) => aspect.name(),
        None => Aspect::NotImplemented.name(),
    }
}

} // verus!
