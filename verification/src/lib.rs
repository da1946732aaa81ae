//! The aspect combination engine of a narrative exploration game.
//!
//! The player collects emotions ("aspects") from sockets in the world,
//! stages one from a socket on top and one from a socket at the bottom at
//! the combiner station, and confirms the pair. A fixed table of rules says
//! what two aspects combine to. A new aspect is written back into the
//! leftmost empty socket on either side, and when every socket is full the
//! weights of the aspects held pick the story's ending.
//!
//! The engine decides; it neither draws nor plays anything. The world
//! hands it plain values (the sockets as they stand in this frame, whether
//! the select input was given, whether the player is within reach) and
//! gets plain values back: the new state, and what to show, play and fire.
//!
//! - [`aspect`]: the aspects and their names.
//! - [`combination`]: the rule table.
//! - [`socket`]: the sockets and the write-back.
//! - [`combiner`]: the combiner's state, its preview and the confirmation.
//! - [`selection`]: staging aspects and taking them back.
//! - [`highlight`]: which sockets can be selected, and when the combiner
//!   can be confirmed.
//! - [`frame`]: one whole frame, its steps in the order that keeps them
//!   sound.
//! - [`narrator`]: the endings and the score that picks one.
//! - [`icon`]: how the icons present the selection.
//! - [`dialogue`], [`npc`], [`typewriter`], [`ending_text`]: which dialogue
//!   a story beat starts, who speaks with which voice, and how text is
//!   typed onto the screen.
//! - [`world`]: the tutorial switch and the bed.
//! - [`text`]: helpers on strings.
//!
//! Every function states in its contract what it returns and changes, and
//! the laws that relate the functions to one another stand beside them as
//! proof functions.

pub mod aspect;
pub mod combination;
pub mod combiner;
pub mod dialogue;
pub mod ending_text;
pub mod frame;
pub mod highlight;
pub mod icon;
pub mod narrator;
pub mod npc;
pub mod selection;
pub mod socket;
pub mod text;
pub mod typewriter;
pub mod world;
