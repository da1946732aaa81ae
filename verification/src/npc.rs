//! The characters that speak in dialogues.

use crate::text::{same_text, trim_start_matches, without_leading};
use vstd::prelude::*;
use vstd::string::StringExecFns;

verus! {

/// A character with a voice of their own.
#[derive(Clone, Copy, PartialEq, Eq, Structural, Debug, Hash)]
pub enum NpcDialogue {
    Ami,
    Ima,
}

impl Default for NpcDialogue {
    fn default() -> (r: NpcDialogue)
        ensures
            r == NpcDialogue::Ami,
    {
        NpcDialogue::Ami
    }
}

/// The name a character goes by in the dialogue scripts.
pub open spec fn npc_name(npc: NpcDialogue) -> Seq<char> {
    match npc {
        NpcDialogue::Ami => "Ami"@,
        NpcDialogue::Ima => "Ima"@,
    }
}

/// The character that goes by `name`, if there is one.
pub open spec fn npc_named(name: Seq<char>) -> Option<NpcDialogue> {
    if name == "Ami"@ {
        Some(NpcDialogue::Ami)
    } else if name == "Ima"@ {
        Some(NpcDialogue::Ima)
    } else {
        None
    }
}

/// Reading back a character's own name gives that character.
pub proof fn npc_name_round_trip(npc: NpcDialogue)
    ensures
        npc_named(npc_name(npc)) == Some(npc),
{
    reveal_strlit("Ami");
    reveal_strlit("Ima");
    assert("Ami"@[0] == 'A' && "Ima"@[0] == 'I');
}

impl NpcDialogue {
    /// The character's name.
    pub fn name(&self) -> (name: &'static str)
        ensures
            name@ == npc_name(*self),
    {
        match self {
            NpcDialogue::Ami => "Ami",
            NpcDialogue::Ima => "Ima",
        }
    }

    /// Reads a character's name. A text that names no character gives
    /// `None`.
    pub fn from_name(name: &str) -> (npc: Option<NpcDialogue>)
        ensures
            npc == npc_named(name@),
    {
        if same_text(name, "Ami") {
            Some(NpcDialogue::Ami)
        } else if same_text(name, "Ima") {
            Some(NpcDialogue::Ima)
        } else {
            None
        }
    }
}

/// The name shown above a line of dialogue. A speaker whose script name
/// starts with an underscore has not introduced themselves yet.
pub open spec fn shown_name(name: Seq<char>) -> Seq<char> {
    if name.len() > 0 && name[0] == '_' {
        "???"@
    } else {
        name
    }
}

/// The name to show above a line spoken by `name`.
pub fn convert_name(name: &str) -> (shown: String)
    ensures
        shown@ == shown_name(name@),
{
    if name.unicode_len() > 0 && name.get_char(0) == '_' {
        return String::from_str("???");
    }
    String::from_str(name)
}

/// Whose voice the typing sound of a line has.
#[derive(Clone, Copy, PartialEq, Eq, Structural, Debug)]
pub enum BlipVoice {
    /// The narrator: no speaker is named, and nothing sounds.
    Silent,
    /// The voice of a known character.
    Npc(NpcDialogue),
    /// A speaker the game has no voice for.
    Stranger,
}

/// The voice for a line whose speaker goes by `character` in the script.
/// Underscores before the name do not count.
pub open spec fn voice_of(character: Seq<char>) -> BlipVoice {
    let name = without_leading(character, '_');
    if name.len() == 0 {
        BlipVoice::Silent
    } else {
        match npc_named(name) {
            Some(npc) => BlipVoice::Npc(npc),
            None => BlipVoice::Stranger,
        }
    }
}

/// Picks the voice of the typing sound for a speaker.
pub fn character_sound(character: &str) -> (voice: BlipVoice)
    ensures
        voice == voice_of(character@),
{
    let character = trim_start_matches(character, '_');
    if character.unicode_len() == 0 {
        return BlipVoice::Silent;
    }
    match NpcDialogue::from_name(character) {
        Some(npc) => BlipVoice::Npc(npc),
        None => BlipVoice::Stranger,
    }
}

/// How fast the typewriter runs when every line is to fly by.
pub const DEBUG_SPEED: u32 = 1000;

/// How fast a known character's lines are typed.
pub const NPC_SPEED: u32 = 18;

/// How fast anybody else's lines are typed.
pub const NARRATOR_SPEED: u32 = 30;

/// The typing speed, in graphemes per second, for a line by `character`.
pub open spec fn speed_for(debug_active: bool, character: Option<Seq<char>>) -> u32 {
    if debug_active {
        DEBUG_SPEED
    } else {
        let name = match character {
            Some(name) => without_leading(name, '_'),
            None => Seq::<char>::empty(),
        };
        if npc_named(name) is Some {
            NPC_SPEED
        } else {
            NARRATOR_SPEED
        }
    }
}

/// Picks the typing speed, in graphemes per second, for a line.
pub fn writer_speed(debug_active: bool, character_name: Option<&str>) -> (speed: u32)
    ensures
        speed == speed_for(
            debug_active,
            match character_name {
                Some(name) => Some(name@),
                None => None,
            },
        ),
{
    if debug_active {
        return DEBUG_SPEED;
    }
    let known = match character_name {
        Some(name) => NpcDialogue::from_name(trim_start_matches(name, '_')).is_some(),
        None => {
            proof {
                reveal_strlit("Ami");
                reveal_strlit("Ima");
                assert(without_leading(Seq::<char>::empty(), '_') =~= Seq::<char>::empty());
            }
            false
        },
    };
    if known {
        NPC_SPEED
    } else {
        NARRATOR_SPEED
    }
}

} // verus!
