//! Dialogue: which script node each story beat starts, and which commands
//! a script may give.

use crate::aspect::aspect_name;
use crate::combiner::Combiner;
use crate::narrator::{narrator_dialogue_name, TriggeredNarratorDialogue};
use crate::text::{same_text, starts_with};
use vstd::prelude::*;

verus! {

/// The node of Ima's last dialogue, once the player has gone to bed.
pub const IMA_FINAL_DIALOGUE: &'static str = "ImaFinalDialogue";

/// The node of the first meeting with Ima.
pub const IMA_FIRST_ENCOUNTER: &'static str = "ImaFirstEncounter";

/// The node of the first meeting with Ima for a player who hurried there.
pub const IMA_FIRST_ENCOUNTER_SHORT: &'static str = "ImaFirstEncounterShort";

/// The name of the command by which a script ends the game's main part.
pub const TRIGGER_ENDING: &'static str = "trigger_ending";

/// The name of the command by which a script ends the game.
pub const GAME_OVER: &'static str = "game_over";

/// The line by which a script ends the game's main part.
pub const TRIGGER_ENDING_COMMAND: &'static str = "<<trigger_ending>>";

/// The line by which a script ends the game.
pub const GAME_OVER_COMMAND: &'static str = "<<game_over>>";

/// The line that gives the command called `name`: the name between double
/// angle brackets.
pub open spec fn command_line(name: Seq<char>) -> Seq<char> {
    "<<"@ + name + ">>"@
}

/// The command lines the game knows are the lines of its two commands.
pub proof fn known_commands_by_name()
    ensures
        TRIGGER_ENDING_COMMAND@ == command_line(TRIGGER_ENDING@),
        GAME_OVER_COMMAND@ == command_line(GAME_OVER@),
{
    reveal_strlit("<<");
    reveal_strlit(">>");
    reveal_strlit("trigger_ending");
    reveal_strlit("game_over");
    reveal_strlit("<<trigger_ending>>");
    reveal_strlit("<<game_over>>");
    assert(TRIGGER_ENDING_COMMAND@ =~= command_line(TRIGGER_ENDING@));
    assert(GAME_OVER_COMMAND@ =~= command_line(GAME_OVER@));
}

/// The commands that a script may give, as they stand on a line of their
/// own.
pub fn valid_commands() -> (commands: Vec<&'static str>)
    ensures
        commands@.len() == 2,
        commands@[0]@ == TRIGGER_ENDING_COMMAND@,
        commands@[1]@ == GAME_OVER_COMMAND@,
{
    vec![TRIGGER_ENDING_COMMAND, GAME_OVER_COMMAND]
}

/// Whether a line of a script is a command: commands open with two angle
/// brackets.
pub open spec fn is_command_line(line: Seq<char>) -> bool {
    "<<"@.is_prefix_of(line)
}

/// Whether a line of a script is one of the commands the game knows.
pub open spec fn is_known_command(line: Seq<char>) -> bool {
    line == TRIGGER_ENDING_COMMAND@ || line == GAME_OVER_COMMAND@
}

/// Whether a line of a script is a command.
pub fn is_command(line: &str) -> (command: bool)
    ensures
        command == is_command_line(line@),
{
    starts_with(line, "<<")
}

/// Whether a line of a script is a command the game knows.
pub fn is_valid_command(line: &str) -> (valid: bool)
    ensures
        valid == is_known_command(line@),
{
    same_text(line, TRIGGER_ENDING_COMMAND) || same_text(line, GAME_OVER_COMMAND)
}

/// Every command the game knows is a command line.
pub proof fn known_commands_are_commands(line: Seq<char>)
    requires
        is_known_command(line),
    ensures
        is_command_line(line),
{
    reveal_strlit("<<");
    reveal_strlit("<<trigger_ending>>");
    reveal_strlit("<<game_over>>");
    assert("<<"@ =~= line.subrange(0, 2));
}

/// The script node that a confirmed combination starts: the one titled
/// with the new aspect's name.
pub fn combined_aspect_node(combiner: &Combiner) -> (node: &'static str)
    ensures
        node@ == aspect_name(combiner.last_combined_aspect),
{
    combiner.last_combined_aspect.name()
}

/// The script node that a narrator trigger starts: the one titled with the
/// dialogue's name.
pub fn narrator_node(trigger: &TriggeredNarratorDialogue) -> (node: &'static str)
    ensures
        node@ == narrator_dialogue_name(trigger.0),
{
    trigger.0.name()
}

/// The script node of the first meeting with Ima: the long one once the
/// player has spent the opening time in the game, the short one before.
pub fn ima_first_encounter_node(opening_time_over: bool) -> (node: &'static str)
    ensures
        node@ == if opening_time_over {
            IMA_FIRST_ENCOUNTER@
        } else {
            IMA_FIRST_ENCOUNTER_SHORT@
        },
{
    if opening_time_over {
        IMA_FIRST_ENCOUNTER
    } else {
        IMA_FIRST_ENCOUNTER_SHORT
    }
}

} // verus!
