//! The narrator: the story's endings and the score that picks one.

use crate::aspect::Aspect;
use crate::socket::{aspects_of, PlacedSocket};
use crate::text::same_text;
use vstd::prelude::*;

verus! {

/// How far the score may lean to either side for the ending to be good.
pub const GOOD_ENDING_THRESHOLD: i32 = 7;

/// A dialogue that the narrator speaks: the introduction, or one of the
/// three endings.
#[derive(Clone, Copy, PartialEq, Eq, Structural, Debug, Hash)]
pub enum NarratorDialogue {
    Intro,
    GoodEnding,
    BadEndingTooPositive,
    BadEndingTooNegative,
}

/// Asks for a narrator dialogue to start.
#[derive(Clone, Copy, PartialEq, Eq, Structural, Debug)]
pub struct TriggeredNarratorDialogue(pub NarratorDialogue);

/// The weight of one aspect in the ending score: positive for a bright
/// emotion, negative for a dark one.
pub open spec fn weight(aspect: Aspect) -> int {
    match aspect {
        Aspect::NotImplemented => 0,
        Aspect::Joy => 2,
        Aspect::Sadness => 0,
        Aspect::Anger => -2,
        Aspect::Fear => -1,
        Aspect::Nostalgia => 2,
        Aspect::Motivation => 3,
        Aspect::Melancholy => 2,
        Aspect::Hatred => -4,
        Aspect::Vengefulness => -6,
        Aspect::Elation => 4,
        Aspect::Anticipation => 3,
        Aspect::Envy => -5,
        Aspect::Pride => -4,
        Aspect::Forgiveness => 6,
    }
}

/// The ending score of a collection of aspects: the sum of their weights.
pub open spec fn score(aspects: Seq<Aspect>) -> int
    decreases aspects.len(),
{
    if aspects.len() == 0 {
        0
    } else {
        score(aspects.drop_last()) + weight(aspects.last())
    }
}

/// The ending that a score leads to: good within the threshold, bad beyond
/// it on either side.
pub open spec fn ending_for(score: int) -> NarratorDialogue {
    if score > GOOD_ENDING_THRESHOLD {
        NarratorDialogue::BadEndingTooPositive
    } else if score < -GOOD_ENDING_THRESHOLD {
        NarratorDialogue::BadEndingTooNegative
    } else {
        NarratorDialogue::GoodEnding
    }
}

/// The weight of one aspect in the ending score.
pub fn evaluate_aspect(aspect: Aspect) -> (w: i32)
    ensures
        w == weight(aspect),
{
    match aspect {
        Aspect::NotImplemented => 0,
        Aspect::Joy => 2,
        Aspect::Sadness => 0,
        Aspect::Anger => -2,
        Aspect::Fear => -1,
        Aspect::Nostalgia => 2,
        Aspect::Motivation => 3,
        Aspect::Melancholy => 2,
        Aspect::Hatred => -4,
        Aspect::Vengefulness => -6,
        Aspect::Elation => 4,
        Aspect::Anticipation => 3,
        Aspect::Envy => -5,
        Aspect::Pride => -4,
        Aspect::Forgiveness => 6,
    }
}

/// Every weight lies between -6 and 6, so a row's score is bounded by its
/// length.
proof fn score_bounds(aspects: Seq<Aspect>)
    ensures
        -6 * aspects.len() <= score(aspects) <= 6 * aspects.len(),
    decreases aspects.len(),
{
    if aspects.len() > 0 {
        score_bounds(aspects.drop_last());
    }
}

/// The ending score of the aspects that the sockets hold.
pub fn ending_score(sockets: &Vec<PlacedSocket>) -> (sum: i128)
    ensures
        sum == score(aspects_of(sockets@)),
{
    let mut sum: i128 = 0;
    let mut i: usize = 0;
    while i < sockets.len()
        invariant
            i <= sockets.len(),
            sum == score(aspects_of(sockets@).take(i as int)),
        decreases sockets.len() - i,
    {
        proof {
            let aspects = aspects_of(sockets@);
            assert(aspects.take(i + 1).drop_last() == aspects.take(i as int));
            score_bounds(aspects.take(i as int));
        }
        sum += evaluate_aspect(sockets[i].socket.aspect) as i128;
        i += 1;
    }
    proof {
        assert(aspects_of(sockets@).take(sockets.len() as int) == aspects_of(sockets@));
    }
    sum
}

/// Picks the ending from the aspects that the sockets hold.
pub fn determine_ending(sockets: &Vec<PlacedSocket>) -> (ending: NarratorDialogue)
    ensures
        ending == ending_for(score(aspects_of(sockets@))),
{
    let sum = ending_score(sockets);

    if sum > GOOD_ENDING_THRESHOLD as i128 {
        NarratorDialogue::BadEndingTooPositive
    } else if sum < -(GOOD_ENDING_THRESHOLD as i128) {
        NarratorDialogue::BadEndingTooNegative
    } else {
        NarratorDialogue::GoodEnding
    }
}

/// Taking one aspect out of a collection lowers the score by that aspect's
/// weight.
proof fn score_remove(aspects: Seq<Aspect>, i: int)
    requires
        0 <= i < aspects.len(),
    ensures
        score(aspects) == score(aspects.remove(i)) + weight(aspects[i]),
    decreases aspects.len(),
{
    if i == aspects.len() - 1 {
        assert(aspects.remove(i) == aspects.drop_last());
    } else {
        score_remove(aspects.drop_last(), i);
        assert(aspects.remove(i).drop_last() == aspects.drop_last().remove(i));
        assert(aspects.remove(i).last() == aspects.last());
    }
}

/// The score depends on which aspects are held and how often, not on the
/// order they come in.
pub proof fn score_ignores_order(first: Seq<Aspect>, second: Seq<Aspect>)
    requires
        first.to_multiset() == second.to_multiset(),
    ensures
        score(first) == score(second),
    decreases first.len(),
{
    first.to_multiset_ensures();
    second.to_multiset_ensures();
    if first.len() == 0 {
    } else {
        let last = first.last();
        assert(first.contains(last));
        assert(second.to_multiset().count(last) > 0);
        assert(second.contains(last));
        let j = choose|j: int| 0 <= j < second.len() && second[j] == last;
        assert(first.drop_last() == first.remove(first.len() - 1));
        assert(first.drop_last().to_multiset() == second.remove(j).to_multiset());
        score_ignores_order(first.drop_last(), second.remove(j));
        score_remove(second, j);
    }
}

/// The ending is settled by the aspects held at the end: two rows of
/// sockets that hold the same aspects equally often lead to the same
/// ending, wherever the sockets stand and whatever else differs.
pub proof fn ending_depends_on_aspects_held(first: Seq<PlacedSocket>, second: Seq<PlacedSocket>)
    requires
        aspects_of(first).to_multiset() == aspects_of(second).to_multiset(),
    ensures
        ending_for(score(aspects_of(first))) == ending_for(score(aspects_of(second))),
{
    score_ignores_order(aspects_of(first), aspects_of(second));
}

/// The name a narrator dialogue goes by: the title of its node in the
/// dialogue scripts.
pub open spec fn narrator_dialogue_name(dialogue: NarratorDialogue) -> Seq<char> {
    match dialogue {
        NarratorDialogue::Intro => "Intro"@,
        NarratorDialogue::GoodEnding => "GoodEnding"@,
        NarratorDialogue::BadEndingTooPositive => "BadEndingTooPositive"@,
        NarratorDialogue::BadEndingTooNegative => "BadEndingTooNegative"@,
    }
}

/// The narrator dialogue that goes by `name`, if there is one.
pub open spec fn narrator_dialogue_named(name: Seq<char>) -> Option<NarratorDialogue> {
    if name == "Intro"@ {
        Some(NarratorDialogue::Intro)
    } else if name == "GoodEnding"@ {
        Some(NarratorDialogue::GoodEnding)
    } else if name == "BadEndingTooPositive"@ {
        Some(NarratorDialogue::BadEndingTooPositive)
    } else if name == "BadEndingTooNegative"@ {
        Some(NarratorDialogue::BadEndingTooNegative)
    } else {
        None
    }
}

/// Reading back a narrator dialogue's own name gives that dialogue.
pub proof fn narrator_dialogue_name_round_trip(dialogue: NarratorDialogue)
    ensures
        narrator_dialogue_named(narrator_dialogue_name(dialogue)) == Some(dialogue),
{
    reveal_strlit("Intro");
    reveal_strlit("GoodEnding");
    reveal_strlit("BadEndingTooPositive");
    reveal_strlit("BadEndingTooNegative");
    assert("Intro"@.len() == 5);
    assert("GoodEnding"@.len() == 10);
    assert("BadEndingTooPositive"@.len() == 20 && "BadEndingTooPositive"@[12] == 'P');
    assert("BadEndingTooNegative"@.len() == 20 && "BadEndingTooNegative"@[12] == 'N');
}

impl NarratorDialogue {
    /// The dialogue's name.
    pub fn name(&self) -> (name: &'static str)
        ensures
            name@ == narrator_dialogue_name(*self),
    {
        match self {
            NarratorDialogue::Intro => "Intro",
            NarratorDialogue::GoodEnding => "GoodEnding",
            NarratorDialogue::BadEndingTooPositive => "BadEndingTooPositive",
            NarratorDialogue::BadEndingTooNegative => "BadEndingTooNegative",
        }
    }

    /// Every narrator dialogue: the introduction, then the endings.
    pub fn all() -> (all: Vec<NarratorDialogue>)
        ensures
            all@ == seq![
                NarratorDialogue::Intro,
                NarratorDialogue::GoodEnding,
                NarratorDialogue::BadEndingTooPositive,
                NarratorDialogue::BadEndingTooNegative,
            ],
    {
        vec![
            NarratorDialogue::Intro,
            NarratorDialogue::GoodEnding,
            NarratorDialogue::BadEndingTooPositive,
            NarratorDialogue::BadEndingTooNegative,
        ]
    }

    /// Reads a narrator dialogue's name. A text that names none gives
    /// `None`.
    pub fn from_name(name: &str) -> (dialogue: Option<NarratorDialogue>)
        ensures
            dialogue == narrator_dialogue_named(name@),
    {
        if same_text(name, "Intro") {
            Some(NarratorDialogue::Intro)
        } else if same_text(name, "GoodEnding") {
            Some(NarratorDialogue::GoodEnding)
        } else if same_text(name, "BadEndingTooPositive") {
            Some(NarratorDialogue::BadEndingTooPositive)
        } else if same_text(name, "BadEndingTooNegative") {
            Some(NarratorDialogue::BadEndingTooNegative)
        } else {
            None
        }
    }
}

} // verus!
