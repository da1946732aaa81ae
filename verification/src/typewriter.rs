//! The typewriter that spells a line of dialogue out, one grapheme cluster
//! after the other.

use unicode_segmentation::UnicodeSegmentation;
use vstd::prelude::*;
use vstd::string::StringExecFns;

verus! {

/// The extended grapheme clusters of a text, in the text's order: what a
/// reader takes for its single characters.
pub uninterp spec fn grapheme_clusters(text: Seq<char>) -> Seq<Seq<char>>;

/// The characters of each string of a row.
pub open spec fn texts(strings: Seq<String>) -> Seq<Seq<char>> {
    strings.map_values(|s: String| s@)
}

/// Splits a text into its extended grapheme clusters.
///
/// Calls `UnicodeSegmentation::graphemes` of the crate
/// `unicode-segmentation` with `is_extended` set, and is believed, not
/// proved. Claimed of it: that the clusters depend on the text alone, and
/// that they are consecutive pieces of the text which together make up all
/// of it.
#[verifier::external_body]
fn graphemes_of(text: &str) -> (clusters: Vec<String>)
    ensures
        texts(clusters@) == grapheme_clusters(text@),
        texts(clusters@).flatten() == text@,
{
    UnicodeSegmentation::graphemes(text, true).map(|s| s.to_string()).collect()
}

/// A pause that punctuation puts into the typing.
#[derive(Clone, Copy, PartialEq, Eq, Structural, Debug)]
pub enum Pause {
    Flow,
    Comma,
    Period,
    Dash,
    Question,
}

/// The pause after a piece of text: the longest that its punctuation asks
/// for. A question mark outweighs a dash, a dash a full stop, and a full
/// stop a comma.
pub open spec fn pause_after(text: Seq<char>) -> Pause {
    if text.contains('?') {
        Pause::Question
    } else if text.contains('-') {
        Pause::Dash
    } else if text.contains('.') {
        Pause::Period
    } else if text.contains(',') {
        Pause::Comma
    } else {
        Pause::Flow
    }
}

impl Pause {
    /// The length of the pause in hundredths of a second, at the speed the
    /// average speaker is typed at.
    pub open spec fn spec_hundredths(self) -> u32 {
        match self {
            Pause::Flow => 0,
            Pause::Comma => 10,
            Pause::Period => 20,
            Pause::Dash => 25,
            Pause::Question => 35,
        }
    }

    /// The length of the pause in hundredths of a second, at the speed the
    /// average speaker is typed at.
    #[verifier::when_used_as_spec(spec_hundredths)]
    pub fn hundredths(self) -> (length: u32)
        ensures
            length == self.spec_hundredths(),
    {
        match self {
            Pause::Flow => 0,
            Pause::Comma => 10,
            Pause::Period => 20,
            Pause::Dash => 25,
            Pause::Question => 35,
        }
    }
}

/// Whether `c` occurs in `text`.
fn contains_char(text: &str, c: char) -> (found: bool)
    ensures
        found == text@.contains(c),
{
    let n = text.unicode_len();
    let mut i: usize = 0;
    while i < n
        invariant
            i <= n,
            n == text@.len(),
            forall|j: int| 0 <= j < i ==> text@[j] != c,
        decreases n - i,
    {
        if text.get_char(i) == c {
            return true;
        }
        i += 1;
    }
    false
}

/// The pause that the punctuation of a freshly typed piece of text asks
/// for.
pub fn punctuation_pause(added: &str) -> (pause: Pause)
    ensures
        pause == pause_after(added@),
{
    if contains_char(added, '?') {
        Pause::Question
    } else if contains_char(added, '-') {
        Pause::Dash
    } else if contains_char(added, '.') {
        Pause::Period
    } else if contains_char(added, ',') {
        Pause::Comma
    } else {
        Pause::Flow
    }
}

/// Whether a freshly typed piece of text makes a typing sound: anything
/// does but a lone space.
pub fn wants_blip(added: &str) -> (blip: bool)
    ensures
        blip == (added@.len() > 0 && added@ != seq![' ']),
{
    let n = added.unicode_len();
    if n == 0 {
        return false;
    }
    if n == 1 && added.get_char(0) == ' ' {
        assert(added@ =~= seq![' ']);
        return false;
    }
    true
}

/// The line being typed: who speaks it, what of it is on screen, and what
/// is still to come.
pub struct Typewriter {
    /// The speaker, where the line has one.
    pub character_name: Option<String>,
    /// What has been typed so far.
    pub current_text: String,
    /// The grapheme clusters still to be typed, the next one first.
    pub graphemes_left: Vec<String>,
    /// Whether the end of this line has been announced.
    pub last_finished: bool,
}

/// A typewriter, seen as plain text.
pub struct TypewriterView {
    pub character_name: Option<Seq<char>>,
    pub current_text: Seq<char>,
    pub graphemes_left: Seq<Seq<char>>,
    pub last_finished: bool,
}

impl TypewriterView {
    /// Whether the line is typed out: nothing is left, and something is on
    /// screen.
    pub open spec fn is_finished(self) -> bool {
        self.graphemes_left.len() == 0 && self.current_text.len() > 0
    }

    /// How many clusters are typed when time allows for `calculated`.
    pub open spec fn take_count(self, calculated: nat) -> nat {
        if calculated <= self.graphemes_left.len() {
            calculated
        } else {
            self.graphemes_left.len()
        }
    }

    /// The text that is typed when time allows for `calculated` clusters.
    pub open spec fn next_text(self, calculated: nat) -> Seq<char> {
        self.graphemes_left.take(self.take_count(calculated) as int).flatten()
    }

    /// The typewriter after that text was typed.
    pub open spec fn typed(self, calculated: nat) -> TypewriterView {
        TypewriterView {
            current_text: self.current_text + self.next_text(calculated),
            graphemes_left: self.graphemes_left.skip(self.take_count(calculated) as int),
            ..self
        }
    }

    /// The whole line: what is on screen, then what is to come.
    pub open spec fn line(self) -> Seq<char> {
        self.current_text + self.graphemes_left.flatten()
    }
}

impl View for Typewriter {
    type V = TypewriterView;

    open spec fn view(&self) -> TypewriterView {
        TypewriterView {
            character_name: match self.character_name {
                Some(name) => Some(name@),
                None => None,
            },
            current_text: self.current_text@,
            graphemes_left: texts(self.graphemes_left@),
            last_finished: self.last_finished,
        }
    }
}

impl Default for Typewriter {
    fn default() -> (r: Typewriter)
        ensures
            r@ == (TypewriterView {
                character_name: None,
                current_text: Seq::empty(),
                graphemes_left: Seq::empty(),
                last_finished: false,
            }),
    {
        let r = Typewriter {
            character_name: None,
            current_text: String::new(),
            graphemes_left: Vec::new(),
            last_finished: false,
        };
        assert(texts(r.graphemes_left@) =~= Seq::empty());
        r
    }
}

/// Joins a row of strings into one.
fn concat(strings: &Vec<String>) -> (joined: String)
    ensures
        joined@ == texts(strings@).flatten(),
{
    let mut joined = String::new();
    let mut i: usize = 0;
    while i < strings.len()
        invariant
            i <= strings.len(),
            joined@ == texts(strings@).take(i as int).flatten(),
        decreases strings.len() - i,
    {
        proof {
            let all = texts(strings@);
            assert(all.take(i + 1) == all.take(i as int).push(strings@[i as int]@));
            all.take(i as int).lemma_flatten_push(strings@[i as int]@);
        }
        joined.append(strings[i].as_str());
        i += 1;
    }
    proof {
        assert(texts(strings@).take(strings.len() as int) == texts(strings@));
    }
    joined
}

impl Typewriter {
    /// Starts a new line that is already split into its grapheme clusters.
    pub fn set_graphemes(&mut self, character_name: Option<&str>, graphemes: Vec<String>)
        ensures
            final(self)@ == (TypewriterView {
                character_name: match character_name {
                    Some(name) => Some(name@),
                    None => None,
                },
                current_text: Seq::empty(),
                graphemes_left: texts(graphemes@),
                last_finished: false,
            }),
    {
        self.character_name = match character_name {
            Some(name) => Some(String::from_str(name)),
            None => None,
        };
        self.current_text = String::new();
        self.graphemes_left = graphemes;
        self.last_finished = false;
    }

    /// Starts a new line: nothing of it is on screen yet, and all of its
    /// grapheme clusters are still to come.
    pub fn set_line(&mut self, character_name: Option<&str>, text: &str)
        ensures
            final(self)@ == (TypewriterView {
                character_name: match character_name {
                    Some(name) => Some(name@),
                    None => None,
                },
                current_text: Seq::empty(),
                graphemes_left: grapheme_clusters(text@),
                last_finished: false,
            }),
            final(self)@.line() == text@,
    {
        let graphemes = graphemes_of(text);
        self.set_graphemes(character_name, graphemes);
    }

    /// Whether the line is typed out.
    pub fn is_finished(&self) -> (finished: bool)
        ensures
            finished == self@.is_finished(),
    {
        self.graphemes_left.len() == 0 && self.current_text.as_str().unicode_len() > 0
    }

    /// Types as many of the clusters still to come as time allows for, and
    /// returns what was typed.
    pub fn update_current_text(&mut self, calculated_graphemes: usize) -> (added: String)
        ensures
            final(self)@ == old(self)@.typed(calculated_graphemes as nat),
            added@ == old(self)@.next_text(calculated_graphemes as nat),
            final(self)@.line() == old(self)@.line(),
    {
        let graphemes_left = self.graphemes_left.len();
        let grapheme_length_to_take = if calculated_graphemes <= graphemes_left {
            calculated_graphemes
        } else {
            graphemes_left
        };
        let rest = self.graphemes_left.split_off(grapheme_length_to_take);
        let graphemes_to_take = concat(&self.graphemes_left);
        proof {
            let left = old(self)@.graphemes_left;
            let n = grapheme_length_to_take as int;
            assert(texts(self.graphemes_left@) == left.take(n));
            assert(texts(rest@) == left.skip(n));
            assert(left == left.take(n) + left.skip(n));
            vstd::seq_lib::lemma_flatten_concat(left.take(n), left.skip(n));
        }
        self.graphemes_left = rest;
        self.current_text.append(graphemes_to_take.as_str());
        graphemes_to_take
    }

    /// The text still to come, in one piece.
    pub fn text_left(&self) -> (rest: String)
        ensures
            rest@ == self@.graphemes_left.flatten(),
    {
        concat(&self.graphemes_left)
    }

    /// Says, once per line, that the line is typed out.
    pub fn send_finished_event(&mut self) -> (finished_now: bool)
        ensures
            finished_now == (old(self)@.is_finished() && !old(self)@.last_finished),
            final(self)@ == (TypewriterView {
                last_finished: old(self)@.last_finished || old(self)@.is_finished(),
                ..old(self)@
            }),
    {
        if self.is_finished() && !self.last_finished {
            self.last_finished = true;
            true
        } else {
            false
        }
    }
}

/// A line that is typed to its end reads as the line did when it was set:
/// typing moves text from what is to come to what is on screen, and
/// nothing else.
pub proof fn typing_out_gives_the_line(typewriter: TypewriterView, calculated: nat)
    requires
        calculated >= typewriter.graphemes_left.len(),
    ensures
        typewriter.typed(calculated).graphemes_left.len() == 0,
        typewriter.typed(calculated).current_text == typewriter.line(),
{
    let left = typewriter.graphemes_left;
    assert(left.take(left.len() as int) == left);
}

/// Whether the dialogue moves on to its next line: it does on the continue
/// input, once the line on screen is typed out.
pub fn continue_dialogue(dialogue_continue: bool, typewriter: &Typewriter) -> (moves_on: bool)
    ensures
        moves_on == (dialogue_continue && typewriter@.is_finished()),
{
    if dialogue_continue && !typewriter.is_finished() {
        return false;
    }
    if !dialogue_continue {
        return false;
    }
    true
}

} // verus!
