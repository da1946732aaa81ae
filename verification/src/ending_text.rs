//! The closing words of the game, written onto the screen one character
//! at a time.

use vstd::prelude::*;
use vstd::string::StringExecFns;

verus! {

/// A text that writes itself: what of it is on screen, and what is still
/// to come.
pub struct WriteableText {
    pub written_text: String,
    pub text_left: String,
}

/// What the text's timer has to do after a tick.
#[derive(Clone, Copy, PartialEq, Eq, Structural, Debug)]
pub enum WriteStep {
    /// The text is written out; the timer stops.
    Stop,
    /// The first character was written: the delay before the text is over,
    /// and the timer goes on at the pace of the characters.
    First,
    /// Another character was written.
    Next,
}

/// A writeable text, seen as plain text.
pub struct WriteableTextView {
    pub written_text: Seq<char>,
    pub text_left: Seq<char>,
}

impl WriteableTextView {
    /// The whole text.
    pub open spec fn text(self) -> Seq<char> {
        self.written_text + self.text_left
    }

    /// The text after a tick of its timer: the next character has moved
    /// onto the screen, if there was one.
    pub open spec fn after_tick(self) -> WriteableTextView {
        if self.text_left.len() == 0 {
            self
        } else {
            WriteableTextView {
                written_text: self.written_text.push(self.text_left[0]),
                text_left: self.text_left.drop_first(),
            }
        }
    }

    /// What the timer has to do after the tick.
    pub open spec fn step(self) -> WriteStep {
        if self.text_left.len() == 0 {
            WriteStep::Stop
        } else if self.written_text.len() == 0 {
            WriteStep::First
        } else {
            WriteStep::Next
        }
    }
}

impl View for WriteableText {
    type V = WriteableTextView;

    open spec fn view(&self) -> WriteableTextView {
        WriteableTextView { written_text: self.written_text@, text_left: self.text_left@ }
    }
}

impl WriteableText {
    /// A text of which nothing is written yet.
    pub fn new(text_left: &str) -> (r: WriteableText)
        ensures
            r@ == (WriteableTextView { written_text: Seq::empty(), text_left: text_left@ }),
    {
        WriteableText { written_text: String::new(), text_left: String::from_str(text_left) }
    }

    /// Writes the next character, and says what the timer has to do.
    pub fn write_next_char(&mut self) -> (step: WriteStep)
        ensures
            step == old(self)@.step(),
            final(self)@ == old(self)@.after_tick(),
            final(self)@.text() == old(self)@.text(),
    {
        let n = self.text_left.as_str().unicode_len();
        if n == 0 {
            return WriteStep::Stop;
        }
        let step = if self.written_text.as_str().unicode_len() == 0 {
            WriteStep::First
        } else {
            WriteStep::Next
        };
        let rest = String::from_str(self.text_left.as_str().substring_char(1, n));
        proof {
            let left = self.text_left@;
            assert(left.subrange(0, 1) == seq![left[0]]);
            assert(left.subrange(1, n as int) == left.drop_first());
            assert(self.written_text@ + left == self.written_text@.push(left[0])
                + left.drop_first());
        }
        self.written_text.append(self.text_left.as_str().substring_char(0, 1));
        self.text_left = rest;
        proof {
            let before = old(self)@;
            assert(self@.written_text =~= before.written_text.push(before.text_left[0]));
        }
        step
    }
}

/// A text of `n` characters is on screen in full after `n` ticks, and the
/// tick after that stops the timer.
pub proof fn text_written_after_its_length(text: WriteableTextView)
    ensures
        ticked(text, text.text_left.len()).written_text == text.text(),
        ticked(text, text.text_left.len()).step() == WriteStep::Stop,
    decreases text.text_left.len(),
{
    if text.text_left.len() > 0 {
        let next = text.after_tick();
        text_written_after_its_length(next);
        assert(next.text() == text.text());
    } else {
        assert(text.text() == text.written_text);
    }
}

/// The text after `ticks` ticks of its timer.
pub open spec fn ticked(text: WriteableTextView, ticks: nat) -> WriteableTextView
    decreases ticks,
{
    if ticks == 0 {
        text
    } else {
        ticked(text.after_tick(), (ticks - 1) as nat)
    }
}

} // verus!
