//! Aspects: the emotions the player collects and combines.

use crate::text::same_text;
use vstd::prelude::*;

verus! {

/// An emotion the player can hold, stage and combine.
///
/// `NotImplemented` is the sentinel: an empty socket holds it, and combining
/// two aspects that no rule covers yields it.
#[derive(Clone, Copy, PartialEq, Eq, Structural, Debug, Hash)]
pub enum Aspect {
    NotImplemented,
    Joy,
    Sadness,
    Anger,
    Fear,
    Nostalgia,
    Motivation,
    Melancholy,
    Hatred,
    Vengefulness,
    Elation,
    Anticipation,
    Envy,
    Pride,
    Forgiveness,
}

impl Default for Aspect {
    fn default() -> (r: Aspect)
        ensures
            r == Aspect::NotImplemented,
    {
        Aspect::NotImplemented
    }
}

/// Every aspect, the sentinel first.
pub open spec fn all_aspects() -> Seq<Aspect> {
    seq![
        Aspect::NotImplemented,
        Aspect::Joy,
        Aspect::Sadness,
        Aspect::Anger,
        Aspect::Fear,
        Aspect::Nostalgia,
        Aspect::Motivation,
        Aspect::Melancholy,
        Aspect::Hatred,
        Aspect::Vengefulness,
        Aspect::Elation,
        Aspect::Anticipation,
        Aspect::Envy,
        Aspect::Pride,
        Aspect::Forgiveness,
    ]
}

/// `all_aspects` lists every aspect, and each of them once.
pub proof fn all_aspects_complete(aspect: Aspect)
    ensures
        all_aspects().contains(aspect),
        all_aspects().no_duplicates(),
        all_aspects().len() == 15,
{
    let all = all_aspects();
    let i: int = match aspect {
        Aspect::NotImplemented => 0,
        Aspect::Joy => 1,
        Aspect::Sadness => 2,
        Aspect::Anger => 3,
        Aspect::Fear => 4,
        Aspect::Nostalgia => 5,
        Aspect::Motivation => 6,
        Aspect::Melancholy => 7,
        Aspect::Hatred => 8,
        Aspect::Vengefulness => 9,
        Aspect::Elation => 10,
        Aspect::Anticipation => 11,
        Aspect::Envy => 12,
        Aspect::Pride => 13,
        Aspect::Forgiveness => 14,
    };
    assert(all[i] == aspect);
}

/// The name an aspect goes by: in the level data, on the label above its
/// socket, and as the title of the dialogue that its discovery starts.
pub open spec fn aspect_name(aspect: Aspect) -> Seq<char> {
    match aspect {
        Aspect::NotImplemented => "NotImplemented"@,
        Aspect::Joy => "Joy"@,
        Aspect::Sadness => "Sadness"@,
        Aspect::Anger => "Anger"@,
        Aspect::Fear => "Fear"@,
        Aspect::Nostalgia => "Nostalgia"@,
        Aspect::Motivation => "Motivation"@,
        Aspect::Melancholy => "Melancholy"@,
        Aspect::Hatred => "Hatred"@,
        Aspect::Vengefulness => "Vengefulness"@,
        Aspect::Elation => "Elation"@,
        Aspect::Anticipation => "Anticipation"@,
        Aspect::Envy => "Envy"@,
        Aspect::Pride => "Pride"@,
        Aspect::Forgiveness => "Forgiveness"@,
    }
}

/// The aspect that goes by `name`, if there is one. Names are matched
/// exactly, capitals included.
pub open spec fn aspect_named(name: Seq<char>) -> Option<Aspect> {
    if exists|aspect: Aspect| aspect_name(aspect) == name {
        Some(choose|aspect: Aspect| aspect_name(aspect) == name)
    } else {
        None
    }
}

/// No two aspects share a name.
pub proof fn aspect_names_differ(a: Aspect, b: Aspect)
    requires
        aspect_name(a) == aspect_name(b),
    ensures
        a == b,
{
    reveal_strlit("NotImplemented");
    reveal_strlit("Joy");
    reveal_strlit("Sadness");
    reveal_strlit("Anger");
    reveal_strlit("Fear");
    reveal_strlit("Nostalgia");
    reveal_strlit("Motivation");
    reveal_strlit("Melancholy");
    reveal_strlit("Hatred");
    reveal_strlit("Vengefulness");
    reveal_strlit("Elation");
    reveal_strlit("Anticipation");
    reveal_strlit("Envy");
    reveal_strlit("Pride");
    reveal_strlit("Forgiveness");
    assert("NotImplemented"@.len() == 14);
    assert("Joy"@.len() == 3);
    assert("Sadness"@.len() == 7);
    assert("Anger"@.len() == 5);
    assert("Fear"@.len() == 4);
    assert("Nostalgia"@.len() == 9);
    assert("Motivation"@.len() == 10);
    assert("Melancholy"@.len() == 10);
    assert("Hatred"@.len() == 6);
    assert("Vengefulness"@.len() == 12);
    assert("Elation"@.len() == 7);
    assert("Anticipation"@.len() == 12);
    assert("Envy"@.len() == 4);
    assert("Pride"@.len() == 5);
    assert("Forgiveness"@.len() == 11);
    assert("Sadness"@[0] == 'S');
    assert("Elation"@[0] == 'E');
    assert("Anger"@[0] == 'A');
    assert("Pride"@[0] == 'P');
    assert("Fear"@[0] == 'F');
    assert("Envy"@[0] == 'E');
    assert("Vengefulness"@[0] == 'V');
    assert("Anticipation"@[0] == 'A');
    assert("Motivation"@[1] == 'o');
    assert("Melancholy"@[1] == 'e');
}

/// Reading back an aspect's own name gives that aspect.
pub proof fn aspect_name_round_trip(aspect: Aspect)
    ensures
        aspect_named(aspect_name(aspect)) == Some(aspect),
{
    let found = choose|found: Aspect| aspect_name(found) == aspect_name(aspect);
    aspect_names_differ(found, aspect);
}

impl Aspect {
    /// The aspect's name.
    pub fn name(&self) -> (name: &'static str)
        ensures
            name@ == aspect_name(*self),
    {
        match self {
            Aspect::NotImplemented => "NotImplemented",
            Aspect::Joy => "Joy",
            Aspect::Sadness => "Sadness",
            Aspect::Anger => "Anger",
            Aspect::Fear => "Fear",
            Aspect::Nostalgia => "Nostalgia",
            Aspect::Motivation => "Motivation",
            Aspect::Melancholy => "Melancholy",
            Aspect::Hatred => "Hatred",
            Aspect::Vengefulness => "Vengefulness",
            Aspect::Elation => "Elation",
            Aspect::Anticipation => "Anticipation",
            Aspect::Envy => "Envy",
            Aspect::Pride => "Pride",
            Aspect::Forgiveness => "Forgiveness",
        }
    }

    /// Every aspect, the sentinel first.
    pub fn all() -> (all: Vec<Aspect>)
        ensures
            all@ == all_aspects(),
    {
        vec![
            Aspect::NotImplemented,
            Aspect::Joy,
            Aspect::Sadness,
            Aspect::Anger,
            Aspect::Fear,
            Aspect::Nostalgia,
            Aspect::Motivation,
            Aspect::Melancholy,
            Aspect::Hatred,
            Aspect::Vengefulness,
            Aspect::Elation,
            Aspect::Anticipation,
            Aspect::Envy,
            Aspect::Pride,
            Aspect::Forgiveness,
        ]
    }

    /// Reads an aspect's name. A text that names no aspect gives `None`.
    pub fn from_name(name: &str) -> (aspect: Option<Aspect>)
        ensures
            aspect == aspect_named(name@),
    {
        let all = Aspect::all();
        let mut i: usize = 0;
        while i < all.len()
            invariant
                i <= all.len(),
                all@ == all_aspects(),
                forall|j: int| 0 <= j < i ==> aspect_name(all@[j]) != name@,
            decreases all.len() - i,
        {
            if same_text(all[i].name(), name) {
                proof {
                    aspect_name_round_trip(all@[i as int]);
                }
                return Some(all[i]);
            }
            i += 1;
        }
        proof {
            assert forall|aspect: Aspect| aspect_name(aspect) != name@ by {
                all_aspects_complete(aspect);
            }
        }
        None
    }
}

} // verus!
