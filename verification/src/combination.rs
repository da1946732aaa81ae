//! The combination rule table: which two aspects merge into which third.

use crate::aspect::Aspect;
use vstd::prelude::*;

verus! {

/// The rule table as it is written down: the aspect that the ordered pair
/// `(a, b)` yields, or `NotImplemented` where the table has no such entry.
pub open spec fn rule(a: Aspect, b: Aspect) -> Aspect {
    match (a, b) {
        (Aspect::Joy, Aspect::Sadness) => Aspect::Nostalgia,
        (Aspect::Joy, Aspect::Nostalgia) => Aspect::Motivation,
        (Aspect::Sadness, Aspect::Nostalgia) => Aspect::Melancholy,
        (Aspect::Anger, Aspect::Fear) => Aspect::Hatred,
        (Aspect::Anger, Aspect::Hatred) => Aspect::Vengefulness,
        (Aspect::Joy, Aspect::Motivation) => Aspect::Elation,
        (Aspect::Hatred, Aspect::Motivation) => Aspect::Pride,
        (Aspect::Nostalgia, Aspect::Motivation) => Aspect::Anticipation,
        (Aspect::Anger, Aspect::Pride) => Aspect::Envy,
        (Aspect::Anticipation, Aspect::Elation) => Aspect::Forgiveness,
        _ => Aspect::NotImplemented,
    }
}

/// Whether the table lists the ordered pair `(a, b)`.
pub open spec fn listed(a: Aspect, b: Aspect) -> bool {
    rule(a, b) != Aspect::NotImplemented
}

/// What two aspects combine to, whichever way round they are given: the
/// table's entry for `(a, b)`, else its entry for `(b, a)`, else
/// `NotImplemented`.
pub open spec fn combine(a: Aspect, b: Aspect) -> Aspect {
    if listed(a, b) {
        rule(a, b)
    } else {
        rule(b, a)
    }
}

/// Looks one ordered pair up in the table.
fn match_aspects(left_aspect: &Aspect, right_aspect: &Aspect) -> (r: Aspect)
    ensures
        r == rule(*left_aspect, *right_aspect),
{
    match (left_aspect, right_aspect) {
        (Aspect::Joy, Aspect::Sadness) => Aspect::Nostalgia,
        (Aspect::Joy, Aspect::Nostalgia) => Aspect::Motivation,
        (Aspect::Sadness, Aspect::Nostalgia) => Aspect::Melancholy,
        (Aspect::Anger, Aspect::Fear) => Aspect::Hatred,
        (Aspect::Anger, Aspect::Hatred) => Aspect::Vengefulness,
        (Aspect::Joy, Aspect::Motivation) => Aspect::Elation,
        (Aspect::Hatred, Aspect::Motivation) => Aspect::Pride,
        (Aspect::Nostalgia, Aspect::Motivation) => Aspect::Anticipation,
        (Aspect::Anger, Aspect::Pride) => Aspect::Envy,
        (Aspect::Anticipation, Aspect::Elation) => Aspect::Forgiveness,
        _ => Aspect::NotImplemented,
    }
}

/// Combines two aspects. The order of the operands does not matter; a pair
/// that no rule covers gives `NotImplemented`.
pub fn aspect_combinations(left_aspect: &Aspect, right_aspect: &Aspect) -> (r: Aspect)
    ensures
        r == combine(*left_aspect, *right_aspect),
{
    let result_aspect = match_aspects(left_aspect, right_aspect);
    if result_aspect != Aspect::NotImplemented {
        result_aspect
    } else {
        match_aspects(right_aspect, left_aspect)
    }
}

/// Combining is commutative: swapping the operands never changes the
/// result.
pub proof fn combine_commutative(a: Aspect, b: Aspect)
    ensures
        combine(a, b) == combine(b, a),
{
}

/// A pair that the table lists in neither order combines to
/// `NotImplemented`, and only such a pair does.
pub proof fn combine_unlisted(a: Aspect, b: Aspect)
    ensures
        combine(a, b) == Aspect::NotImplemented <==> !listed(a, b) && !listed(b, a),
{
}

/// Combining two real aspects never gives one of them back.
///
/// The sentinel is left out: with `NotImplemented` as an operand no rule
/// applies, so the result is `NotImplemented` again.
pub proof fn combine_is_new(a: Aspect, b: Aspect)
    requires
        a != Aspect::NotImplemented,
        b != Aspect::NotImplemented,
    ensures
        combine(a, b) != a,
        combine(a, b) != b,
{
}

/// No rule takes the sentinel as an operand.
pub proof fn combine_sentinel(a: Aspect)
    ensures
        combine(Aspect::NotImplemented, a) == Aspect::NotImplemented,
        combine(a, Aspect::NotImplemented) == Aspect::NotImplemented,
{
}

} // verus!
