use aspect_combiner::aspect::Aspect;
use aspect_combiner::combination::aspect_combinations;

const RULES: [(Aspect, Aspect, Aspect); 10] = [
    (Aspect::Joy, Aspect::Sadness, Aspect::Nostalgia),
    (Aspect::Joy, Aspect::Nostalgia, Aspect::Motivation),
    (Aspect::Sadness, Aspect::Nostalgia, Aspect::Melancholy),
    (Aspect::Anger, Aspect::Fear, Aspect::Hatred),
    (Aspect::Anger, Aspect::Hatred, Aspect::Vengefulness),
    (Aspect::Joy, Aspect::Motivation, Aspect::Elation),
    (Aspect::Hatred, Aspect::Motivation, Aspect::Pride),
    (Aspect::Nostalgia, Aspect::Motivation, Aspect::Anticipation),
    (Aspect::Anger, Aspect::Pride, Aspect::Envy),
    (Aspect::Anticipation, Aspect::Elation, Aspect::Forgiveness),
];

fn rule_for(a: Aspect, b: Aspect) -> Option<Aspect> {
    RULES
        .iter()
        .find(|(x, y, _)| (*x == a && *y == b) || (*x == b && *y == a))
        .map(|(_, _, result)| *result)
}

#[test]
fn every_rule_holds_in_both_orders() {
    for (a, b, expected) in RULES {
        assert_eq!(aspect_combinations(&a, &b), expected);
        assert_eq!(aspect_combinations(&b, &a), expected);
    }
}

#[test]
fn combining_is_commutative_for_every_pair() {
    for a in Aspect::all() {
        for b in Aspect::all() {
            assert_eq!(aspect_combinations(&a, &b), aspect_combinations(&b, &a));
        }
    }
}

#[test]
fn unlisted_pairs_give_the_sentinel() {
    let mut unlisted = 0;
    for a in Aspect::all() {
        for b in Aspect::all() {
            match rule_for(a, b) {
                Some(expected) => assert_eq!(aspect_combinations(&a, &b), expected),
                None => {
                    unlisted += 1;
                    assert_eq!(aspect_combinations(&a, &b), Aspect::NotImplemented);
                }
            }
        }
    }
    assert_eq!(unlisted, 15 * 15 - 20);
}

#[test]
fn an_aspect_does_not_combine_with_itself() {
    for a in Aspect::all() {
        assert_eq!(aspect_combinations(&a, &a), Aspect::NotImplemented);
    }
}

#[test]
fn combining_real_aspects_never_gives_an_operand_back() {
    for a in Aspect::all() {
        for b in Aspect::all() {
            if a == Aspect::NotImplemented || b == Aspect::NotImplemented {
                continue;
            }
            let result = aspect_combinations(&a, &b);
            assert_ne!(result, a);
            assert_ne!(result, b);
        }
    }
}

#[test]
fn the_sentinel_combines_to_the_sentinel() {
    for a in Aspect::all() {
        assert_eq!(
            aspect_combinations(&Aspect::NotImplemented, &a),
            Aspect::NotImplemented
        );
        assert_eq!(
            aspect_combinations(&a, &Aspect::NotImplemented),
            Aspect::NotImplemented
        );
    }
}

#[test]
fn joy_and_sadness_make_nostalgia() {
    assert_eq!(
        aspect_combinations(&Aspect::Joy, &Aspect::Sadness),
        Aspect::Nostalgia
    );
    assert_eq!(
        aspect_combinations(&Aspect::Sadness, &Aspect::Joy),
        Aspect::Nostalgia
    );
}

#[test]
fn joy_and_anger_have_no_rule() {
    assert_eq!(
        aspect_combinations(&Aspect::Joy, &Aspect::Anger),
        Aspect::NotImplemented
    );
}

#[test]
fn the_default_aspect_is_the_sentinel() {
    assert_eq!(Aspect::default(), Aspect::NotImplemented);
}
