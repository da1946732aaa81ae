use aspect_combiner::aspect::Aspect;
use aspect_combiner::narrator::{
    determine_ending, ending_score, evaluate_aspect, NarratorDialogue, GOOD_ENDING_THRESHOLD,
};
use aspect_combiner::socket::{PlacedSocket, Socket};

fn row(aspects: &[Aspect]) -> Vec<PlacedSocket> {
    aspects
        .iter()
        .enumerate()
        .map(|(i, aspect)| PlacedSocket {
            socket: Socket {
                aspect: *aspect,
                on_top: i % 2 == 0,
            },
            x: i as i32,
            in_reach: false,
            highlighted: false,
        })
        .collect()
}

#[test]
fn every_aspect_has_its_weight() {
    assert_eq!(evaluate_aspect(Aspect::NotImplemented), 0);
    assert_eq!(evaluate_aspect(Aspect::Joy), 2);
    assert_eq!(evaluate_aspect(Aspect::Sadness), 0);
    assert_eq!(evaluate_aspect(Aspect::Anger), -2);
    assert_eq!(evaluate_aspect(Aspect::Fear), -1);
    assert_eq!(evaluate_aspect(Aspect::Nostalgia), 2);
    assert_eq!(evaluate_aspect(Aspect::Motivation), 3);
    assert_eq!(evaluate_aspect(Aspect::Melancholy), 2);
    assert_eq!(evaluate_aspect(Aspect::Hatred), -4);
    assert_eq!(evaluate_aspect(Aspect::Vengefulness), -6);
    assert_eq!(evaluate_aspect(Aspect::Elation), 4);
    assert_eq!(evaluate_aspect(Aspect::Anticipation), 3);
    assert_eq!(evaluate_aspect(Aspect::Envy), -5);
    assert_eq!(evaluate_aspect(Aspect::Pride), -4);
    assert_eq!(evaluate_aspect(Aspect::Forgiveness), 6);
}

#[test]
fn the_threshold_is_seven() {
    assert_eq!(GOOD_ENDING_THRESHOLD, 7);
}

#[test]
fn joy_and_forgiveness_are_too_positive() {
    let sockets = row(&[Aspect::Joy, Aspect::Forgiveness]);
    assert_eq!(ending_score(&sockets), 8);
    assert_eq!(
        determine_ending(&sockets),
        NarratorDialogue::BadEndingTooPositive
    );
}

#[test]
fn joy_and_sadness_end_well() {
    let sockets = row(&[Aspect::Joy, Aspect::Sadness]);
    assert_eq!(ending_score(&sockets), 2);
    assert_eq!(determine_ending(&sockets), NarratorDialogue::GoodEnding);
}

#[test]
fn hatred_and_vengefulness_are_too_negative() {
    let sockets = row(&[Aspect::Hatred, Aspect::Vengefulness]);
    assert_eq!(ending_score(&sockets), -10);
    assert_eq!(
        determine_ending(&sockets),
        NarratorDialogue::BadEndingTooNegative
    );
}

#[test]
fn a_score_on_the_threshold_still_ends_well() {
    let sockets = row(&[Aspect::Elation, Aspect::Motivation]);
    assert_eq!(ending_score(&sockets), 7);
    assert_eq!(determine_ending(&sockets), NarratorDialogue::GoodEnding);

    let sockets = row(&[Aspect::Envy, Aspect::Anger]);
    assert_eq!(ending_score(&sockets), -7);
    assert_eq!(determine_ending(&sockets), NarratorDialogue::GoodEnding);
}

#[test]
fn a_score_just_past_the_threshold_ends_badly() {
    let sockets = row(&[Aspect::Forgiveness, Aspect::Joy, Aspect::Sadness]);
    assert_eq!(ending_score(&sockets), 8);
    assert_eq!(
        determine_ending(&sockets),
        NarratorDialogue::BadEndingTooPositive
    );

    let sockets = row(&[Aspect::Vengefulness, Aspect::Anger]);
    assert_eq!(ending_score(&sockets), -8);
    assert_eq!(
        determine_ending(&sockets),
        NarratorDialogue::BadEndingTooNegative
    );
}

#[test]
fn no_sockets_end_well() {
    let sockets = row(&[]);
    assert_eq!(ending_score(&sockets), 0);
    assert_eq!(determine_ending(&sockets), NarratorDialogue::GoodEnding);
}

#[test]
fn empty_sockets_weigh_nothing() {
    let sockets = row(&[
        Aspect::NotImplemented,
        Aspect::Forgiveness,
        Aspect::NotImplemented,
    ]);
    assert_eq!(ending_score(&sockets), 6);
    assert_eq!(determine_ending(&sockets), NarratorDialogue::GoodEnding);
}

#[test]
fn the_ending_does_not_depend_on_the_order_of_the_sockets() {
    let aspects = [
        Aspect::Joy,
        Aspect::Hatred,
        Aspect::Forgiveness,
        Aspect::Elation,
        Aspect::Fear,
    ];
    let mut reversed = aspects;
    reversed.reverse();
    let mut rotated = aspects;
    rotated.rotate_left(2);
    let expected_score = 2 - 4 + 6 + 4 - 1;
    for arrangement in [aspects, reversed, rotated] {
        let sockets = row(&arrangement);
        assert_eq!(ending_score(&sockets), expected_score);
        assert_eq!(determine_ending(&sockets), NarratorDialogue::GoodEnding);
    }
}

#[test]
fn the_score_of_the_full_game_is_the_sum_of_all_weights() {
    let mut all = Aspect::all();
    all.retain(|aspect| *aspect != Aspect::NotImplemented);
    let sockets = row(&all);
    assert_eq!(ending_score(&sockets), 0);
    assert_eq!(determine_ending(&sockets), NarratorDialogue::GoodEnding);
}
