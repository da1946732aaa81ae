use aspect_combiner::aspect::Aspect;
use aspect_combiner::combiner::{
    check_all_aspects_full, select_combined_aspect, show_combiner_icon, CombinedAspect, Combiner,
    PreviewAction, SelectionCue,
};
use aspect_combiner::highlight::{highlight_combiner, highlight_sockets};
use aspect_combiner::selection::select_aspects;
use aspect_combiner::socket::{
    leftmost_empty_socket, push_combined_aspect, set_visuals_for_socket, AspectSocketInitiater,
    PlacedSocket, Socket,
};

fn at(aspect: Aspect, on_top: bool, x: i32) -> PlacedSocket {
    PlacedSocket {
        socket: Socket { aspect, on_top },
        x,
        in_reach: false,
        highlighted: false,
    }
}

fn discovered(aspect: Aspect) -> Combiner {
    Combiner {
        last_combined_aspect: aspect,
        ..Combiner::default()
    }
}

fn aspects(sockets: &[PlacedSocket]) -> Vec<Aspect> {
    sockets.iter().map(|s| s.socket.aspect).collect()
}

#[test]
fn the_leftmost_empty_socket_is_filled_first() {
    let mut sockets = vec![
        at(Aspect::NotImplemented, true, 5),
        at(Aspect::NotImplemented, true, 2),
        at(Aspect::NotImplemented, true, 9),
    ];
    let combiner = discovered(Aspect::Nostalgia);
    assert_eq!(set_visuals_for_socket(&combiner, &mut sockets, true), Some(1));
    assert_eq!(
        aspects(&sockets),
        vec![Aspect::NotImplemented, Aspect::Nostalgia, Aspect::NotImplemented]
    );
    let combiner = discovered(Aspect::Motivation);
    assert_eq!(set_visuals_for_socket(&combiner, &mut sockets, true), Some(0));
    let combiner = discovered(Aspect::Elation);
    assert_eq!(set_visuals_for_socket(&combiner, &mut sockets, true), Some(2));
    assert_eq!(
        aspects(&sockets),
        vec![Aspect::Motivation, Aspect::Nostalgia, Aspect::Elation]
    );
    assert_eq!(set_visuals_for_socket(&combiner, &mut sockets, true), None);
}

#[test]
fn the_write_back_passes_over_full_sockets_and_the_other_side() {
    let mut sockets = vec![
        at(Aspect::Joy, true, -4),
        at(Aspect::NotImplemented, false, -3),
        at(Aspect::NotImplemented, true, 7),
        at(Aspect::NotImplemented, true, 8),
    ];
    let before = sockets.clone();
    let combiner = discovered(Aspect::Hatred);
    assert_eq!(leftmost_empty_socket(&sockets, true), Some(2));
    assert_eq!(leftmost_empty_socket(&sockets, false), Some(1));
    assert_eq!(set_visuals_for_socket(&combiner, &mut sockets, true), Some(2));
    assert_eq!(
        sockets[2],
        PlacedSocket {
            socket: Socket {
                aspect: Aspect::Hatred,
                on_top: true
            },
            ..before[2]
        }
    );
    assert_eq!(sockets[0], before[0]);
    assert_eq!(sockets[1], before[1]);
    assert_eq!(sockets[3], before[3]);
}

#[test]
fn among_empty_sockets_at_one_position_the_first_is_filled() {
    let mut sockets = vec![
        at(Aspect::NotImplemented, false, 3),
        at(Aspect::NotImplemented, false, 1),
        at(Aspect::NotImplemented, false, 1),
    ];
    let combiner = discovered(Aspect::Pride);
    assert_eq!(set_visuals_for_socket(&combiner, &mut sockets, false), Some(1));
    assert_eq!(set_visuals_for_socket(&combiner, &mut sockets, false), Some(2));
    assert_eq!(set_visuals_for_socket(&combiner, &mut sockets, false), Some(0));
}

#[test]
fn positions_may_be_negative() {
    let sockets = vec![
        at(Aspect::NotImplemented, true, 0),
        at(Aspect::NotImplemented, true, i32::MIN),
        at(Aspect::NotImplemented, true, i32::MAX),
        at(Aspect::NotImplemented, true, -1),
    ];
    assert_eq!(leftmost_empty_socket(&sockets, true), Some(1));
}

#[test]
fn a_side_without_an_empty_socket_is_skipped() {
    let mut sockets = vec![at(Aspect::Joy, true, 0), at(Aspect::NotImplemented, false, 1)];
    let before = sockets.clone();
    assert_eq!(
        set_visuals_for_socket(&discovered(Aspect::Envy), &mut sockets, true),
        None
    );
    assert_eq!(sockets, before);
    let mut none: Vec<PlacedSocket> = Vec::new();
    assert_eq!(
        push_combined_aspect(&discovered(Aspect::Envy), &mut none),
        (None, None)
    );
    assert!(none.is_empty());
}

#[test]
fn a_discovery_goes_to_both_sides() {
    let mut sockets = vec![
        at(Aspect::Joy, true, 0),
        at(Aspect::Sadness, false, 0),
        at(Aspect::NotImplemented, true, 2),
        at(Aspect::NotImplemented, true, 1),
        at(Aspect::NotImplemented, false, 2),
        at(Aspect::NotImplemented, false, 1),
    ];
    let slots = push_combined_aspect(&discovered(Aspect::Nostalgia), &mut sockets);
    assert_eq!(slots, (Some(3), Some(5)));
    assert_eq!(
        aspects(&sockets),
        vec![
            Aspect::Joy,
            Aspect::Sadness,
            Aspect::NotImplemented,
            Aspect::Nostalgia,
            Aspect::NotImplemented,
            Aspect::Nostalgia,
        ]
    );
    let slots = push_combined_aspect(&discovered(Aspect::Motivation), &mut sockets);
    assert_eq!(slots, (Some(2), Some(4)));
    let slots = push_combined_aspect(&discovered(Aspect::Elation), &mut sockets);
    assert_eq!(slots, (None, None));
}

#[test]
fn writing_back_the_sentinel_leaves_the_socket_empty() {
    let mut sockets = vec![at(Aspect::NotImplemented, true, 0)];
    let before = sockets.clone();
    let slots = push_combined_aspect(&Combiner::default(), &mut sockets);
    assert_eq!(slots, (Some(0), None));
    assert_eq!(sockets, before);
}

#[test]
fn a_socket_is_set_up_from_the_level_data() {
    let initiater = AspectSocketInitiater::from_field(Some("Joy"), Some(true));
    assert_eq!(initiater.aspect, Aspect::Joy);
    assert!(initiater.on_top);
    assert_eq!(initiater.socket(), Socket { aspect: Aspect::Joy, on_top: true });

    let initiater = AspectSocketInitiater::from_field(Some("joy"), Some(false));
    assert_eq!(initiater.aspect, Aspect::NotImplemented);
    assert!(!initiater.on_top);

    let initiater = AspectSocketInitiater::from_field(None, None);
    assert_eq!(initiater.aspect, Aspect::NotImplemented);
    assert!(!initiater.on_top);

    let initiater = AspectSocketInitiater::from_field(Some("Forgiveness"), None);
    assert_eq!(initiater.aspect, Aspect::Forgiveness);
    assert!(!initiater.on_top);

    let initiater = AspectSocketInitiater::default();
    assert_eq!(initiater.aspect, Aspect::NotImplemented);
    assert!(!initiater.on_top);
}

#[test]
fn joy_and_sadness_are_combined_and_written_back() {
    let mut combiner = Combiner::default();
    let mut visible = false;
    let mut sockets = vec![
        at(Aspect::Joy, true, 0),
        at(Aspect::Sadness, false, 0),
        at(Aspect::NotImplemented, true, 2),
        at(Aspect::NotImplemented, true, 1),
        at(Aspect::NotImplemented, false, 1),
    ];

    // The player walks up to the socket that holds Joy and selects it.
    sockets[0].in_reach = true;
    highlight_sockets(&combiner, true, &mut sockets);
    assert!(sockets[0].highlighted);
    assert!(!sockets[1].highlighted);
    let cues = select_aspects(&mut combiner, true, &sockets);
    assert_eq!(cues, vec![SelectionCue::Select]);
    assert_eq!(combiner.left_aspect, Some(Aspect::Joy));
    assert_eq!(combiner.right_aspect, None);
    assert_eq!(show_combiner_icon(&mut combiner, true, &mut visible), PreviewAction::Keep);
    assert_eq!(highlight_combiner(&combiner, Some(false), &sockets), Some(false));
    assert_eq!(select_combined_aspect(&mut combiner, true, false), None);
    check_all_aspects_full(&mut combiner, &sockets);
    assert!(!combiner.all_sockets_full);

    // Then to the socket that holds Sadness.
    sockets[0].in_reach = false;
    sockets[1].in_reach = true;
    highlight_sockets(&combiner, true, &mut sockets);
    assert!(!sockets[0].highlighted);
    assert!(sockets[1].highlighted);
    let cues = select_aspects(&mut combiner, true, &sockets);
    assert_eq!(cues, vec![SelectionCue::Select]);
    assert_eq!(combiner.left_aspect, Some(Aspect::Joy));
    assert_eq!(combiner.right_aspect, Some(Aspect::Sadness));

    // The preview shows what the two make.
    assert_eq!(
        show_combiner_icon(&mut combiner, true, &mut visible),
        PreviewAction::Reveal(Aspect::Nostalgia)
    );
    assert_eq!(combiner.current_combination, Some(Aspect::Nostalgia));

    // At the combiner the player confirms.
    sockets[1].in_reach = false;
    highlight_sockets(&combiner, true, &mut sockets);
    let highlighted = highlight_combiner(&combiner, Some(true), &sockets);
    assert_eq!(highlighted, Some(true));
    let event = select_combined_aspect(&mut combiner, true, true);
    assert_eq!(event, Some(CombinedAspect));
    assert_eq!(combiner.last_combined_aspect, Aspect::Nostalgia);
    assert_eq!(combiner.left_aspect, None);
    assert_eq!(combiner.right_aspect, None);

    // The discovery goes into the leftmost empty socket of each side.
    let slots = push_combined_aspect(&combiner, &mut sockets);
    assert_eq!(slots, (Some(3), Some(4)));
    assert_eq!(sockets[3].socket.aspect, Aspect::Nostalgia);
    assert_eq!(sockets[4].socket.aspect, Aspect::Nostalgia);
    assert_eq!(sockets[2].socket.aspect, Aspect::NotImplemented);

    // The preview goes down again, and one socket is still empty.
    assert_eq!(show_combiner_icon(&mut combiner, true, &mut visible), PreviewAction::Conceal);
    check_all_aspects_full(&mut combiner, &sockets);
    assert!(!combiner.all_sockets_full);

    // The same pair cannot be confirmed a second time.
    combiner.left_aspect = Some(Aspect::Joy);
    combiner.right_aspect = Some(Aspect::Sadness);
    assert_eq!(highlight_combiner(&combiner, Some(true), &sockets), Some(false));
}

#[test]
fn a_socket_that_holds_an_aspect_is_never_overwritten() {
    let mut sockets = vec![
        at(Aspect::Joy, true, 0),
        at(Aspect::NotImplemented, true, 1),
        at(Aspect::Sadness, false, 0),
    ];
    let before = sockets.clone();
    for aspect in Aspect::all() {
        push_combined_aspect(&discovered(aspect), &mut sockets);
        assert_eq!(sockets.len(), 3);
        assert_eq!(sockets[0], before[0]);
        assert_eq!(sockets[2], before[2]);
        assert_eq!(sockets[1].x, before[1].x);
        assert!(sockets[1].socket.on_top);
    }
    // The first real aspect filled the empty socket, and it stayed.
    assert_eq!(sockets[1].socket.aspect, Aspect::Joy);
}

#[test]
fn full_sockets_stay_as_they_are() {
    let mut sockets = vec![
        at(Aspect::Joy, true, 0),
        at(Aspect::Nostalgia, true, 1),
        at(Aspect::Sadness, false, 0),
    ];
    let before = sockets.clone();
    assert_eq!(
        push_combined_aspect(&discovered(Aspect::Motivation), &mut sockets),
        (None, None)
    );
    assert_eq!(sockets, before);
}
