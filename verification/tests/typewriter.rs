use aspect_combiner::typewriter::{punctuation_pause, wants_blip, Pause, Typewriter};

fn strings(parts: &[&str]) -> Vec<String> {
    parts.iter().map(|part| part.to_string()).collect()
}

#[test]
fn a_new_typewriter_holds_nothing() {
    let typewriter = Typewriter::default();
    assert_eq!(typewriter.character_name, None);
    assert_eq!(typewriter.current_text, "");
    assert!(typewriter.graphemes_left.is_empty());
    assert!(!typewriter.last_finished);
    assert!(!typewriter.is_finished());
}

#[test]
fn a_line_is_split_into_grapheme_clusters() {
    let mut typewriter = Typewriter::default();
    typewriter.set_line(Some("Ami"), "a\u{310}e\u{301}o\u{308}\u{332}");
    assert_eq!(typewriter.character_name, Some("Ami".to_string()));
    assert_eq!(typewriter.current_text, "");
    assert_eq!(
        typewriter.graphemes_left,
        strings(&["a\u{310}", "e\u{301}", "o\u{308}\u{332}"])
    );

    typewriter.set_line(None, "a\r\nb🇷🇺🇸🇹");
    assert_eq!(typewriter.character_name, None);
    assert_eq!(
        typewriter.graphemes_left,
        strings(&["a", "\r\n", "b", "🇷🇺", "🇸🇹"])
    );

    typewriter.set_line(None, "Hi, Ami.");
    assert_eq!(
        typewriter.graphemes_left,
        strings(&["H", "i", ",", " ", "A", "m", "i", "."])
    );
}

#[test]
fn setting_a_line_starts_over() {
    let mut typewriter = Typewriter::default();
    typewriter.set_line(Some("Ima"), "Old");
    typewriter.update_current_text(3);
    assert!(typewriter.send_finished_event());
    typewriter.set_line(Some("_Ima"), "New");
    assert_eq!(typewriter.character_name, Some("_Ima".to_string()));
    assert_eq!(typewriter.current_text, "");
    assert_eq!(typewriter.graphemes_left, strings(&["N", "e", "w"]));
    assert!(!typewriter.last_finished);
    assert!(!typewriter.is_finished());
}

#[test]
fn a_line_given_in_clusters_is_taken_as_it_is() {
    let mut typewriter = Typewriter::default();
    typewriter.set_graphemes(Some("Ami"), strings(&["ab", "", "c"]));
    assert_eq!(typewriter.character_name, Some("Ami".to_string()));
    assert_eq!(typewriter.current_text, "");
    assert_eq!(typewriter.graphemes_left, strings(&["ab", "", "c"]));
    assert!(!typewriter.last_finished);
}

#[test]
fn typing_moves_clusters_onto_the_screen() {
    let mut typewriter = Typewriter::default();
    typewriter.set_line(None, "He\u{301}llo");
    assert_eq!(typewriter.update_current_text(0), "");
    assert_eq!(typewriter.current_text, "");
    assert_eq!(typewriter.update_current_text(2), "He\u{301}");
    assert_eq!(typewriter.current_text, "He\u{301}");
    assert_eq!(typewriter.graphemes_left, strings(&["l", "l", "o"]));
    assert_eq!(typewriter.text_left(), "llo");
    assert!(!typewriter.is_finished());
    assert_eq!(typewriter.update_current_text(1), "l");
    assert_eq!(typewriter.current_text, "He\u{301}l");
    assert_eq!(typewriter.update_current_text(10), "lo");
    assert_eq!(typewriter.current_text, "He\u{301}llo");
    assert!(typewriter.graphemes_left.is_empty());
    assert_eq!(typewriter.text_left(), "");
    assert!(typewriter.is_finished());
    assert_eq!(typewriter.update_current_text(10), "");
    assert_eq!(typewriter.current_text, "He\u{301}llo");
}

#[test]
fn an_empty_line_is_never_finished() {
    let mut typewriter = Typewriter::default();
    typewriter.set_line(None, "");
    assert!(typewriter.graphemes_left.is_empty());
    assert!(!typewriter.is_finished());
    assert_eq!(typewriter.update_current_text(3), "");
    assert!(!typewriter.is_finished());
    assert!(!typewriter.send_finished_event());
}

#[test]
fn the_end_of_a_line_is_announced_once() {
    let mut typewriter = Typewriter::default();
    typewriter.set_line(None, "Go");
    assert!(!typewriter.send_finished_event());
    typewriter.update_current_text(1);
    assert!(!typewriter.send_finished_event());
    assert!(!typewriter.last_finished);
    typewriter.update_current_text(1);
    assert!(typewriter.send_finished_event());
    assert!(typewriter.last_finished);
    assert!(!typewriter.send_finished_event());
    assert!(typewriter.last_finished);
    assert_eq!(typewriter.current_text, "Go");
}

#[test]
fn punctuation_makes_the_typewriter_pause() {
    assert_eq!(punctuation_pause("Really?"), Pause::Question);
    assert_eq!(punctuation_pause("well - no"), Pause::Dash);
    assert_eq!(punctuation_pause("No."), Pause::Period);
    assert_eq!(punctuation_pause("Oh, "), Pause::Comma);
    assert_eq!(punctuation_pause("Oh"), Pause::Flow);
    assert_eq!(punctuation_pause(""), Pause::Flow);
    assert_eq!(punctuation_pause("é…"), Pause::Flow);
}

#[test]
fn the_longest_pause_wins() {
    assert_eq!(punctuation_pause(",.-?"), Pause::Question);
    assert_eq!(punctuation_pause("?,"), Pause::Question);
    assert_eq!(punctuation_pause(",.-"), Pause::Dash);
    assert_eq!(punctuation_pause("-."), Pause::Dash);
    assert_eq!(punctuation_pause(",."), Pause::Period);
    assert_eq!(punctuation_pause(".,"), Pause::Period);
}

#[test]
fn pauses_are_measured_in_hundredths_of_a_second() {
    assert_eq!(Pause::Question.hundredths(), 35);
    assert_eq!(Pause::Dash.hundredths(), 25);
    assert_eq!(Pause::Period.hundredths(), 20);
    assert_eq!(Pause::Comma.hundredths(), 10);
    assert_eq!(Pause::Flow.hundredths(), 0);
}

#[test]
fn everything_but_a_lone_space_makes_a_sound() {
    assert!(wants_blip("a"));
    assert!(wants_blip("  "));
    assert!(wants_blip(" a"));
    assert!(wants_blip("."));
    assert!(wants_blip("\u{a0}"));
    assert!(!wants_blip(" "));
    assert!(!wants_blip(""));
}
