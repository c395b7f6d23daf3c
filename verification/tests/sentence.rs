use bevy_dialogue_system::action::ActionId;
use bevy_dialogue_system::sentence::Sentence;
use bevy_dialogue_system::style::{Color, FontId, TextStyle, DEFAULT_FONT_SIZE};
use bevy_dialogue_system::typewriter::{TypeWriter, SPEED_FULL, TIME_FULL};

#[test]
fn new_sentence_has_the_plain_style() {
    let sentence = Sentence::new();
    assert_eq!(sentence.text(), "");
    assert_eq!(*sentence.font(), FontId(0));
    assert_eq!(*sentence.font_size(), 32_000);
    assert_eq!(DEFAULT_FONT_SIZE, 32_000);
    assert_eq!(*sentence.color(), Color { red: 128, green: 128, blue: 128, alpha: 255 });
    assert_eq!(*sentence.color(), Color::gray());
    assert_eq!(sentence.get_action(), None);
    assert!(!sentence.typewriter().is_active());
    assert_eq!(sentence.typewriter().current_time(), 0);
    assert!(sentence.is_typewriter_finished());
    assert_eq!(sentence.typewriter_characters(), None);
}

#[test]
fn default_sentence_is_the_new_sentence() {
    let sentence = Sentence::default();
    assert_eq!(sentence.text(), "");
    assert_eq!(*sentence.font_size(), 32_000);
    assert_eq!(TextStyle::default().font_size, 32_000);
    assert_eq!(TextStyle::default().color, Color::gray());
    assert_eq!(TextStyle::default().font, FontId(0));
    assert_eq!(sentence.get_action(), None);
}

#[test]
fn text_setters_replace_the_text() {
    let mut sentence = Sentence::new().with_text("one");
    assert_eq!(sentence.text(), "one");
    sentence.set_text("two");
    assert_eq!(sentence.text(), "two");
    sentence.mut_text().push_str(" three");
    assert_eq!(sentence.text(), "two three");
    assert_eq!(sentence.to_string(), "two three");
}

#[test]
fn style_setters_change_one_value_each() {
    let red = Color { red: 255, green: 0, blue: 0, alpha: 255 };
    let mut sentence =
        Sentence::new().with_text("t").with_font(FontId(3)).with_font_size(64_000).with_color(red);
    assert_eq!(*sentence.font(), FontId(3));
    assert_eq!(*sentence.font_size(), 64_000);
    assert_eq!(*sentence.color(), red);
    assert_eq!(sentence.text(), "t");
    sentence.set_font(FontId(4));
    assert_eq!((*sentence.font(), *sentence.font_size(), *sentence.color()), (FontId(4), 64_000, red));
    sentence.set_font_size(12_500);
    assert_eq!((*sentence.font(), *sentence.font_size(), *sentence.color()), (FontId(4), 12_500, red));
    sentence.set_color(Color::gray());
    assert_eq!(
        (*sentence.font(), *sentence.font_size(), *sentence.color()),
        (FontId(4), 12_500, Color::gray())
    );
    *sentence.mut_font() = FontId(5);
    *sentence.mut_font_size() += 1;
    sentence.mut_color().alpha = 0;
    assert_eq!(*sentence.font(), FontId(5));
    assert_eq!(*sentence.font_size(), 12_501);
    assert_eq!(*sentence.color(), Color { red: 128, green: 128, blue: 128, alpha: 0 });
}

#[test]
fn action_setters() {
    let mut sentence = Sentence::new().with_action(ActionId(7));
    assert_eq!(sentence.get_action(), Some(&ActionId(7)));
    if let Some(action) = sentence.get_action_mut() {
        *action = ActionId(8);
    }
    assert_eq!(sentence.get_action(), Some(&ActionId(8)));
    let mut sentence = sentence.remove_action();
    assert_eq!(sentence.get_action(), None);
    assert!(sentence.get_action_mut().is_none());
    sentence.set_action(ActionId(9));
    assert_eq!(sentence.get_action(), Some(&ActionId(9)));
}

#[test]
fn typewriter_setters() {
    let sentence = Sentence::new().with_text("abc").create_typewriter();
    assert!(sentence.typewriter().is_active());
    assert_eq!(sentence.typewriter().current_time(), 0);
    assert_eq!(sentence.typewriter().speed(), 500_000);
    assert_eq!(sentence.text(), "abc");
    let mut sentence = sentence.with_typewriter(TypeWriter::new().with_speed(700_000));
    assert_eq!(sentence.typewriter().speed(), 700_000);
    sentence.set_typewriter(TypeWriter::default().with_time(5));
    assert!(!sentence.typewriter().is_active());
    assert_eq!(sentence.typewriter().current_time(), 5);
    sentence.mut_typewriter().activate();
    sentence.mut_typewriter().finish();
    assert!(sentence.typewriter().is_active());
    assert_eq!(sentence.typewriter().current_time(), TIME_FULL);
}

#[test]
fn hi_is_revealed_in_two_frames() {
    let mut sentence = Sentence::new()
        .with_text("Hi!")
        .with_typewriter(TypeWriter::new().with_speed(SPEED_FULL));
    assert_eq!(sentence.to_string(), "");
    assert_eq!(sentence.typewriter_characters(), Some(0));

    sentence.mut_typewriter().advance(500_000);
    assert_eq!(sentence.typewriter().current_time(), TIME_FULL / 2);
    assert_eq!(sentence.typewriter_characters(), Some(1));
    assert_eq!(sentence.to_string(), "H");
    assert_eq!(sentence.visible_text(), "H");
    assert!(!sentence.is_typewriter_finished());

    sentence.mut_typewriter().advance(500_000);
    assert_eq!(sentence.typewriter().current_time(), TIME_FULL);
    assert_eq!(sentence.typewriter_characters(), Some(3));
    assert_eq!(sentence.to_string(), "Hi!");
    assert!(sentence.is_typewriter_finished());
}

#[test]
fn revealed_characters_round_down() {
    let sentence = |time: u64| {
        Sentence::new().with_text("0123456789").with_typewriter(TypeWriter::new().with_time(time))
    };
    assert_eq!(sentence(0).typewriter_characters(), Some(0));
    assert_eq!(sentence(TIME_FULL / 10 - 1).typewriter_characters(), Some(0));
    assert_eq!(sentence(TIME_FULL / 10).typewriter_characters(), Some(1));
    assert_eq!(sentence(TIME_FULL / 10 * 3 + 5).to_string(), "012");
    assert_eq!(sentence(TIME_FULL - 1).to_string(), "012345678");
    assert_eq!(sentence(TIME_FULL).to_string(), "0123456789");
}

#[test]
fn inactive_typewriter_shows_the_whole_text() {
    let sentence =
        Sentence::new().with_text("whole").with_typewriter(TypeWriter::default().with_time(1));
    assert_eq!(sentence.typewriter_characters(), None);
    assert_eq!(sentence.to_string(), "whole");
    assert!(sentence.is_typewriter_finished());
}

#[test]
fn reveal_counts_characters_not_bytes() {
    // Four characters in ten bytes.
    let text = "h\u{e9}\u{4e16}\u{1f600}";
    assert_eq!(text.len(), 10);
    let sentence = |time: u64| {
        Sentence::new().with_text(text).with_typewriter(TypeWriter::new().with_time(time))
    };
    assert_eq!(sentence(TIME_FULL / 4).to_string(), "h");
    assert_eq!(sentence(TIME_FULL / 2).typewriter_characters(), Some(2));
    assert_eq!(sentence(TIME_FULL / 2).to_string(), "h\u{e9}");
    assert_eq!(sentence(TIME_FULL / 4 * 3).to_string(), "h\u{e9}\u{4e16}");
    assert_eq!(sentence(TIME_FULL - 1).to_string(), "h\u{e9}\u{4e16}");
    assert_eq!(sentence(TIME_FULL).typewriter_characters(), Some(4));
    assert_eq!(sentence(TIME_FULL).to_string(), text);
}

#[test]
fn empty_text_reveals_nothing() {
    let sentence = Sentence::new().create_typewriter();
    assert_eq!(sentence.typewriter_characters(), Some(0));
    assert_eq!(sentence.to_string(), "");
    assert!(!sentence.is_typewriter_finished());
}

#[test]
fn text_section_carries_the_visible_text_and_the_style() {
    let red = Color { red: 255, green: 0, blue: 0, alpha: 255 };
    let sentence = Sentence::new()
        .with_text("abcd")
        .with_font(FontId(2))
        .with_font_size(10_000)
        .with_color(red)
        .with_typewriter(TypeWriter::new().with_time(TIME_FULL / 2));
    let section = sentence.as_text_section();
    assert_eq!(section.value, "ab");
    assert_eq!(section.style, TextStyle { font: FontId(2), font_size: 10_000, color: red });
    // The sentence itself keeps its whole text.
    assert_eq!(sentence.text(), "abcd");
}
