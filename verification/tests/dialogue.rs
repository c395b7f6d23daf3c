use bevy::input::keyboard::KeyCode;
use bevy_dialogue_system::dialogue::{Dialogue, Transition};
use bevy_dialogue_system::paragraph::Paragraph;
use bevy_dialogue_system::sentence::Sentence;
use bevy_dialogue_system::typewriter::TIME_FULL;

fn page(texts: &[&str]) -> Paragraph {
    Paragraph::new()
        .with_sentences(texts.iter().map(|text| Sentence::new().with_text(text)).collect())
}

fn first_texts(dialogue: &Dialogue) -> Vec<String> {
    dialogue
        .paragraphs()
        .iter()
        .map(|paragraph| paragraph.sentences()[0].text().to_string())
        .collect()
}

#[test]
fn new_dialogue_is_empty_with_the_two_confirm_keys() {
    let dialogue = Dialogue::new();
    assert!(dialogue.is_empty());
    assert_eq!(dialogue.len(), 0);
    assert!(dialogue.get_current_paragraph().is_none());
    assert!(dialogue.hide_on_empty());
    assert_eq!(dialogue.skip_keys(), &vec![KeyCode::Space, KeyCode::Enter]);
}

#[test]
fn default_dialogue_has_the_two_confirm_keys() {
    let dialogue = Dialogue::default();
    assert_eq!(dialogue.skip_keys().clone(), vec![KeyCode::Space, KeyCode::Enter]);
    assert!(dialogue.is_empty());
    assert!(dialogue.hide_on_empty());
}

#[test]
fn with_keys_replaces_the_keys() {
    let new_keys = [KeyCode::KeyA, KeyCode::Space];
    let dialogue = Dialogue::default().with_keys(new_keys.to_vec());
    assert_eq!(dialogue.skip_keys().clone(), new_keys.to_vec());
}

#[test]
fn push_key_appends_a_key() {
    let dialogue = Dialogue::default().push_key(KeyCode::KeyA);
    assert_eq!(dialogue.skip_keys().last().cloned(), Some(KeyCode::KeyA));
    assert_eq!(dialogue.skip_keys().len(), 3);
}

#[test]
fn set_keys_replaces_the_keys() {
    let new_keys = [KeyCode::KeyA, KeyCode::Space];
    let mut dialogue = Dialogue::default();
    dialogue.set_keys(new_keys.to_vec());
    assert_eq!(dialogue.skip_keys().clone(), new_keys.to_vec());
}

#[test]
fn add_key_appends_a_key() {
    let mut dialogue = Dialogue::default();
    dialogue.add_key(KeyCode::KeyB);
    assert_eq!(dialogue.skip_keys().last().cloned(), Some(KeyCode::KeyB));
    // The same key may be given twice.
    dialogue.add_key(KeyCode::KeyB);
    assert_eq!(
        dialogue.skip_keys().clone(),
        vec![KeyCode::Space, KeyCode::Enter, KeyCode::KeyB, KeyCode::KeyB]
    );
}

#[test]
fn mut_skip_keys_changes_keys_in_place() {
    let mut dialogue = Dialogue::default();
    if let Some(first) = dialogue.mut_skip_keys().iter_mut().next() {
        *first = KeyCode::KeyZ;
    }
    assert_eq!(dialogue.skip_keys().clone(), vec![KeyCode::KeyZ, KeyCode::Enter]);
}

#[test]
fn hide_on_empty_setters() {
    let mut dialogue = Dialogue::new().with_hide_on_empty(false);
    assert!(!dialogue.hide_on_empty());
    dialogue.set_hide_on_empty(true);
    assert!(dialogue.hide_on_empty());
    assert_eq!(dialogue.skip_keys().len(), 2);
}

#[test]
fn paragraphs_queue_up_in_order() {
    let mut dialogue = Dialogue::new()
        .with_paragraphs(vec![page(&["a"]), page(&["b"]), page(&["c"])])
        .push_paragraphs(page(&["d"]));
    assert_eq!(first_texts(&dialogue), ["a", "b", "c", "d"]);
    dialogue.add_paragraph(page(&["e"]));
    dialogue.add_paragraphs(vec![page(&["f"]), page(&["g"])]);
    dialogue.add_paragraphs(vec![]);
    assert_eq!(first_texts(&dialogue), ["a", "b", "c", "d", "e", "f", "g"]);
    assert_eq!(dialogue.len(), 7);
    assert!(!dialogue.is_empty());
    dialogue.set_paragraphs(vec![page(&["x"]), page(&["y"])]);
    assert_eq!(first_texts(&dialogue), ["x", "y"]);
    dialogue.paragraphs_mut().pop_back();
    assert_eq!(first_texts(&dialogue), ["x"]);
    let dialogue = dialogue.with_paragraphs(vec![]);
    assert!(dialogue.is_empty());
}

#[test]
fn advance_paragraph_removes_the_front() {
    let mut dialogue = Dialogue::new().with_paragraphs(vec![page(&["a"]), page(&["b"])]);
    assert_eq!(dialogue.get_current_paragraph().unwrap().sentences()[0].text(), "a");
    dialogue.advance_paragraph();
    assert_eq!(dialogue.get_current_paragraph().unwrap().sentences()[0].text(), "b");
    assert_eq!(dialogue.len(), 1);
    dialogue.advance_paragraph();
    assert!(dialogue.is_empty());
    assert!(dialogue.get_current_paragraph().is_none());
    // On an empty queue nothing happens.
    dialogue.advance_paragraph();
    assert!(dialogue.is_empty());
}

#[test]
fn current_paragraph_can_be_changed_in_place() {
    let mut dialogue = Dialogue::new().with_paragraphs(vec![page(&["a", "b"]), page(&["c"])]);
    let front = dialogue.get_current_paragraph_mut().unwrap();
    assert_eq!(front.sentences()[0].text(), "a");
    front.advance_sentence();
    front.get_current_sentence_mut().unwrap().set_text("changed");
    let front = dialogue.get_current_paragraph().unwrap();
    assert_eq!(front.current_sentence(), 1);
    assert_eq!(front.sentences()[1].text(), "changed");
    assert_eq!(first_texts(&dialogue), ["a", "c"]);
    assert_eq!(dialogue.paragraphs()[1].current_sentence(), 0);
    let mut empty = Dialogue::new();
    assert!(empty.get_current_paragraph_mut().is_none());
}

#[test]
fn update_typewriter_advances_only_the_front_paragraph() {
    let typed = || Paragraph::new().with_sentences(vec![Sentence::new().create_typewriter()]);
    let mut dialogue = Dialogue::new().with_paragraphs(vec![typed(), typed()]);
    dialogue.update_typewriter(1_000_000);
    let times: Vec<u64> = dialogue
        .paragraphs()
        .iter()
        .map(|paragraph| paragraph.sentences()[0].typewriter().current_time())
        .collect();
    assert_eq!(times, [TIME_FULL / 2, 0]);
    let mut empty = Dialogue::new();
    empty.update_typewriter(1_000_000);
    assert!(empty.is_empty());
}

#[test]
fn press_on_an_empty_dialogue_is_idle() {
    let mut dialogue = Dialogue::new();
    assert_eq!(dialogue.press(), Transition::Idle);
    assert!(dialogue.is_empty());
}

#[test]
fn press_finishes_then_moves_on_then_removes() {
    let mut dialogue = Dialogue::new().with_paragraphs(vec![
        Paragraph::new().with_sentences(vec![
            Sentence::new().with_text("typed").create_typewriter(),
            Sentence::new().with_text("plain"),
        ]),
        page(&["next"]),
    ]);
    assert_eq!(dialogue.press(), Transition::FinishSentence);
    let front = dialogue.get_current_paragraph().unwrap();
    assert_eq!(front.current_sentence(), 0);
    assert_eq!(front.sentences()[0].typewriter().current_time(), TIME_FULL);
    assert_eq!(dialogue.len(), 2);

    assert_eq!(dialogue.press(), Transition::NextSentence);
    assert_eq!(dialogue.get_current_paragraph().unwrap().current_sentence(), 1);
    assert_eq!(dialogue.len(), 2);

    assert_eq!(dialogue.press(), Transition::NextParagraph);
    assert_eq!(first_texts(&dialogue), ["next"]);
    assert_eq!(dialogue.get_current_paragraph().unwrap().current_sentence(), 0);

    assert_eq!(dialogue.press(), Transition::NextParagraph);
    assert!(dialogue.is_empty());
    assert_eq!(dialogue.press(), Transition::Idle);
}

#[test]
fn an_empty_paragraph_stays_in_front() {
    let mut dialogue = Dialogue::new().with_paragraphs(vec![Paragraph::new(), page(&["b"])]);
    assert_eq!(dialogue.press(), Transition::FinishSentence);
    assert_eq!(dialogue.press(), Transition::FinishSentence);
    assert_eq!(dialogue.len(), 2);
    assert_eq!(dialogue.get_current_paragraph().unwrap().sentences().len(), 0);
}
