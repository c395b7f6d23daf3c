//! One frame of a dialogue, step by step: reveal, key press, action, and
//! what the host draws.

use crate::action::ActionId;
use crate::dialogue::{Dialogue, DialogueView, Transition};
use crate::input::{any_just_pressed, any_key_just_pressed};
use crate::layout::{UiRect, Val};
use crate::paragraph::section_views;
use crate::style::{TextSection, TextSectionView};
use bevy::input::keyboard::KeyCode;
use bevy::input::ButtonInput;
use vstd::prelude::*;

verus! {

/// The action that the last key press made due, until the host takes it.
#[derive(Debug)]
pub struct CurrentAction(pub Option<ActionId>);

/// What the host shows of a dialogue after a frame, and the action that it
/// runs.
#[derive(Debug)]
pub struct Frame {
    /// The action that fell due in this frame.
    pub action: Option<ActionId>,
    /// Whether the box is on show.
    pub visible: bool,
    /// The text of the box; `None` leaves the text as it was.
    pub sections: Option<Vec<TextSection>>,
    /// The offsets of the box; `None` leaves them as they were.
    pub position: Option<UiRect>,
    /// The width of the box; `None` leaves it as it was.
    pub width: Option<Val>,
}

impl DialogueView {
    /// The dialogue after one frame of `amount` microseconds: first the
    /// reveal goes on, then a key press, if there was one, acts on the
    /// result.
    pub open spec fn frame(self, pressed: bool, amount: nat) -> DialogueView {
        if pressed {
            self.update_typewriter(amount).press()
        } else {
            self.update_typewriter(amount)
        }
    }

    /// What the key press of a frame does, [`Transition::Idle`] without one.
    pub open spec fn frame_transition(self, pressed: bool, amount: nat) -> Transition {
        if pressed {
            self.update_typewriter(amount).transition()
        } else {
            Transition::Idle
        }
    }

    /// The action that falls due in a frame.
    pub open spec fn frame_action(self, pressed: bool, amount: nat) -> Option<ActionId> {
        if pressed {
            self.update_typewriter(amount).press_action()
        } else {
            None
        }
    }

    /// The text that the host draws, `None` when no page is on show.
    pub open spec fn sections(self) -> Option<Seq<TextSectionView>> {
        match self.current() {
            Some(front) => Some(front.as_text_sections()),
            None => None,
        }
    }

    /// The offsets that the page on show asks for.
    pub open spec fn position(self) -> Option<UiRect> {
        match self.current() {
            Some(front) => front.position,
            None => None,
        }
    }

    /// The width that the page on show asks for.
    pub open spec fn width(self) -> Option<Val> {
        match self.current() {
            Some(front) => front.width,
            None => None,
        }
    }
}

/// What one frame brings from outside: whether a key was pressed, and how
/// many microseconds have passed.
pub ghost struct FrameInput {
    pub pressed: bool,
    pub amount: nat,
}

/// The dialogue after the frames `frames`, in order.
pub open spec fn run(dialogue: DialogueView, frames: Seq<FrameInput>) -> DialogueView
    decreases frames.len(),
{
    if frames.len() == 0 {
        dialogue
    } else {
        run(dialogue.frame(frames[0].pressed, frames[0].amount), frames.drop_first())
    }
}

/// How many of the frames `frames`, run in order from `dialogue`, move the
/// cursor to the next sentence.
pub open spec fn count_next_sentence(dialogue: DialogueView, frames: Seq<FrameInput>) -> nat
    decreases frames.len(),
{
    if frames.len() == 0 {
        0
    } else {
        let first = frames[0];
        let counted: nat = if dialogue.frame_transition(first.pressed, first.amount)
            == Transition::NextSentence {
            1
        } else {
            0
        };
        counted + count_next_sentence(
            dialogue.frame(first.pressed, first.amount),
            frames.drop_first(),
        )
    }
}

/// The last of the frames `frames`, run in order from `dialogue`, removes a
/// page from the queue, and none before it does.
pub open spec fn ends_with_next_paragraph(dialogue: DialogueView, frames: Seq<FrameInput>) -> bool
    decreases frames.len(),
{
    if frames.len() == 0 {
        false
    } else {
        let first = frames[0];
        let done = dialogue.frame_transition(first.pressed, first.amount);
        if frames.len() == 1 {
            done == Transition::NextParagraph
        } else {
            done != Transition::NextParagraph && ends_with_next_paragraph(
                dialogue.frame(first.pressed, first.amount),
                frames.drop_first(),
            )
        }
    }
}

/// No key is pressed in any of `frames`.
pub open spec fn no_key_pressed(frames: Seq<FrameInput>) -> bool {
    forall|i: int| 0 <= i < frames.len() ==> !(#[trigger] frames[i]).pressed
}

/// The microseconds that pass over `frames` in all.
pub open spec fn total_amount(frames: Seq<FrameInput>) -> nat
    decreases frames.len(),
{
    if frames.len() == 0 {
        0
    } else {
        frames[0].amount + total_amount(frames.drop_first())
    }
}

/// A frame that does not remove the page on show leaves it in front, with
/// as many sentences as before, and leaves the pages behind it untouched;
/// its cursor moves by one if the frame goes to the next sentence, which
/// then exists, and stays otherwise. A frame that removes the page finds
/// the cursor on the last sentence and leaves the pages behind it.
pub proof fn lemma_frame_keeps_queue(dialogue: DialogueView, pressed: bool, amount: nat)
    requires
        dialogue.paragraphs.len() > 0,
        dialogue.paragraphs[0].current_sentence < dialogue.paragraphs[0].sentences.len(),
    ensures
        ({
            let before = dialogue.paragraphs[0];
            let after = dialogue.frame(pressed, amount);
            match dialogue.frame_transition(pressed, amount) {
                Transition::NextParagraph => {
                    &&& before.current_sentence + 1 == before.sentences.len()
                    &&& after.paragraphs == dialogue.paragraphs.drop_first()
                },
                Transition::NextSentence => {
                    &&& after.paragraphs.len() == dialogue.paragraphs.len()
                    &&& after.paragraphs.drop_first() == dialogue.paragraphs.drop_first()
                    &&& after.paragraphs[0].sentences.len() == before.sentences.len()
                    &&& after.paragraphs[0].current_sentence == before.current_sentence + 1
                    &&& before.current_sentence + 1 < before.sentences.len()
                },
                _ => {
                    &&& after.paragraphs.len() == dialogue.paragraphs.len()
                    &&& after.paragraphs.drop_first() == dialogue.paragraphs.drop_first()
                    &&& after.paragraphs[0].sentences.len() == before.sentences.len()
                    &&& after.paragraphs[0].current_sentence == before.current_sentence
                },
            }
        }),
{
    let revealed = dialogue.update_typewriter(amount);
    assert(revealed.paragraphs.drop_first() =~= dialogue.paragraphs.drop_first());
    let after = dialogue.frame(pressed, amount);
    if dialogue.frame_transition(pressed, amount) != Transition::NextParagraph {
        assert(after.paragraphs.drop_first() =~= dialogue.paragraphs.drop_first());
    }
}

/// A page with N sentences, shown from its first sentence, leaves the
/// queue after exactly N - 1 moves to a next sentence, however many frames
/// pass and whichever of them bring a key press. Stated from any cursor:
/// from sentence c on, N - 1 - c moves come before the page leaves. The
/// pages behind it are then the queue.
pub proof fn lemma_next_sentences_before_next_paragraph(
    dialogue: DialogueView,
    frames: Seq<FrameInput>,
)
    requires
        dialogue.paragraphs.len() > 0,
        dialogue.paragraphs[0].current_sentence < dialogue.paragraphs[0].sentences.len(),
        ends_with_next_paragraph(dialogue, frames),
    ensures
        count_next_sentence(dialogue, frames) + dialogue.paragraphs[0].current_sentence + 1
            == dialogue.paragraphs[0].sentences.len(),
        run(dialogue, frames).paragraphs == dialogue.paragraphs.drop_first(),
    decreases frames.len(),
{
    let first = frames[0];
    let rest = frames.drop_first();
    let after = dialogue.frame(first.pressed, first.amount);
    lemma_frame_keeps_queue(dialogue, first.pressed, first.amount);
    if frames.len() == 1 {
        assert(rest.len() == 0);
        assert(count_next_sentence(after, rest) == 0);
        assert(run(after, rest) == after);
    } else {
        lemma_next_sentences_before_next_paragraph(after, rest);
    }
}

/// While no key is pressed the queue stays as it is: the same pages in the
/// same order, the first one on show. Nothing changes but the typewriter of
/// the sentence under the cursor of that page, which advances by the time
/// that has passed in all.
pub proof fn lemma_no_key_keeps_current_paragraph(dialogue: DialogueView, frames: Seq<FrameInput>)
    requires
        no_key_pressed(frames),
        match dialogue.current() {
            Some(front) => match front.current() {
                Some(sentence) => sentence.typewriter.time <= crate::typewriter::TIME_FULL,
                None => true,
            },
            None => true,
        },
    ensures
        run(dialogue, frames) == dialogue.update_typewriter(total_amount(frames)),
        run(dialogue, frames).paragraphs.len() == dialogue.paragraphs.len(),
        run(dialogue, frames).paragraphs.drop_first() == dialogue.paragraphs.drop_first(),
        run(dialogue, frames).skip_keys == dialogue.skip_keys,
        run(dialogue, frames).hide_on_empty == dialogue.hide_on_empty,
        match dialogue.current() {
            Some(front) => {
                let after = run(dialogue, frames).paragraphs[0];
                &&& after.current_sentence == front.current_sentence
                &&& after.position == front.position
                &&& after.width == front.width
                &&& after.sentences.len() == front.sentences.len()
                &&& forall|i: int|
                    0 <= i < front.sentences.len() && i != front.current_sentence ==> (
                    #[trigger] after.sentences[i]) == front.sentences[i]
                &&& match front.current() {
                    Some(sentence) => after.sentences[front.current_sentence as int] == (
                    crate::sentence::SentenceView {
                        typewriter: sentence.typewriter.advance(total_amount(frames)),
                        ..sentence
                    }),
                    None => true,
                }
            },
            None => true,
        },
    decreases frames.len(),
{
    let whole = dialogue.update_typewriter(total_amount(frames));
    assert(whole.paragraphs.drop_first() =~= dialogue.paragraphs.drop_first());
    if frames.len() == 0 {
        lemma_update_typewriter_zero(dialogue);
    } else {
        let first = frames[0];
        let rest = frames.drop_first();
        let after = dialogue.frame(first.pressed, first.amount);
        assert(!frames[0].pressed);
        assert(no_key_pressed(rest)) by {
            assert forall|i: int| 0 <= i < rest.len() implies !(#[trigger] rest[i]).pressed by {
                assert(rest[i] == frames[i + 1]);
            }
        }
        lemma_update_typewriter_twice(dialogue, first.amount, total_amount(rest));
        lemma_no_key_keeps_current_paragraph(after, rest);
    }
}

/// A frame of no length reveals nothing.
pub proof fn lemma_update_typewriter_zero(dialogue: DialogueView)
    requires
        match dialogue.current() {
            Some(front) => match front.current() {
                Some(sentence) => sentence.typewriter.time <= crate::typewriter::TIME_FULL,
                None => true,
            },
            None => true,
        },
    ensures
        dialogue.update_typewriter(0) == dialogue,
{
    match dialogue.current() {
        Some(front) => {
            match front.current() {
                Some(sentence) => {
                    assert(0 * sentence.typewriter.speed == 0) by (nonlinear_arith);
                    assert(sentence.typewriter.advance(0) == sentence.typewriter);
                    assert(front.update_typewriter(0).sentences =~= front.sentences);
                },
                None => {},
            }
            assert(dialogue.update_typewriter(0).paragraphs =~= dialogue.paragraphs);
        },
        None => {},
    }
}

/// Two frames in a row reveal as much as one frame of their joint length.
pub proof fn lemma_update_typewriter_twice(dialogue: DialogueView, first: nat, second: nat)
    requires
        match dialogue.current() {
            Some(front) => match front.current() {
                Some(sentence) => sentence.typewriter.time <= crate::typewriter::TIME_FULL,
                None => true,
            },
            None => true,
        },
    ensures
        dialogue.update_typewriter(first).update_typewriter(second) == dialogue.update_typewriter(
            first + second,
        ),
        match dialogue.update_typewriter(first).current() {
            Some(front) => match front.current() {
                Some(sentence) => sentence.typewriter.time <= crate::typewriter::TIME_FULL,
                None => true,
            },
            None => true,
        },
{
    match dialogue.current() {
        Some(front) => {
            match front.current() {
                Some(sentence) => {
                    let typewriter = sentence.typewriter;
                    crate::typewriter::lemma_advance_all(typewriter, seq![first, second]);
                    assert(seq![first, second].drop_first() =~= seq![second]);
                    assert(seq![second].drop_first() =~= Seq::<nat>::empty());
                    assert(crate::typewriter::total(seq![first, second]) == first + second) by {
                        assert(crate::typewriter::total(Seq::<nat>::empty()) == 0);
                        assert(crate::typewriter::total(seq![second]) == second);
                    }
                    assert(typewriter.advance_all(seq![first, second]) == typewriter.advance(
                        first,
                    ).advance(second)) by {
                        assert(typewriter.advance(first).advance(second).advance_all(
                            Seq::<nat>::empty(),
                        ) == typewriter.advance(first).advance(second));
                        assert(typewriter.advance(first).advance_all(seq![second])
                            == typewriter.advance(first).advance(second));
                    }
                    assert(typewriter.advance(first).advance(second) == typewriter.advance(
                        first + second,
                    ));
                    assert(front.update_typewriter(first).update_typewriter(second).sentences
                        =~= front.update_typewriter(first + second).sentences);
                },
                None => {},
            }
            assert(dialogue.update_typewriter(first).update_typewriter(second).paragraphs
                =~= dialogue.update_typewriter(first + second).paragraphs);
        },
        None => {},
    }
}

impl Frame {
    /// The frame shows `dialogue` as it stands.
    pub open spec fn presents(self, dialogue: DialogueView) -> bool {
        &&& self.visible == dialogue.visible()
        &&& match self.sections {
            Some(sections) => dialogue.sections() == Some(section_views(sections@)),
            None => dialogue.sections().is_none(),
        }
        &&& self.position == dialogue.position()
        &&& self.width == dialogue.width()
    }
}

impl Default for CurrentAction {
    /// An empty slot.
    fn default() -> (slot: Self)
        ensures
            slot.0 is None,
    {
        CurrentAction(None)
    }
}

/// Lets `amount` microseconds pass for the sentence that `dialogue` is
/// revealing. This goes on in every frame, key or no key.
pub fn update_typewriter(dialogue: &mut Dialogue, amount: u64)
    ensures
        final(dialogue)@ == old(dialogue)@.update_typewriter(amount as nat),
{
    dialogue.update_typewriter(amount);
}

/// Acts on a key press: the action of the sentence under the cursor goes
/// into the slot, replacing what was there, then the dialogue moves on. With
/// no page waiting nothing changes.
pub fn press_skip_key(dialogue: &mut Dialogue, current_action: &mut CurrentAction)
    ensures
        final(dialogue)@ == old(dialogue)@.press(),
        final(current_action).0 == if old(dialogue)@.is_empty() {
            old(current_action).0
        } else {
            old(dialogue)@.press_action()
        },
{
    match dialogue.get_current_paragraph() {
        Some(front) => {
            current_action.0 = match front.get_current_sentence() {
                Some(section) => match section.get_action() {
                    Some(action) => Some(*action),
                    None => None,
                },
                None => None,
            };
        },
        None => {},
    }
    let _ = dialogue.press();
}

/// Moves `dialogue` on if one of its keys was pressed since the last frame,
/// as [`press_skip_key`] does; otherwise nothing changes.
pub fn advance_dialogue(
    dialogue: &mut Dialogue,
    current_action: &mut CurrentAction,
    input: &ButtonInput<KeyCode>,
)
    ensures
        any_key_just_pressed(*input, old(dialogue)@.skip_keys) ==> {
            &&& final(dialogue)@ == old(dialogue)@.press()
            &&& final(current_action).0 == if old(dialogue)@.is_empty() {
                old(current_action).0
            } else {
                old(dialogue)@.press_action()
            }
        },
        !any_key_just_pressed(*input, old(dialogue)@.skip_keys) ==> {
            &&& final(dialogue)@ == old(dialogue)@
            &&& final(current_action).0 == old(current_action).0
        },
{
    if any_just_pressed(input, dialogue.skip_keys()) {
        press_skip_key(dialogue, current_action);
    }
}

/// Takes the pending action out for the host to run. The slot is empty
/// afterwards whether or not it held one, so no action is handed over twice.
pub fn run_action(current_action: &mut CurrentAction) -> (action: Option<ActionId>)
    ensures
        action == old(current_action).0,
        final(current_action).0 is None,
{
    let action = current_action.0;
    current_action.0 = None;
    action
}

/// Whether the box is on show: always, unless the dialogue hides when empty
/// and no page is waiting.
pub fn show_dialogue(dialogue: &Dialogue) -> (visible: bool)
    ensures
        visible == dialogue@.visible(),
{
    !(dialogue.hide_on_empty() && dialogue.is_empty())
}

/// The text of the box: the sentences of the page on show up to the cursor,
/// each with the text that it shows. `None` when no page is on show: the
/// host then leaves the text as it was.
pub fn update_dialogue(dialogue: &Dialogue) -> (sections: Option<Vec<TextSection>>)
    ensures
        match sections {
            Some(text) => dialogue@.sections() == Some(section_views(text@)),
            None => dialogue@.sections().is_none(),
        },
{
    match dialogue.get_current_paragraph() {
        Some(paragraph) => Some(paragraph.as_text_sections()),
        None => None,
    }
}

/// The offsets from the four edges that the page on show asks for. `None`
/// when it asks for none or no page is on show: the host then leaves the
/// box where it was.
pub fn move_dialogue(dialogue: &Dialogue) -> (position: Option<UiRect>)
    ensures
        position == dialogue@.position(),
{
    match dialogue.get_current_paragraph() {
        Some(paragraph) => match paragraph.get_position() {
            Some(position) => Some(
                UiRect {
                    left: position.left,
                    right: position.right,
                    top: position.top,
                    bottom: position.bottom,
                },
            ),
            None => None,
        },
        None => None,
    }
}

/// The width that the page on show asks for. `None` when it asks for none
/// or no page is on show: the host then leaves the width as it was.
pub fn change_width(dialogue: &Dialogue) -> (width: Option<Val>)
    ensures
        width == dialogue@.width(),
{
    match dialogue.get_current_paragraph() {
        Some(paragraph) => match paragraph.get_width() {
            Some(width) => Some(*width),
            None => None,
        },
        None => None,
    }
}

/// One whole frame of `amount` microseconds, in which a key was pressed or
/// not. The steps come in a fixed order: the reveal goes on; the key press
/// acts on the result; the action that it made due is taken out of its slot;
/// what the host draws is read off the dialogue as it then stands.
pub fn run_frame(dialogue: &mut Dialogue, pressed: bool, amount: u64) -> (frame: Frame)
    ensures
        final(dialogue)@ == old(dialogue)@.frame(pressed, amount as nat),
        frame.action == old(dialogue)@.frame_action(pressed, amount as nat),
        frame.presents(final(dialogue)@),
{
    let mut current_action = CurrentAction(None);
    update_typewriter(dialogue, amount);
    if pressed {
        press_skip_key(dialogue, &mut current_action);
    }
    let action = run_action(&mut current_action);
    Frame {
        action,
        visible: show_dialogue(dialogue),
        sections: update_dialogue(dialogue),
        position: move_dialogue(dialogue),
        width: change_width(dialogue),
    }
}

/// One whole frame of `amount` microseconds, as [`run_frame`] runs it, with
/// the key press read from `input`: it counts if one of the dialogue's keys
/// was pressed since the last frame.
pub fn update(dialogue: &mut Dialogue, input: &ButtonInput<KeyCode>, amount: u64) -> (frame: Frame)
    ensures
        final(dialogue)@ == old(dialogue)@.frame(
            any_key_just_pressed(*input, old(dialogue)@.skip_keys),
            amount as nat,
        ),
        frame.action == old(dialogue)@.frame_action(
            any_key_just_pressed(*input, old(dialogue)@.skip_keys),
            amount as nat,
        ),
        frame.presents(final(dialogue)@),
{
    let pressed = any_just_pressed(input, dialogue.skip_keys());
    run_frame(dialogue, pressed, amount)
}

} // verus!
