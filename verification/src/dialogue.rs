//! The pages waiting to be shown in one dialogue box.

use crate::action::ActionId;
use crate::paragraph::{Paragraph, ParagraphView};
use bevy::input::keyboard::KeyCode;
use std::collections::VecDeque;
use vstd::prelude::*;

verus! {

/// A queue of pages, the first of which is on show, with the keys that move
/// it on and whether the box hides once the queue is empty.
#[derive(Debug)]
pub struct Dialogue {
    paragraphs: VecDeque<Paragraph>,
    skip_keys: Vec<KeyCode>,
    hide_on_empty: bool,
}

/// What a [`Dialogue`] is, as mathematical values.
pub ghost struct DialogueView {
    pub paragraphs: Seq<ParagraphView>,
    pub skip_keys: Seq<KeyCode>,
    pub hide_on_empty: bool,
}

/// The pages of `paragraphs`, each as mathematical values.
pub open spec fn paragraph_views(paragraphs: Seq<Paragraph>) -> Seq<ParagraphView> {
    Seq::new(paragraphs.len(), |i: int| paragraphs[i]@)
}

/// What a key press on a dialogue does.
#[derive(Clone, Copy, Debug, PartialEq, Eq, Structural)]
pub enum Transition {
    /// No page is waiting: nothing happens.
    Idle,
    /// The sentence under the cursor is still being revealed: it is shown
    /// whole. Also when the cursor of the page on show is on no sentence:
    /// then nothing changes.
    FinishSentence,
    /// The sentence is shown whole and another follows: the cursor moves to it.
    NextSentence,
    /// The last sentence is shown whole: the page leaves the queue.
    NextParagraph,
}

impl DialogueView {
    /// The page on show: the first of the queue.
    pub open spec fn current(self) -> Option<ParagraphView> {
        if self.paragraphs.len() > 0 {
            Some(self.paragraphs[0])
        } else {
            None
        }
    }

    /// No page is waiting.
    pub open spec fn is_empty(self) -> bool {
        self.paragraphs.len() == 0
    }

    /// The dialogue without its first page; unchanged when no page is waiting.
    pub open spec fn advance_paragraph(self) -> DialogueView {
        if self.paragraphs.len() > 0 {
            DialogueView { paragraphs: self.paragraphs.drop_first(), ..self }
        } else {
            self
        }
    }

    /// The dialogue with `paragraph` in place of its first page.
    pub open spec fn with_current(self, paragraph: ParagraphView) -> DialogueView {
        DialogueView { paragraphs: self.paragraphs.update(0, paragraph), ..self }
    }

    /// The dialogue after `amount` microseconds: the typewriter of the
    /// sentence under the cursor of the page on show has advanced.
    pub open spec fn update_typewriter(self, amount: nat) -> DialogueView {
        match self.current() {
            Some(front) => self.with_current(front.update_typewriter(amount)),
            None => self,
        }
    }

    /// What a key press does to the dialogue in this state.
    pub open spec fn transition(self) -> Transition {
        match self.current() {
            None => Transition::Idle,
            Some(front) => if front.all_paragraphs_visible() && front.all_characters_displayed() {
                Transition::NextParagraph
            } else if front.all_characters_displayed() {
                Transition::NextSentence
            } else {
                Transition::FinishSentence
            },
        }
    }

    /// The dialogue after a key press.
    pub open spec fn press(self) -> DialogueView {
        match self.transition() {
            Transition::Idle => self,
            Transition::FinishSentence => self.with_current(self.paragraphs[0].finish_current()),
            Transition::NextSentence => self.with_current(self.paragraphs[0].advance_sentence()),
            Transition::NextParagraph => self.advance_paragraph(),
        }
    }

    /// The action that a key press makes due: that of the sentence under
    /// the cursor of the page on show, as it is before the press.
    pub open spec fn press_action(self) -> Option<ActionId> {
        match self.current() {
            Some(front) => front.current_action(),
            None => None,
        }
    }

    /// Whether the box is on show: always, unless it hides when empty and
    /// no page is waiting.
    pub open spec fn visible(self) -> bool {
        !(self.hide_on_empty && self.is_empty())
    }
}

impl View for Dialogue {
    type V = DialogueView;

    closed spec fn view(&self) -> DialogueView {
        DialogueView {
            paragraphs: paragraph_views(self.paragraphs@),
            skip_keys: self.skip_keys@,
            hide_on_empty: self.hide_on_empty,
        }
    }
}

/// The pages of `paragraphs` as a queue, in the same order.
fn into_queue(paragraphs: Vec<Paragraph>) -> (queue: VecDeque<Paragraph>)
    ensures
        paragraph_views(queue@) == paragraph_views(paragraphs@),
{
    let mut rest = paragraphs;
    let mut queue: VecDeque<Paragraph> = VecDeque::new();
    while rest.len() > 0
        invariant
            rest@ + queue@ =~= paragraphs@,
        decreases rest@.len(),
    {
        let last = rest.pop().unwrap();
        queue.push_front(last);
    }
    assert(queue@ =~= paragraphs@);
    queue
}

/// `VecDeque::front_mut` of std: lends out the first item of `queue`, or
/// gives `None` for an empty queue. The queue then holds in first place
/// whatever the borrower leaves, and the other items as they were.
#[verifier::external_body]
fn front_mut(queue: &mut VecDeque<Paragraph>) -> (front: Option<&mut Paragraph>)
    ensures
        old(queue)@.len() == 0 ==> front.is_none() && final(queue)@ == old(queue)@,
        old(queue)@.len() != 0 ==> {
            &&& front.is_some()
            &&& *front.unwrap() == old(queue)@[0]
            &&& final(queue)@ == old(queue)@.update(0, *final(front.unwrap()))
        },
{
    queue.front_mut()
}

impl Default for Dialogue {
    /// An empty dialogue that Space and Enter move on and that hides when empty.
    fn default() -> (dialogue: Self)
        ensures
            dialogue@ == Dialogue::spec_blank(),
    {
        Dialogue::new()
    }
}

impl Dialogue {
    /// The dialogue that [`Dialogue::new`] gives.
    pub open spec fn spec_blank() -> DialogueView {
        DialogueView {
            paragraphs: Seq::empty(),
            skip_keys: seq![KeyCode::Space, KeyCode::Enter],
            hide_on_empty: true,
        }
    }

    /// An empty dialogue that Space and Enter move on and that hides when empty.
    pub fn new() -> (dialogue: Self)
        ensures
            dialogue@ == Dialogue::spec_blank(),
    {
        let mut skip_keys: Vec<KeyCode> = Vec::new();
        skip_keys.push(KeyCode::Space);
        skip_keys.push(KeyCode::Enter);
        let dialogue = Self { paragraphs: VecDeque::new(), skip_keys, hide_on_empty: true };
        assert(dialogue@.paragraphs =~= Seq::empty());
        assert(dialogue@.skip_keys =~= seq![KeyCode::Space, KeyCode::Enter]);
        dialogue
    }

    /// Replaces the queue by `paragraphs`, in their order.
    pub fn with_paragraphs(self, paragraphs: Vec<Paragraph>) -> (dialogue: Self)
        ensures
            dialogue@ == (DialogueView { paragraphs: paragraph_views(paragraphs@), ..self@ }),
    {
        let mut dialogue = self;
        dialogue.set_paragraphs(paragraphs);
        dialogue
    }

    /// Appends `paragraph` to the queue.
    pub fn push_paragraphs(self, paragraph: Paragraph) -> (dialogue: Self)
        ensures
            dialogue@ == (DialogueView {
                paragraphs: self@.paragraphs.push(paragraph@),
                ..self@
            }),
    {
        let mut dialogue = self;
        dialogue.add_paragraph(paragraph);
        dialogue
    }

    /// Appends `paragraph` to the queue.
    pub fn add_paragraph(&mut self, paragraph: Paragraph)
        ensures
            final(self)@ == (DialogueView {
                paragraphs: old(self)@.paragraphs.push(paragraph@),
                ..old(self)@
            }),
    {
        self.paragraphs.push_back(paragraph);
        assert(self@.paragraphs =~= old(self)@.paragraphs.push(paragraph@));
    }

    /// Appends `paragraphs` to the queue, in their order.
    pub fn add_paragraphs(&mut self, paragraphs: Vec<Paragraph>)
        ensures
            final(self)@ == (DialogueView {
                paragraphs: old(self)@.paragraphs + paragraph_views(paragraphs@),
                ..old(self)@
            }),
    {
        let mut queue = into_queue(paragraphs);
        let ghost added = queue@;
        self.paragraphs.append(&mut queue);
        assert(self@.paragraphs =~= old(self)@.paragraphs + paragraph_views(added));
    }

    /// Replaces the queue by `paragraphs`, in their order.
    pub fn set_paragraphs(&mut self, paragraphs: Vec<Paragraph>)
        ensures
            final(self)@ == (DialogueView {
                paragraphs: paragraph_views(paragraphs@),
                ..old(self)@
            }),
    {
        self.paragraphs = into_queue(paragraphs);
    }

    /// The page on show: the first of the queue, if there is one.
    pub fn get_current_paragraph(&self) -> (paragraph: Option<&Paragraph>)
        ensures
            match paragraph {
                Some(front) => self@.current() == Some(front@),
                None => self@.current().is_none(),
            },
    {
        if self.paragraphs.len() > 0 {
            Some(&self.paragraphs[0])
        } else {
            None
        }
    }

    /// Lends out the page on show, if there is one; the queue then holds in
    /// its place whatever the borrower leaves.
    pub fn get_current_paragraph_mut(&mut self) -> (paragraph: Option<&mut Paragraph>)
        ensures
            match paragraph {
                Some(front) => {
                    &&& old(self)@.current() == Some(front@)
                    &&& final(self)@ == old(self)@.with_current(final(front)@)
                },
                None => old(self)@.current().is_none() && final(self)@ == old(self)@,
            },
    {
        let paragraph = front_mut(&mut self.paragraphs);
        proof {
            if old(self).paragraphs@.len() != 0 {
                assert(paragraph_views(
                    old(self).paragraphs@.update(0, *final(paragraph.unwrap())),
                ) =~= old(self)@.paragraphs.update(0, final(paragraph.unwrap())@));
            }
        }
        paragraph
    }

    /// The queue, the page on show first.
    pub fn paragraphs(&self) -> (paragraphs: &VecDeque<Paragraph>)
        ensures
            paragraph_views(paragraphs@) == self@.paragraphs,
    {
        &self.paragraphs
    }

    /// Lends the queue out; the dialogue then holds whatever the borrower
    /// leaves.
    pub fn paragraphs_mut(&mut self) -> (paragraphs: &mut VecDeque<Paragraph>)
        ensures
            paragraph_views(paragraphs@) == old(self)@.paragraphs,
            final(self)@ == (DialogueView {
                paragraphs: paragraph_views(final(paragraphs)@),
                ..old(self)@
            }),
    {
        &mut self.paragraphs
    }

    /// Removes the page on show; does nothing when no page is waiting.
    pub fn advance_paragraph(&mut self)
        ensures
            final(self)@ == old(self)@.advance_paragraph(),
    {
        let _ = self.paragraphs.pop_front();
        assert(self@.paragraphs =~= old(self)@.advance_paragraph().paragraphs);
    }

    /// How many pages are waiting, the one on show included.
    pub fn len(&self) -> (len: usize)
        ensures
            len == self@.paragraphs.len(),
    {
        self.paragraphs.len()
    }

    /// Whether no page is waiting.
    pub fn is_empty(&self) -> (empty: bool)
        ensures
            empty == self@.is_empty(),
    {
        self.paragraphs.len() == 0
    }

    /// Replaces the keys that move the dialogue on. With no key the player
    /// cannot move it on; the reveal still goes on.
    pub fn with_keys(self, keys: Vec<KeyCode>) -> (dialogue: Self)
        ensures
            dialogue@ == (DialogueView { skip_keys: keys@, ..self@ }),
    {
        let mut dialogue = self;
        dialogue.skip_keys = keys;
        dialogue
    }

    /// Adds `key` to the keys that move the dialogue on. A key may be there twice.
    pub fn push_key(self, key: KeyCode) -> (dialogue: Self)
        ensures
            dialogue@ == (DialogueView { skip_keys: self@.skip_keys.push(key), ..self@ }),
    {
        let mut dialogue = self;
        dialogue.skip_keys.push(key);
        dialogue
    }

    /// Replaces the keys that move the dialogue on.
    pub fn set_keys(&mut self, keys: Vec<KeyCode>)
        ensures
            final(self)@ == (DialogueView { skip_keys: keys@, ..old(self)@ }),
    {
        self.skip_keys = keys;
    }

    /// Adds `key` to the keys that move the dialogue on. A key may be there twice.
    pub fn add_key(&mut self, key: KeyCode)
        ensures
            final(self)@ == (DialogueView {
                skip_keys: old(self)@.skip_keys.push(key),
                ..old(self)@
            }),
    {
        self.skip_keys.push(key);
    }

    /// Lends the keys out; the dialogue then has the keys that the borrower
    /// leaves.
    pub fn mut_skip_keys(&mut self) -> (keys: &mut Vec<KeyCode>)
        ensures
            keys@ == old(self)@.skip_keys,
            final(self)@ == (DialogueView { skip_keys: final(keys)@, ..old(self)@ }),
    {
        &mut self.skip_keys
    }

    /// The dialogue hiding its box once the queue is empty, or not, as `hide` says.
    pub fn with_hide_on_empty(self, hide: bool) -> (dialogue: Self)
        ensures
            dialogue@ == (DialogueView { hide_on_empty: hide, ..self@ }),
    {
        let mut dialogue = self;
        dialogue.hide_on_empty = hide;
        dialogue
    }

    /// Makes the box hide once the queue is empty, or not, as `hide` says.
    pub fn set_hide_on_empty(&mut self, hide: bool)
        ensures
            final(self)@ == (DialogueView { hide_on_empty: hide, ..old(self)@ }),
    {
        self.hide_on_empty = hide;
    }

    /// The keys that move the dialogue on, in the order in which they were given.
    pub fn skip_keys(&self) -> (keys: &Vec<KeyCode>)
        ensures
            keys@ == self@.skip_keys,
    {
        &self.skip_keys
    }

    /// Whether the box hides once the queue is empty.
    pub fn hide_on_empty(&self) -> (hide: bool)
        ensures
            hide == self@.hide_on_empty,
    {
        self.hide_on_empty
    }

    /// Lets `amount` microseconds pass for the sentence under the cursor of
    /// the page on show; does nothing when no page is waiting.
    pub fn update_typewriter(&mut self, amount: u64)
        ensures
            final(self)@ == old(self)@.update_typewriter(amount as nat),
    {
        match self.paragraphs.pop_front() {
            Some(front) => {
                let mut front = front;
                front.update_typewriter(amount);
                self.paragraphs.push_front(front);
                assert(self@.paragraphs =~= old(self)@.update_typewriter(amount as nat).paragraphs);
            },
            None => {},
        }
    }

    /// Moves the dialogue on as one key press does. While the sentence
    /// under the cursor of the page on show is being revealed, it is shown
    /// whole; once it is, the cursor moves to the next sentence; after the
    /// last sentence the page leaves the queue. Returns what the press did.
    pub fn press(&mut self) -> (done: Transition)
        ensures
            done == old(self)@.transition(),
            final(self)@ == old(self)@.press(),
    {
        if self.paragraphs.len() == 0 {
            return Transition::Idle;
        }
        let all_sections = self.paragraphs[0].all_paragraphs_visible();
        let all_characters = self.paragraphs[0].all_characters_displayed();
        if all_sections && all_characters {
            self.advance_paragraph();
            Transition::NextParagraph
        } else {
            let mut front = self.paragraphs.pop_front().unwrap();
            let done = if all_characters {
                front.advance_sentence();
                Transition::NextSentence
            } else {
                front.finish_current_sentence();
                Transition::FinishSentence
            };
            self.paragraphs.push_front(front);
            assert(self@.paragraphs =~= old(self)@.press().paragraphs);
            done
        }
    }
}

} // verus!
