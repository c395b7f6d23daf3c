//! One page of a dialogue: sentences shown one after another.

use crate::action::ActionId;
use crate::layout::{UiRect, Val};
use crate::sentence::{Sentence, SentenceView};
use crate::style::{TextSection, TextSectionView};
use vstd::prelude::*;

verus! {

/// Sentences in the order in which they are shown, a cursor on the one that
/// is being revealed, and where the page wants its box.
#[derive(Debug)]
pub struct Paragraph {
    sentences: Vec<Sentence>,
    current_sentence: usize,
    position: Option<UiRect>,
    width: Option<Val>,
}

/// What a [`Paragraph`] is, as mathematical values.
pub ghost struct ParagraphView {
    pub sentences: Seq<SentenceView>,
    pub current_sentence: nat,
    pub position: Option<UiRect>,
    pub width: Option<Val>,
}

/// The sentences of `sentences`, each as mathematical values.
pub open spec fn sentence_views(sentences: Seq<Sentence>) -> Seq<SentenceView> {
    Seq::new(sentences.len(), |i: int| sentences[i]@)
}

/// The runs of text of `sections`, each as mathematical values.
pub open spec fn section_views(sections: Seq<TextSection>) -> Seq<TextSectionView> {
    Seq::new(sections.len(), |i: int| sections[i]@)
}

impl ParagraphView {
    /// The sentence under the cursor, if the cursor is on one.
    pub open spec fn current(self) -> Option<SentenceView> {
        if self.current_sentence < self.sentences.len() {
            Some(self.sentences[self.current_sentence as int])
        } else {
            None
        }
    }

    /// The cursor is on the last sentence.
    pub open spec fn all_paragraphs_visible(self) -> bool {
        self.current_sentence + 1 == self.sentences.len()
    }

    /// The cursor is on a sentence of which nothing is hidden any more.
    pub open spec fn all_characters_displayed(self) -> bool {
        match self.current() {
            Some(sentence) => sentence.is_typewriter_finished(),
            None => false,
        }
    }

    /// The action of the sentence under the cursor, if there is one.
    pub open spec fn current_action(self) -> Option<ActionId> {
        match self.current() {
            Some(sentence) => sentence.action,
            None => None,
        }
    }

    /// The page with the cursor one sentence further.
    pub open spec fn advance_sentence(self) -> ParagraphView {
        ParagraphView { current_sentence: self.current_sentence + 1, ..self }
    }

    /// The page after `amount` microseconds: the typewriter of the sentence
    /// under the cursor has advanced, nothing else has changed.
    pub open spec fn update_typewriter(self, amount: nat) -> ParagraphView {
        match self.current() {
            Some(sentence) => ParagraphView {
                sentences: self.sentences.update(
                    self.current_sentence as int,
                    SentenceView { typewriter: sentence.typewriter.advance(amount), ..sentence },
                ),
                ..self
            },
            None => self,
        }
    }

    /// The page after a skip to the end of the sentence under the cursor.
    pub open spec fn finish_current(self) -> ParagraphView {
        match self.current() {
            Some(sentence) => ParagraphView {
                sentences: self.sentences.update(
                    self.current_sentence as int,
                    SentenceView { typewriter: sentence.typewriter.finish(), ..sentence },
                ),
                ..self
            },
            None => self,
        }
    }

    /// How many sentences are on show: those up to the cursor and the one
    /// under it.
    pub open spec fn shown(self) -> nat {
        if self.current_sentence < self.sentences.len() {
            self.current_sentence + 1
        } else {
            self.sentences.len()
        }
    }

    /// The runs of text that the host draws for this page: one for each
    /// sentence on show, in order, each with the text that it shows.
    pub open spec fn as_text_sections(self) -> Seq<TextSectionView> {
        Seq::new(self.shown(), |i: int| self.sentences[i].as_text_section())
    }
}

impl View for Paragraph {
    type V = ParagraphView;

    closed spec fn view(&self) -> ParagraphView {
        ParagraphView {
            sentences: sentence_views(self.sentences@),
            current_sentence: self.current_sentence as nat,
            position: self.position,
            width: self.width,
        }
    }
}

impl Default for Paragraph {
    /// A page without sentences, with the cursor at the start and no wishes
    /// for its box.
    fn default() -> (paragraph: Self)
        ensures
            paragraph@ == Paragraph::spec_blank(),
    {
        Paragraph::new()
    }
}

impl Paragraph {
    /// The page that [`Paragraph::new`] gives.
    pub open spec fn spec_blank() -> ParagraphView {
        ParagraphView { sentences: Seq::empty(), current_sentence: 0, position: None, width: None }
    }

    /// A page without sentences, with the cursor at the start and no wishes
    /// for its box.
    pub fn new() -> (paragraph: Self)
        ensures
            paragraph@ == Paragraph::spec_blank(),
    {
        let paragraph = Self {
            sentences: Vec::new(),
            current_sentence: 0,
            position: None,
            width: None,
        };
        assert(paragraph@.sentences =~= Seq::empty());
        paragraph
    }

    /// Replaces the sentences by `sentences`. The cursor stays where it is.
    pub fn with_sentences(self, sentences: Vec<Sentence>) -> (paragraph: Self)
        ensures
            paragraph@ == (ParagraphView { sentences: sentence_views(sentences@), ..self@ }),
    {
        let mut paragraph = self;
        paragraph.set_sentences(sentences);
        paragraph
    }

    /// Appends `sentences`, in their order.
    pub fn push_sentences(self, sentences: Vec<Sentence>) -> (paragraph: Self)
        ensures
            paragraph@ == (ParagraphView {
                sentences: self@.sentences + sentence_views(sentences@),
                ..self@
            }),
    {
        let mut paragraph = self;
        paragraph.add_sentences(sentences);
        paragraph
    }

    /// Appends `sentence`.
    pub fn push_sentence(self, sentence: Sentence) -> (paragraph: Self)
        ensures
            paragraph@ == (ParagraphView { sentences: self@.sentences.push(sentence@), ..self@ }),
    {
        let mut paragraph = self;
        paragraph.add_sentence(sentence);
        paragraph
    }

    /// Replaces the sentences by `sentences`. The cursor stays where it is.
    pub fn set_sentences(&mut self, sentences: Vec<Sentence>)
        ensures
            final(self)@ == (ParagraphView {
                sentences: sentence_views(sentences@),
                ..old(self)@
            }),
    {
        self.sentences = sentences;
    }

    /// Appends `sentences`, in their order.
    pub fn add_sentences(&mut self, sentences: Vec<Sentence>)
        ensures
            final(self)@ == (ParagraphView {
                sentences: old(self)@.sentences + sentence_views(sentences@),
                ..old(self)@
            }),
    {
        let mut sentences = sentences;
        let ghost added = sentences@;
        self.sentences.append(&mut sentences);
        assert(self@.sentences =~= old(self)@.sentences + sentence_views(added));
    }

    /// Appends `sentence`.
    pub fn add_sentence(&mut self, sentence: Sentence)
        ensures
            final(self)@ == (ParagraphView {
                sentences: old(self)@.sentences.push(sentence@),
                ..old(self)@
            }),
    {
        self.sentences.push(sentence);
        assert(self@.sentences =~= old(self)@.sentences.push(sentence@));
    }

    /// All the sentences, shown or not, in order.
    pub fn sentences(&self) -> (sentences: &Vec<Sentence>)
        ensures
            sentence_views(sentences@) == self@.sentences,
    {
        &self.sentences
    }

    /// Lends the sentences out; the page then holds whatever the borrower
    /// leaves. The cursor stays where it is.
    pub fn mut_sentences(&mut self) -> (sentences: &mut Vec<Sentence>)
        ensures
            sentence_views(sentences@) == old(self)@.sentences,
            final(self)@ == (ParagraphView {
                sentences: sentence_views(final(sentences)@),
                ..old(self)@
            }),
    {
        &mut self.sentences
    }

    /// The place of the cursor, counted from 0.
    pub fn current_sentence(&self) -> (current: usize)
        ensures
            current == self@.current_sentence,
    {
        self.current_sentence
    }

    /// Lends out the sentence under the cursor, if the cursor is on one; the
    /// page then holds in its place whatever the borrower leaves.
    pub fn get_current_sentence_mut(&mut self) -> (sentence: Option<&mut Sentence>)
        ensures
            match sentence {
                Some(current) => old(self)@.current() == Some(current@) && final(self)@ == (
                ParagraphView {
                    sentences: old(self)@.sentences.update(
                        old(self)@.current_sentence as int,
                        final(current)@,
                    ),
                    ..old(self)@
                }),
                None => old(self)@.current().is_none() && final(self)@ == old(self)@,
            },
    {
        if self.current_sentence < self.sentences.len() {
            let current = &mut self.sentences[self.current_sentence];
            proof {
                assert(sentence_views(
                    old(self).sentences@.update(old(self).current_sentence as int, *final(current)),
                ) =~= old(self)@.sentences.update(
                    old(self)@.current_sentence as int,
                    final(current)@,
                ));
            }
            Some(current)
        } else {
            None
        }
    }

    /// The page asking for the offsets `position`.
    pub fn with_position(self, position: UiRect) -> (paragraph: Self)
        ensures
            paragraph@ == (ParagraphView { position: Some(position), ..self@ }),
    {
        let mut paragraph = self;
        paragraph.position = Some(position);
        paragraph
    }

    /// The page asking for no offsets.
    pub fn without_position(self) -> (paragraph: Self)
        ensures
            paragraph@ == (ParagraphView { position: None, ..self@ }),
    {
        let mut paragraph = self;
        paragraph.position = None;
        paragraph
    }

    /// Asks for the offsets `position`.
    pub fn set_position(&mut self, position: UiRect)
        ensures
            final(self)@ == (ParagraphView { position: Some(position), ..old(self)@ }),
    {
        self.position = Some(position);
    }

    /// Asks for no offsets any more.
    pub fn reset_position(&mut self)
        ensures
            final(self)@ == (ParagraphView { position: None, ..old(self)@ }),
    {
        self.position = None;
    }

    /// Lends the position out, if the page asks for one; the page then asks
    /// for what the borrower leaves.
    pub fn get_position_mut(&mut self) -> (position: Option<&mut UiRect>)
        ensures
            match position {
                Some(rect) => old(self)@.position == Some(*rect) && final(self)@ == (
                ParagraphView { position: Some(*final(rect)), ..old(self)@ }),
                None => old(self)@.position.is_none() && final(self)@ == old(self)@,
            },
    {
        self.position.as_mut()
    }

    /// The page asking for the width `width`.
    pub fn with_width(self, width: Val) -> (paragraph: Self)
        ensures
            paragraph@ == (ParagraphView { width: Some(width), ..self@ }),
    {
        let mut paragraph = self;
        paragraph.width = Some(width);
        paragraph
    }

    /// The page asking for no width.
    pub fn without_width(self) -> (paragraph: Self)
        ensures
            paragraph@ == (ParagraphView { width: None, ..self@ }),
    {
        let mut paragraph = self;
        paragraph.width = None;
        paragraph
    }

    /// Asks for the width `width`.
    pub fn set_width(&mut self, width: Val)
        ensures
            final(self)@ == (ParagraphView { width: Some(width), ..old(self)@ }),
    {
        self.width = Some(width);
    }

    /// Asks for no width any more.
    pub fn reset_width(&mut self)
        ensures
            final(self)@ == (ParagraphView { width: None, ..old(self)@ }),
    {
        self.width = None;
    }

    /// Lends the width out, if the page asks for one; the page then asks for
    /// what the borrower leaves.
    pub fn get_width_mut(&mut self) -> (width: Option<&mut Val>)
        ensures
            match width {
                Some(val) => old(self)@.width == Some(*val) && final(self)@ == (ParagraphView {
                    width: Some(*final(val)),
                    ..old(self)@
                }),
                None => old(self)@.width.is_none() && final(self)@ == old(self)@,
            },
    {
        self.width.as_mut()
    }

    /// The sentence under the cursor, if the cursor is on one.
    pub fn get_current_sentence(&self) -> (sentence: Option<&Sentence>)
        ensures
            match sentence {
                Some(current) => self@.current() == Some(current@),
                None => self@.current().is_none(),
            },
    {
        if self.current_sentence < self.sentences.len() {
            Some(&self.sentences[self.current_sentence])
        } else {
            None
        }
    }

    /// The offsets that the page asks for, if it asks for any.
    pub fn get_position(&self) -> (position: Option<&UiRect>)
        ensures
            match position {
                Some(rect) => self@.position == Some(*rect),
                None => self@.position.is_none(),
            },
    {
        self.position.as_ref()
    }

    /// The width that the page asks for, if it asks for one.
    pub fn get_width(&self) -> (width: Option<&Val>)
        ensures
            match width {
                Some(val) => self@.width == Some(*val),
                None => self@.width.is_none(),
            },
    {
        self.width.as_ref()
    }

    /// Moves the cursor to the next sentence. Only for a page that has one:
    /// the cursor never leaves the sentences.
    pub fn advance_sentence(&mut self)
        requires
            old(self)@.current_sentence + 1 < old(self)@.sentences.len(),
        ensures
            final(self)@ == old(self)@.advance_sentence(),
    {
        proof {
            vstd::std_specs::vec::axiom_spec_len(&self.sentences);
        }
        self.current_sentence += 1;
    }

    /// Lets `amount` microseconds pass for the sentence under the cursor.
    pub fn update_typewriter(&mut self, amount: u64)
        ensures
            final(self)@ == old(self)@.update_typewriter(amount as nat),
    {
        if self.current_sentence < self.sentences.len() {
            let section = &mut self.sentences[self.current_sentence];
            section.mut_typewriter().advance(amount);
            assert(self@.sentences =~= old(self)@.update_typewriter(amount as nat).sentences);
        }
    }

    /// Shows the sentence under the cursor whole, if the cursor is on one.
    pub fn finish_current_sentence(&mut self)
        ensures
            final(self)@ == old(self)@.finish_current(),
    {
        if self.current_sentence < self.sentences.len() {
            let section = &mut self.sentences[self.current_sentence];
            section.mut_typewriter().finish();
            assert(self@.sentences =~= old(self)@.finish_current().sentences);
        }
    }

    /// Whether the cursor is on the last sentence.
    pub fn all_paragraphs_visible(&self) -> (visible: bool)
        ensures
            visible == self@.all_paragraphs_visible(),
    {
        self.sentences.len() > 0 && self.current_sentence == self.sentences.len() - 1
    }

    /// Whether the cursor is on a sentence of which nothing is hidden any more.
    pub fn all_characters_displayed(&self) -> (displayed: bool)
        ensures
            displayed == self@.all_characters_displayed(),
    {
        match self.get_current_sentence() {
            Some(section) => section.is_typewriter_finished(),
            None => false,
        }
    }

    /// The runs of text that the host draws for this page: one for each
    /// sentence up to the cursor and under it, in order.
    pub fn as_text_sections(&self) -> (sections: Vec<TextSection>)
        ensures
            section_views(sections@) == self@.as_text_sections(),
    {
        let shown = if self.current_sentence < self.sentences.len() {
            self.current_sentence + 1
        } else {
            self.sentences.len()
        };
        let mut sections: Vec<TextSection> = Vec::new();
        let mut i: usize = 0;
        while i < shown
            invariant
                i <= shown <= self.sentences@.len(),
                shown == self@.shown(),
                sections@.len() == i,
                forall|j: int|
                    0 <= j < i ==> (#[trigger] sections@[j])@
                        == self.sentences@[j]@.as_text_section(),
            decreases shown - i,
        {
            sections.push(self.sentences[i].as_text_section());
            i += 1;
        }
        assert(section_views(sections@) =~= self@.as_text_sections());
        sections
    }
}

} // verus!
