//! One styled run of text with its reveal and its action.

use crate::action::ActionId;
use crate::style::{Color, FontId, TextSection, TextSectionView, TextStyle};
use crate::typewriter::{TypeWriter, TypeWriterView, TIME_FULL};
use vstd::prelude::*;
use vstd::string::*;

verus! {

/// A run of text in one style. With an active typewriter it shows a growing
/// prefix of its text; it may name an action that falls due when the player
/// presses a key on it.
#[derive(Debug)]
pub struct Sentence {
    text_section: TextSection,
    action: Option<ActionId>,
    typewriter: TypeWriter,
}

/// What a [`Sentence`] is, as mathematical values.
pub ghost struct SentenceView {
    pub text: Seq<char>,
    pub style: TextStyle,
    pub action: Option<ActionId>,
    pub typewriter: TypeWriterView,
}

impl SentenceView {
    /// How many characters the typewriter has revealed: the text's length
    /// times the fraction of the reveal time that has passed, rounded down.
    /// `None` without an active typewriter.
    pub open spec fn typewriter_characters(self) -> Option<nat> {
        if self.typewriter.active {
            Some((self.typewriter.time * self.text.len()) / (TIME_FULL as nat))
        } else {
            None
        }
    }

    /// The characters on show: the revealed prefix, never more than the
    /// text holds, or the whole text without an active typewriter.
    pub open spec fn visible_text(self) -> Seq<char> {
        match self.typewriter_characters() {
            Some(characters) => if characters <= self.text.len() {
                self.text.take(characters as int)
            } else {
                self.text
            },
            None => self.text,
        }
    }

    /// Nothing of the text is hidden any more.
    pub open spec fn is_typewriter_finished(self) -> bool {
        self.typewriter.finished()
    }

    /// The run of text that the host draws for this sentence.
    pub open spec fn as_text_section(self) -> TextSectionView {
        TextSectionView { value: self.visible_text(), style: self.style }
    }
}

/// A whole number of characters is revealed, and no more than the text has.
pub proof fn lemma_characters_bounded(time: nat, len: nat)
    requires
        time <= TIME_FULL,
    ensures
        0 <= (time * len) / (TIME_FULL as nat) <= len,
        time == TIME_FULL ==> (time * len) / (TIME_FULL as nat) == len,
{
    let full = TIME_FULL as nat;
    assert(time * len <= full * len) by (nonlinear_arith)
        requires
            time <= full,
            len >= 0,
    ;
    assert(time * len >= 0) by (nonlinear_arith)
        requires
            time >= 0,
            len >= 0,
    ;
    assert((full * len) / full == len) by (nonlinear_arith)
        requires
            full > 0,
    ;
    assert((time * len) / full <= (full * len) / full) by (nonlinear_arith)
        requires
            time * len <= full * len,
            full > 0,
    ;
    assert((time * len) / full >= 0) by (nonlinear_arith)
        requires
            time * len >= 0,
            full > 0,
    ;
}

impl View for Sentence {
    type V = SentenceView;

    closed spec fn view(&self) -> SentenceView {
        SentenceView {
            text: self.text_section.value@,
            style: self.text_section.style,
            action: self.action,
            typewriter: self.typewriter@,
        }
    }
}

impl Default for Sentence {
    /// An empty sentence in the plain style, shown at once, with no action.
    fn default() -> (sentence: Self)
        ensures
            sentence@ == Sentence::spec_blank(),
    {
        Sentence::new()
    }
}

impl Sentence {
    /// The sentence that [`Sentence::new`] gives.
    pub open spec fn spec_blank() -> SentenceView {
        SentenceView {
            text: Seq::empty(),
            style: TextStyle::spec_plain(),
            action: None,
            typewriter: TypeWriterView {
                active: false,
                time: 0,
                speed: crate::typewriter::DEFAULT_SPEED as nat,
            },
        }
    }

    /// An empty sentence in the plain style, shown at once, with no action.
    pub fn new() -> (sentence: Self)
        ensures
            sentence@ == Sentence::spec_blank(),
    {
        Self {
            text_section: TextSection { value: String::new(), style: TextStyle::default() },
            action: None,
            typewriter: TypeWriter::default(),
        }
    }

    /// The sentence with the text `value`.
    pub fn with_text(self, value: &str) -> (sentence: Self)
        ensures
            sentence@ == (SentenceView { text: value@, ..self@ }),
    {
        let mut sentence = self;
        sentence.set_text(value);
        sentence
    }

    /// Replaces the text by `value`.
    pub fn set_text(&mut self, value: &str)
        ensures
            final(self)@ == (SentenceView { text: value@, ..old(self)@ }),
    {
        self.text_section.value = String::from_str(value);
    }

    /// The whole text, revealed or not.
    pub fn text(&self) -> (text: &str)
        ensures
            text@ == self@.text,
    {
        self.text_section.value.as_str()
    }

    /// Lends the text out; the sentence then holds whatever the borrower
    /// leaves in it.
    pub fn mut_text(&mut self) -> (text: &mut String)
        ensures
            text@ == old(self)@.text,
            final(self)@ == (SentenceView { text: final(text)@, ..old(self)@ }),
    {
        &mut self.text_section.value
    }

    /// The sentence in the font `font`.
    pub fn with_font(self, font: FontId) -> (sentence: Self)
        ensures
            sentence@ == (SentenceView { style: TextStyle { font, ..self@.style }, ..self@ }),
    {
        let mut sentence = self;
        sentence.set_font(font);
        sentence
    }

    /// Changes the font to `font`.
    pub fn set_font(&mut self, font: FontId)
        ensures
            final(self)@ == (SentenceView {
                style: TextStyle { font, ..old(self)@.style },
                ..old(self)@
            }),
    {
        self.text_section.style.font = font;
    }

    /// The font.
    pub fn font(&self) -> (font: &FontId)
        ensures
            *font == self@.style.font,
    {
        &self.text_section.style.font
    }

    /// Lends the font out; the sentence then has the font that the borrower
    /// leaves.
    pub fn mut_font(&mut self) -> (font: &mut FontId)
        ensures
            *font == old(self)@.style.font,
            final(self)@ == (SentenceView {
                style: TextStyle { font: *final(font), ..old(self)@.style },
                ..old(self)@
            }),
    {
        &mut self.text_section.style.font
    }

    /// A font size in thousandths of a unit.
    pub fn with_font_size(self, size: u32) -> (sentence: Self)
        ensures
            sentence@ == (SentenceView {
                style: TextStyle { font_size: size, ..self@.style },
                ..self@
            }),
    {
        let mut sentence = self;
        sentence.set_font_size(size);
        sentence
    }

    /// A font size in thousandths of a unit.
    pub fn set_font_size(&mut self, size: u32)
        ensures
            final(self)@ == (SentenceView {
                style: TextStyle { font_size: size, ..old(self)@.style },
                ..old(self)@
            }),
    {
        self.text_section.style.font_size = size;
    }

    /// The font size in thousandths of a unit.
    pub fn font_size(&self) -> (size: &u32)
        ensures
            *size == self@.style.font_size,
    {
        &self.text_section.style.font_size
    }

    /// Lends the font size out; the sentence then has the size that the
    /// borrower leaves.
    pub fn mut_font_size(&mut self) -> (size: &mut u32)
        ensures
            *size == old(self)@.style.font_size,
            final(self)@ == (SentenceView {
                style: TextStyle { font_size: *final(size), ..old(self)@.style },
                ..old(self)@
            }),
    {
        &mut self.text_section.style.font_size
    }

    /// The sentence in the color `color`.
    pub fn with_color(self, color: Color) -> (sentence: Self)
        ensures
            sentence@ == (SentenceView { style: TextStyle { color, ..self@.style }, ..self@ }),
    {
        let mut sentence = self;
        sentence.set_color(color);
        sentence
    }

    /// Changes the color to `color`.
    pub fn set_color(&mut self, color: Color)
        ensures
            final(self)@ == (SentenceView {
                style: TextStyle { color, ..old(self)@.style },
                ..old(self)@
            }),
    {
        self.text_section.style.color = color;
    }

    /// The color.
    pub fn color(&self) -> (color: &Color)
        ensures
            *color == self@.style.color,
    {
        &self.text_section.style.color
    }

    /// Lends the color out; the sentence then has the color that the
    /// borrower leaves.
    pub fn mut_color(&mut self) -> (color: &mut Color)
        ensures
            *color == old(self)@.style.color,
            final(self)@ == (SentenceView {
                style: TextStyle { color: *final(color), ..old(self)@.style },
                ..old(self)@
            }),
    {
        &mut self.text_section.style.color
    }

    /// The sentence with the action `action`.
    pub fn with_action(self, action: ActionId) -> (sentence: Self)
        ensures
            sentence@ == (SentenceView { action: Some(action), ..self@ }),
    {
        let mut sentence = self;
        sentence.set_action(action);
        sentence
    }

    /// The sentence without an action.
    pub fn remove_action(self) -> (sentence: Self)
        ensures
            sentence@ == (SentenceView { action: None, ..self@ }),
    {
        let mut sentence = self;
        sentence.action = None;
        sentence
    }

    /// Gives the sentence the action `action`.
    pub fn set_action(&mut self, action: ActionId)
        ensures
            final(self)@ == (SentenceView { action: Some(action), ..old(self)@ }),
    {
        self.action = Some(action);
    }

    /// Lends the action out, if the sentence has one; the sentence then has
    /// the action that the borrower leaves.
    pub fn get_action_mut(&mut self) -> (action: Option<&mut ActionId>)
        ensures
            match action {
                Some(id) => old(self)@.action == Some(*id) && final(self)@ == (SentenceView {
                    action: Some(*final(id)),
                    ..old(self)@
                }),
                None => old(self)@.action.is_none() && final(self)@ == old(self)@,
            },
    {
        self.action.as_mut()
    }

    /// Gives the sentence a fresh, active typewriter: its text then appears
    /// character by character.
    pub fn create_typewriter(self) -> (sentence: Self)
        ensures
            sentence@ == (SentenceView {
                typewriter: TypeWriterView {
                    active: true,
                    time: 0,
                    speed: crate::typewriter::DEFAULT_SPEED as nat,
                },
                ..self@
            }),
    {
        let mut sentence = self;
        sentence.typewriter = TypeWriter::new();
        sentence
    }

    /// The sentence with `typewriter` in place of its own.
    pub fn with_typewriter(self, typewriter: TypeWriter) -> (sentence: Self)
        ensures
            sentence@ == (SentenceView { typewriter: typewriter@, ..self@ }),
    {
        let mut sentence = self;
        sentence.typewriter = typewriter;
        sentence
    }

    /// Replaces the typewriter by `typewriter`.
    pub fn set_typewriter(&mut self, typewriter: TypeWriter)
        ensures
            final(self)@ == (SentenceView { typewriter: typewriter@, ..old(self)@ }),
    {
        self.typewriter = typewriter;
    }

    /// The typewriter, which is within its ranges.
    pub fn typewriter(&self) -> (typewriter: &TypeWriter)
        ensures
            typewriter@ == self@.typewriter,
            typewriter@.in_range(),
    {
        proof {
            use_type_invariant(&self.typewriter);
        }
        &self.typewriter
    }

    /// Lends the typewriter out; the sentence then holds whatever the
    /// borrower leaves in it.
    pub fn mut_typewriter(&mut self) -> (typewriter: &mut TypeWriter)
        ensures
            typewriter@ == old(self)@.typewriter,
            final(self)@ == (SentenceView { typewriter: final(typewriter)@, ..old(self)@ }),
    {
        &mut self.typewriter
    }

    /// The action, if the sentence has one. Nothing is run.
    pub fn get_action(&self) -> (action: Option<&ActionId>)
        ensures
            match action {
                Some(id) => self@.action == Some(*id),
                None => self@.action.is_none(),
            },
    {
        self.action.as_ref()
    }

    /// How many characters the typewriter has revealed, `None` without an
    /// active typewriter. Characters are counted, not bytes.
    pub fn typewriter_characters(&self) -> (characters: Option<usize>)
        ensures
            characters.is_some() == self@.typewriter.active,
            match characters {
                Some(n) => self@.typewriter_characters() == Some(n as nat) && n <= self@.text.len(),
                None => self@.typewriter_characters().is_none(),
            },
    {
        if self.typewriter.is_active() {
            let time = self.typewriter.current_time();
            let len = self.text_section.value.as_str().unicode_len();
            proof {
                lemma_characters_bounded(time as nat, len as nat);
                assert(time * len <= TIME_FULL * usize::MAX) by (nonlinear_arith)
                    requires
                        time <= TIME_FULL,
                        len <= usize::MAX,
                ;
            }
            let revealed: u128 = (time as u128) * (len as u128) / (TIME_FULL as u128);
            Some(revealed as usize)
        } else {
            None
        }
    }

    /// Whether nothing of the text is hidden any more: the typewriter is
    /// inactive or at its end.
    pub fn is_typewriter_finished(&self) -> (finished: bool)
        ensures
            finished == self@.is_typewriter_finished(),
    {
        !self.typewriter.is_active() || self.typewriter.current_time() == TIME_FULL
    }

    /// The text on show: the revealed prefix, cut between characters, or the
    /// whole text without an active typewriter.
    pub fn visible_text(&self) -> (text: String)
        ensures
            text@ == self@.visible_text(),
    {
        match self.typewriter_characters() {
            Some(characters) => {
                let shown = self.text_section.value.as_str().substring_char(0, characters);
                String::from_str(shown)
            },
            None => self.text_section.value.clone(),
        }
    }

    /// The text on show, as [`Sentence::visible_text`] gives it.
    pub fn to_string(&self) -> (text: String)
        ensures
            text@ == self@.visible_text(),
    {
        self.visible_text()
    }

    /// The run of text that the host draws for this sentence: the text on
    /// show, in the sentence's style.
    pub fn as_text_section(&self) -> (section: TextSection)
        ensures
            section@ == self@.as_text_section(),
    {
        TextSection { value: self.visible_text(), style: self.text_section.style }
    }
}

} // verus!
