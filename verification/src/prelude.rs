//! The names that a host of the engine needs, in one place.

pub use crate::action::ActionId;
pub use crate::dialogue::{Dialogue, Transition};
pub use crate::layout::{UiRect, Val};
pub use crate::paragraph::Paragraph;
pub use crate::plugin::{
    advance_dialogue, change_width, move_dialogue, press_skip_key, run_action, run_frame,
    show_dialogue, update, update_dialogue, update_typewriter, CurrentAction, Frame,
};
pub use crate::sentence::Sentence;
pub use crate::style::{Color, FontId, TextSection, TextStyle, DEFAULT_FONT_SIZE};
pub use crate::typewriter::{TypeWriter, DEFAULT_SPEED, SPEED_FULL, TIME_FULL};
