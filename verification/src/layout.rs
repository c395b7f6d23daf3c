//! Where a paragraph wants its box: values that the engine carries through
//! to the host's layout and never interprets.

use vstd::prelude::*;

verus! {

/// A length of the host's layout. Each number is in thousandths: of a pixel,
/// of a percent of the parent, or of a percent of the viewport's width,
/// height, smaller side or larger side.
#[derive(Clone, Copy, Debug, PartialEq, Eq, Structural, Hash)]
pub enum Val {
    Auto,
    Px(i32),
    Percent(i32),
    Vw(i32),
    Vh(i32),
    VMin(i32),
    VMax(i32),
}

/// The offsets of a box from the four edges of its parent.
#[derive(Clone, Copy, Debug, PartialEq, Eq, Structural, Hash)]
pub struct UiRect {
    pub left: Val,
    pub right: Val,
    pub top: Val,
    pub bottom: Val,
}

} // verus!
