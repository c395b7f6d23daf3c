//! The player's keys, as the host's input collection reports them.

use bevy::input::keyboard::KeyCode;
use bevy::input::ButtonInput;
use std::hash::Hash;
use vstd::prelude::*;

verus! {

/// `NativeKeyCode` of bevy: the platform's own code of a key that bevy has
/// no name for. Declared as it is defined, so nothing is assumed of it.
#[verifier::external_type_specification]
pub struct ExNativeKeyCode(bevy::input::keyboard::NativeKeyCode);

/// `KeyCode` of bevy: a key by its place on the keyboard. Declared as it is
/// defined, so nothing is assumed of it: two keys are equal exactly when
/// they are the same variant with the same native code.
#[verifier::external_type_specification]
pub struct ExKeyCode(KeyCode);

/// `ButtonInput` of bevy: the buttons that are down, those that went down
/// since the last frame and those that went up. Nothing of its inside is
/// visible here.
#[verifier::external_type_specification]
#[verifier::external_body]
#[verifier::reject_recursive_types(T)]
pub struct ExButtonInput<T: Copy + Eq + Hash + Send + Sync + 'static>(ButtonInput<T>);

/// The keys that `input` holds as just pressed: those that went down since
/// the last frame, which is what `ButtonInput::just_pressed` asks for one key.
pub uninterp spec fn just_pressed(input: ButtonInput<KeyCode>) -> Set<KeyCode>;

/// One of `keys` was pressed since the last frame.
pub open spec fn any_key_just_pressed(input: ButtonInput<KeyCode>, keys: Seq<KeyCode>) -> bool {
    exists|i: int| 0 <= i < keys.len() && just_pressed(input).contains(#[trigger] keys[i])
}

/// `ButtonInput::any_just_pressed` of bevy, asked about `keys`: whether the
/// keys that `input` holds as just pressed include one of them. Not proved:
/// the contract says what bevy's source shows the method to compute.
#[verifier::external_body]
pub(crate) fn any_just_pressed(input: &ButtonInput<KeyCode>, keys: &Vec<KeyCode>) -> (pressed: bool)
    ensures
        pressed == (exists|i: int|
            0 <= i < keys@.len() && just_pressed(*input).contains(#[trigger] keys@[i])),
{
    input.any_just_pressed(keys.iter().cloned())
}

} // verus!
