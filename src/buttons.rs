//! Buttons of the input crate, as the controllers bind and compare them.
//!
//! The button types are declared with their variants and fields, so that
//! verified code builds buttons and contracts name them.
use vstd::prelude::*;

verus! {

#[verifier::external_type_specification]
pub struct ExButton(input::Button);

#[verifier::external_type_specification]
pub struct ExKey(input::Key);

#[verifier::external_type_specification]
pub struct ExMouseButton(input::MouseButton);

#[verifier::external_type_specification]
pub struct ExControllerButton(input::ControllerButton);

#[verifier::external_type_specification]
pub struct ExControllerHat(input::ControllerHat);

#[verifier::external_type_specification]
pub struct ExHatState(input::HatState);

/// Relies on the derived `PartialEq` of `input::Button`: its variants hold
/// keys, mouse buttons and controller buttons made of plain integers and
/// field-less enums, so two buttons compare equal exactly when they are the
/// same value.
#[verifier::external_body]
pub(crate) fn same_button(a: &input::Button, b: &input::Button) -> (r: bool)
    ensures
        r == (*a == *b),
{
    *a == *b
}

} // verus!
