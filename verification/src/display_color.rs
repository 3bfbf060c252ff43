//! The colour type of the drawing framework.
//!
//! The library never looks inside a colour. It keeps colours for the caller
//! and hands them back, so all that is said of one is that it is the same
//! value as before.

use vstd::prelude::*;

verus! {

/// macroquad's `Color`, declared so that it can stand in fields and
/// signatures. Nothing is claimed of what a value holds.
#[verifier::external_type_specification]
#[verifier::external_body]
pub struct ExColor(macroquad::color::Color);

} // verus!
