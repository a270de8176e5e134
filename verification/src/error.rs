//! The error type of the instruction handlers.

use vstd::prelude::*;

verus! {

/// Declares `anchor_lang::error::Error`, the error in `anchor_lang::Result`,
/// so that the handlers can keep Anchor's result type. The type is opaque
/// here: nothing is claimed of what such a value holds, and no handler of
/// this crate makes one.
#[verifier::external_type_specification]
#[verifier::external_body]
pub struct ExAnchorError(anchor_lang::error::Error);

} // verus!
