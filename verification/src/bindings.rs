//! The types of piet and stdweb that this library holds, and the handle
//! clones it makes. The calls that act on a canvas are in `canvas`, where
//! each is recorded.
use vstd::prelude::*;

use piet::Error;
use stdweb::web::error::SecurityError;
use stdweb::web::{CanvasGradient, CanvasRenderingContext2d, TextMetrics};
use stdweb::Value;

verus! {

/// The 2D rendering context of a canvas element (a handle on a JavaScript object).
#[verifier::external_type_specification]
#[verifier::external_body]
pub struct ExCanvasRenderingContext2d(CanvasRenderingContext2d);

/// A canvas gradient (a handle on a JavaScript object).
#[verifier::external_type_specification]
#[verifier::external_body]
pub struct ExCanvasGradient(CanvasGradient);

/// The result of measuring a text (a handle on a JavaScript object).
#[verifier::external_type_specification]
#[verifier::external_body]
pub struct ExTextMetrics(TextMetrics);

/// The error that measuring a text may raise.
#[verifier::external_type_specification]
#[verifier::external_body]
pub struct ExSecurityError(SecurityError);

/// Any JavaScript value.
#[verifier::external_type_specification]
#[verifier::external_body]
pub struct ExValue(Value);

/// piet's error type.
#[verifier::external_type_specification]
#[verifier::external_body]
pub struct ExError(Error);

/// `Clone` of a gradient handle: a second handle on the same gradient. The
/// handle is a reference id, and the clone keeps the id.
#[verifier::external_body]
pub(crate) fn gradient_clone(gradient: &CanvasGradient) -> (r: CanvasGradient)
    ensures
        r == *gradient,
{
    gradient.clone()
}

} // verus!
