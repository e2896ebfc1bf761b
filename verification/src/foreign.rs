//! The failure types of other crates and of the standard library that an error
//! of this crate carries. They are opaque here: a value of one of them is moved
//! into an error and handed out again, and nothing is read from it.

use vstd::prelude::*;

verus! {

/// `std::io::Error`: what a read or a write failed with.
#[verifier::external_type_specification]
#[verifier::external_body]
pub struct ExIoError(std::io::Error);

/// `onnxruntime::OrtError`: what the ONNX Runtime failed with.
#[verifier::external_type_specification]
#[verifier::external_body]
pub struct ExOrtError(onnxruntime::OrtError);

/// `serde_json::Error`: what reading or writing JSON failed with.
#[verifier::external_type_specification]
#[verifier::external_body]
pub struct ExJsonError(serde_json::Error);

/// `ndarray::ShapeError`: a shape or a layout that does not fit an array.
#[verifier::external_type_specification]
#[verifier::external_body]
pub struct ExShapeError(ndarray::ShapeError);

/// `std::sync::PoisonError<T>`: a lock whose holder panicked. `T` is what the
/// failed attempt hands back, most often the guard.
#[verifier::external_type_specification]
#[verifier::external_body]
#[verifier::reject_recursive_types(T)]
pub struct ExPoisonError<T>(std::sync::PoisonError<T>);

} // verus!
