//! What holds of the conversions and of the labels, for every value.

use crate::error::MagikaError;
use vstd::prelude::*;
use vstd::std_specs::convert::FromSpec;

verus! {

/// Every error lies in one of the five variants: there is no sixth.
pub proof fn lemma_variants_are_exhaustive(e: MagikaError)
    ensures
        e is IOError || e is RuntimeError || e is LockError || e is JsonError || e is ShapeError,
{
}

/// Each source of failure is converted into the variant that stands for it.
/// The five variants so reached differ from each other, and every error is of
/// the variant of one of them: sources and variants correspond one to one.
pub proof fn lemma_sources_and_variants_correspond<T>(
    io: std::io::Error,
    runtime: onnxruntime::OrtError,
    lock: std::sync::PoisonError<T>,
    json: serde_json::Error,
    shape: ndarray::ShapeError,
    e: MagikaError,
)
    ensures
        MagikaError::from_spec(io) is IOError,
        MagikaError::from_spec(runtime) is RuntimeError,
        MagikaError::from_spec(lock) is LockError,
        MagikaError::from_spec(json) is JsonError,
        MagikaError::from_spec(shape) is ShapeError,
        !MagikaError::from_spec(io).same_variant(MagikaError::from_spec(runtime)),
        !MagikaError::from_spec(io).same_variant(MagikaError::from_spec(lock)),
        !MagikaError::from_spec(io).same_variant(MagikaError::from_spec(json)),
        !MagikaError::from_spec(io).same_variant(MagikaError::from_spec(shape)),
        !MagikaError::from_spec(runtime).same_variant(MagikaError::from_spec(lock)),
        !MagikaError::from_spec(runtime).same_variant(MagikaError::from_spec(json)),
        !MagikaError::from_spec(runtime).same_variant(MagikaError::from_spec(shape)),
        !MagikaError::from_spec(lock).same_variant(MagikaError::from_spec(json)),
        !MagikaError::from_spec(lock).same_variant(MagikaError::from_spec(shape)),
        !MagikaError::from_spec(json).same_variant(MagikaError::from_spec(shape)),
        e.same_variant(MagikaError::from_spec(io))
            || e.same_variant(MagikaError::from_spec(runtime))
            || e.same_variant(MagikaError::from_spec(lock))
            || e.same_variant(MagikaError::from_spec(json))
            || e.same_variant(MagikaError::from_spec(shape)),
{
}

/// A conversion that keeps its source keeps it whole: the payload of the error
/// is the value that was converted, so all that the value says can be read
/// from the error.
pub proof fn lemma_conversion_keeps_payload(
    io: std::io::Error,
    runtime: onnxruntime::OrtError,
    json: serde_json::Error,
    shape: ndarray::ShapeError,
)
    ensures
        MagikaError::from_spec(io) matches MagikaError::IOError(p) && p == io,
        MagikaError::from_spec(runtime) matches MagikaError::RuntimeError(p) && p == runtime,
        MagikaError::from_spec(json) matches MagikaError::JsonError(p) && p == json,
        MagikaError::from_spec(shape) matches MagikaError::ShapeError(p) && p == shape,
{
}

/// An error that carries a payload is the conversion of that payload: nothing
/// but the source makes up the error.
pub proof fn lemma_error_is_conversion_of_its_payload(e: MagikaError)
    ensures
        e matches MagikaError::IOError(p) ==> e == MagikaError::from_spec(p),
        e matches MagikaError::RuntimeError(p) ==> e == MagikaError::from_spec(p),
        e matches MagikaError::JsonError(p) ==> e == MagikaError::from_spec(p),
        e matches MagikaError::ShapeError(p) ==> e == MagikaError::from_spec(p),
{
}

/// The conversion of a poisoned lock is constant: whatever two poisoned locks
/// carry, and of whatever types, both become the one error without payload.
pub proof fn lemma_lock_conversion_is_constant<T, U>(
    first: std::sync::PoisonError<T>,
    second: std::sync::PoisonError<U>,
)
    ensures
        MagikaError::from_spec(first) == MagikaError::LockError,
        MagikaError::from_spec(second) == MagikaError::LockError,
        MagikaError::from_spec(first) == MagikaError::from_spec(second),
{
}

/// The label depends on the variant alone: two errors of one variant have the
/// same label, whatever their payloads.
pub proof fn lemma_label_ignores_payload(a: MagikaError, b: MagikaError)
    requires
        a.same_variant(b),
    ensures
        a.label_text() == b.label_text(),
{
}

/// The label tells the variant: two errors with the same label are of the
/// same variant.
pub proof fn lemma_label_tells_variant(a: MagikaError, b: MagikaError)
    requires
        a.label_text() == b.label_text(),
    ensures
        a.same_variant(b),
{
    reveal_strlit("I/O error");
    reveal_strlit("ONNX Runtime error");
    reveal_strlit("Mutex lock error");
    reveal_strlit("JSON error");
    reveal_strlit("ndarray shape error");
    assert("I/O error"@.len() == 9);
    assert("ONNX Runtime error"@.len() == 18);
    assert("Mutex lock error"@.len() == 16);
    assert("JSON error"@.len() == 10);
    assert("ndarray shape error"@.len() == 19);
}

} // verus!
