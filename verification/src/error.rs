//! The error type, the conversions into it and its labels.

use vstd::prelude::*;

verus! {

/// Result type of Magika functions.
pub type MagikaResult<T> = Result<T, MagikaError>;

/// Errors returned by Magika functions.
///
/// The set of variants is closed: there is no variant for failures of an
/// unknown source. Four variants keep the failure that caused them; the one for
/// a poisoned lock keeps nothing.
#[derive(Debug)]
pub enum MagikaError {
    /// Input/output errors reported by the standard library.
    IOError(std::io::Error),
    /// Errors reported by the ONNX Runtime.
    RuntimeError(onnxruntime::OrtError),
    /// Errors taking a lock on a mutex.
    LockError,
    /// Errors reported by the JSON parser.
    JsonError(serde_json::Error),
    /// Shape errors reported by the ndarray library.
    ShapeError(ndarray::ShapeError),
}

impl MagikaError {
    /// The label of an error: a fixed phrase for each variant, in which the
    /// payload has no part.
    pub open spec fn label_text(self) -> Seq<char> {
        match self {
            MagikaError::IOError(_) => "I/O error"@,
            MagikaError::RuntimeError(_) => "ONNX Runtime error"@,
            MagikaError::LockError => "Mutex lock error"@,
            MagikaError::JsonError(_) => "JSON error"@,
            MagikaError::ShapeError(_) => "ndarray shape error"@,
        }
    }

    /// Whether two errors are of the same variant, whatever they carry.
    pub open spec fn same_variant(self, other: MagikaError) -> bool {
        ||| self is IOError && other is IOError
        ||| self is RuntimeError && other is RuntimeError
        ||| self is LockError && other is LockError
        ||| self is JsonError && other is JsonError
        ||| self is ShapeError && other is ShapeError
    }

    /// The label of this error, for display.
    pub fn label(&self) -> (s: &'static str)
        ensures
            s@ == self.label_text(),
    {
        match self {
            MagikaError::IOError(_) => "I/O error",
            MagikaError::RuntimeError(_) => "ONNX Runtime error",
            MagikaError::LockError => "Mutex lock error",
            MagikaError::JsonError(_) => "JSON error",
            MagikaError::ShapeError(_) => "ndarray shape error",
        }
    }

    /// The label of this error as an owned string.
    pub fn to_string(&self) -> (s: String)
        ensures
            s@ == self.label_text(),
    {
        self.label().to_owned()
    }
}

impl From<std::io::Error> for MagikaError {
    /// Wraps an input/output failure, which becomes the payload.
    fn from(source: std::io::Error) -> (e: MagikaError)
        ensures
            e == MagikaError::IOError(source),
    {
        MagikaError::IOError(source)
    }
}

impl vstd::std_specs::convert::FromSpecImpl<std::io::Error> for MagikaError {
    open spec fn obeys_from_spec() -> bool {
        true
    }

    open spec fn from_spec(source: std::io::Error) -> MagikaError {
        MagikaError::IOError(source)
    }
}

impl From<onnxruntime::OrtError> for MagikaError {
    /// Wraps a failure of the ONNX Runtime, which becomes the payload.
    fn from(source: onnxruntime::OrtError) -> (e: MagikaError)
        ensures
            e == MagikaError::RuntimeError(source),
    {
        MagikaError::RuntimeError(source)
    }
}

impl vstd::std_specs::convert::FromSpecImpl<onnxruntime::OrtError> for MagikaError {
    open spec fn obeys_from_spec() -> bool {
        true
    }

    open spec fn from_spec(source: onnxruntime::OrtError) -> MagikaError {
        MagikaError::RuntimeError(source)
    }
}

impl<T> From<std::sync::PoisonError<T>> for MagikaError {
    /// Reports a poisoned lock. What the failed attempt carried, the guard as
    /// a rule, is dropped: the error says only that the lock was poisoned.
    fn from(_poisoned: std::sync::PoisonError<T>) -> (e: MagikaError)
        ensures
            e == MagikaError::LockError,
    {
        MagikaError::LockError
    }
}

impl<T> vstd::std_specs::convert::FromSpecImpl<std::sync::PoisonError<T>> for MagikaError {
    open spec fn obeys_from_spec() -> bool {
        true
    }

    open spec fn from_spec(_poisoned: std::sync::PoisonError<T>) -> MagikaError {
        MagikaError::LockError
    }
}

impl From<serde_json::Error> for MagikaError {
    /// Wraps a failure to read or write JSON, which becomes the payload.
    fn from(source: serde_json::Error) -> (e: MagikaError)
        ensures
            e == MagikaError::JsonError(source),
    {
        MagikaError::JsonError(source)
    }
}

impl vstd::std_specs::convert::FromSpecImpl<serde_json::Error> for MagikaError {
    open spec fn obeys_from_spec() -> bool {
        true
    }

    open spec fn from_spec(source: serde_json::Error) -> MagikaError {
        MagikaError::JsonError(source)
    }
}

impl From<ndarray::ShapeError> for MagikaError {
    /// Wraps a shape mismatch, which becomes the payload.
    fn from(source: ndarray::ShapeError) -> (e: MagikaError)
        ensures
            e == MagikaError::ShapeError(source),
    {
        MagikaError::ShapeError(source)
    }
}

impl vstd::std_specs::convert::FromSpecImpl<ndarray::ShapeError> for MagikaError {
    open spec fn obeys_from_spec() -> bool {
        true
    }

    open spec fn from_spec(source: ndarray::ShapeError) -> MagikaError {
        MagikaError::ShapeError(source)
    }
}

} // verus!
