use std::path::PathBuf;
use std::sync::PoisonError;

use magika::MagikaError;
use ndarray::ShapeError;
use onnxruntime::OrtError;

fn json_failure(text: &str) -> serde_json::Error {
    match serde_json::from_str::<serde_json::Value>(text) {
        Ok(_) => panic!("the text is JSON"),
        Err(e) => e,
    }
}

#[test]
fn file_not_found_is_labelled_io_error() {
    let failure = std::io::Error::from(std::io::ErrorKind::NotFound);
    let e = MagikaError::from(failure);
    assert_eq!(e.label(), "I/O error");
    assert_eq!(e.to_string(), "I/O error");
}

#[test]
fn json_syntax_failure_is_labelled_json_error() {
    let failure = json_failure("{\"threshold\" 0.5}");
    assert!(failure.is_syntax());
    let e = MagikaError::from(failure);
    assert_eq!(e.label(), "JSON error");
    assert_eq!(e.to_string(), "JSON error");
}

#[test]
fn poisoned_lock_is_labelled_mutex_lock_error() {
    let e = MagikaError::from(PoisonError::new(vec![0u8; 4]));
    assert_eq!(e.label(), "Mutex lock error");
    assert_eq!(e.to_string(), "Mutex lock error");
    assert!(matches!(e, MagikaError::LockError));
}

#[test]
fn runtime_failure_is_labelled_onnx_runtime_error() {
    let e = MagikaError::from(OrtError::NonUtf8Path {
        path: PathBuf::from("model.onnx"),
    });
    assert_eq!(e.label(), "ONNX Runtime error");
    assert_eq!(e.to_string(), "ONNX Runtime error");
}

#[test]
fn shape_failure_is_labelled_ndarray_shape_error() {
    let e = MagikaError::from(ShapeError::from_kind(ndarray::ErrorKind::OutOfBounds));
    assert_eq!(e.label(), "ndarray shape error");
    assert_eq!(e.to_string(), "ndarray shape error");
}

#[test]
fn label_of_a_variant_made_by_hand() {
    assert_eq!(MagikaError::LockError.label(), "Mutex lock error");
    let e = MagikaError::IOError(std::io::Error::from(std::io::ErrorKind::PermissionDenied));
    assert_eq!(e.label(), "I/O error");
}

#[test]
fn label_is_the_same_for_different_payloads() {
    let not_found = MagikaError::from(std::io::Error::new(
        std::io::ErrorKind::NotFound,
        "no such file",
    ));
    let truncated = MagikaError::from(std::io::Error::new(
        std::io::ErrorKind::UnexpectedEof,
        "file ends in the middle of a record",
    ));
    assert_eq!(not_found.label(), truncated.label());
    assert_eq!(not_found.to_string(), truncated.to_string());

    let syntax = MagikaError::from(json_failure("{]"));
    let eof = MagikaError::from(json_failure("[1,"));
    assert_eq!(syntax.label(), eof.label());

    let shape = MagikaError::from(ShapeError::from_kind(ndarray::ErrorKind::IncompatibleShape));
    let layout = MagikaError::from(ShapeError::from_kind(ndarray::ErrorKind::IncompatibleLayout));
    assert_eq!(shape.label(), layout.label());

    let missing = MagikaError::from(OrtError::FileDoesNotExists {
        filename: PathBuf::from("a.onnx"),
    });
    let unreadable = MagikaError::from(OrtError::NonUtf8Path {
        path: PathBuf::from("b.onnx"),
    });
    assert_eq!(missing.label(), unreadable.label());
}

#[test]
fn label_holds_nothing_of_the_payload() {
    let e = MagikaError::from(std::io::Error::new(
        std::io::ErrorKind::Other,
        "disk on fire",
    ));
    assert!(!e.label().contains("disk on fire"));
    assert!(!e.to_string().contains("disk on fire"));
    match e {
        MagikaError::IOError(inner) => assert_eq!(inner.to_string(), "disk on fire"),
        other => panic!("unexpected variant: {:?}", other),
    }
}

#[test]
fn labels_of_different_variants_differ() {
    let labels = vec![
        MagikaError::from(std::io::Error::from(std::io::ErrorKind::NotFound)).to_string(),
        MagikaError::from(OrtError::FileDoesNotExists {
            filename: PathBuf::from("a.onnx"),
        })
        .to_string(),
        MagikaError::LockError.to_string(),
        MagikaError::from(json_failure("?")).to_string(),
        MagikaError::from(ShapeError::from_kind(ndarray::ErrorKind::Overflow)).to_string(),
    ];
    for (i, a) in labels.iter().enumerate() {
        for (j, b) in labels.iter().enumerate() {
            assert_eq!(a == b, i == j);
        }
    }
}
