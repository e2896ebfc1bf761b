//! The failure vocabulary of a file-type classifier that runs a neural model.
//!
//! Reading input, running the model, taking a lock, decoding JSON and shaping
//! tensors each fail in a way of their own. [`MagikaError`] gathers those five
//! failures in one closed type, and [`MagikaResult`] is the result type built
//! on it.

pub mod error;
pub mod foreign;
pub mod laws;

pub use error::{MagikaError, MagikaResult};
