//! Why a body could not be materialized.

use multipart::client::lazy::LazyError;
use vstd::prelude::*;

verus! {

/// A failure of materialization. Adding fields never fails; only the final
/// step does, and it hands on what it was told, unchanged.
#[derive(Debug)]
pub enum Error {
    /// The serialization collaborator could not encode a value. Holds the
    /// collaborator's account of it.
    Serialization(String),
    /// The multipart stream could not be assembled, for one because a file
    /// named by path could not be opened. Holds the encoder's error.
    MultipartPreparation(LazyError<'static, std::io::Error>),
}

} // verus!
