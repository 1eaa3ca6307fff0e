//! The ways in which the program as a whole can fail.
use vstd::prelude::*;

verus! {

/// Why the export could not go on.
pub enum Error {
    /// An error of no other kind, with its message.
    General(String),
    /// The catalogue could not be read.
    Database(String),
    /// One message for each task of an export that failed.
    Export(Vec<String>),
}

} // verus!
