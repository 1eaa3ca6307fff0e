//! Planning and bookkeeping for exporting the assets of a photo library into a
//! directory layout of the user's choice.
//!
//! The library turns catalogued assets into export tasks, shapes their
//! destinations through an ordered pipeline of mappers, reconciles them with the
//! files already present in the output tree, and keeps the tally of a run.
pub mod paths;
pub mod uti;
pub mod date;
pub mod model;
pub mod albums;
pub mod task;
pub mod existing;
pub mod mappers;
pub mod pipeline;
pub mod engine;
pub mod version;
pub mod laws;
pub mod ids;
pub mod error;
