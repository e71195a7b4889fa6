//! Rules for a folder of model files: which directory entries count as models,
//! how they are referenced, in which order they are listed, and which steps an
//! import of a new model file takes.
//!
//! The library touches no file system. Callers report what they found on disk
//! and carry out the requests the library hands back.

pub mod error;
pub mod importer;
pub mod lister;
pub mod name;
pub mod order;
