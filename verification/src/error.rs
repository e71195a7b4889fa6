//! What can go wrong while listing the model folder or importing into it.

use vstd::prelude::*;

verus! {

/// Why a listing or an import failed. Each failure ends the call that met it;
/// nothing is retried.
///
/// A source path without a final name has no extension either, so an import
/// of it is refused as `UnsupportedFileType`; there is no separate failure for
/// a missing name.
#[derive(Debug, Clone, PartialEq, Eq)]
pub enum ModelError {
    /// The model folder exists but could not be read; holds the cause.
    DirectoryRead(String),
    /// The file to import does not exist.
    SourceNotFound,
    /// The file to import does not have the model extension.
    UnsupportedFileType,
    /// The model folder was missing and could not be created; holds the cause.
    DirectoryCreate(String),
    /// The model folder already holds a file of the same name.
    DuplicateModelName,
    /// Copying the file into the model folder failed; holds the cause.
    Copy(String),
}

/// A `ModelError` with its texts as character sequences.
pub ghost enum Failure {
    DirectoryRead(Seq<char>),
    SourceNotFound,
    UnsupportedFileType,
    DirectoryCreate(Seq<char>),
    DuplicateModelName,
    Copy(Seq<char>),
}

impl Failure {
    /// The message shown to the user.
    pub open spec fn message(self) -> Seq<char> {
        match self {
            Failure::DirectoryRead(cause) => "Failed to read models directory: "@ + cause,
            Failure::SourceNotFound => "Source file does not exist"@,
            Failure::UnsupportedFileType => "Only .gguf files are supported"@,
            Failure::DirectoryCreate(cause) => "Failed to create models directory: "@ + cause,
            Failure::DuplicateModelName => "A model with this name already exists in the models folder"@,
            Failure::Copy(cause) => "Failed to copy file: "@ + cause,
        }
    }
}

impl View for ModelError {
    type V = Failure;

    open spec fn view(&self) -> Failure {
        match self {
            ModelError::DirectoryRead(cause) => Failure::DirectoryRead(cause@),
            ModelError::SourceNotFound => Failure::SourceNotFound,
            ModelError::UnsupportedFileType => Failure::UnsupportedFileType,
            ModelError::DirectoryCreate(cause) => Failure::DirectoryCreate(cause@),
            ModelError::DuplicateModelName => Failure::DuplicateModelName,
            ModelError::Copy(cause) => Failure::Copy(cause@),
        }
    }
}

impl ModelError {
    /// The message shown to the user.
    pub fn message(&self) -> (text: String)
        ensures
            text@ == self@.message(),
    {
        match self {
            ModelError::DirectoryRead(cause) => {
                String::from_str("Failed to read models directory: ").concat(cause.as_str())
            },
            ModelError::SourceNotFound => String::from_str("Source file does not exist"),
            ModelError::UnsupportedFileType => String::from_str("Only .gguf files are supported"),
            ModelError::DirectoryCreate(cause) => {
                String::from_str("Failed to create models directory: ").concat(cause.as_str())
            },
            ModelError::DuplicateModelName => {
                String::from_str("A model with this name already exists in the models folder")
            },
            ModelError::Copy(cause) => {
                String::from_str("Failed to copy file: ").concat(cause.as_str())
            },
        }
    }
}

} // verus!
