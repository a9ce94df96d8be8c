use vstd::prelude::*;

verus! {

/// The ways in which processing a document, or a run over many, can fail.
#[derive(Clone, Copy, Debug, PartialEq, Eq, Structural)]
pub enum PipelineError {
    /// The input file is not of a supported document type.
    NotASupportedDocument,
    /// No output subdirectory name can be derived from the input path.
    MissingDocumentStem,
    /// The rendering engine could not render a page.
    RenderFailure,
    /// Encoding or writing an image file failed.
    EncodeOrWriteFailure,
    /// A directory of documents could not be listed.
    DirectoryEnumerationFailure,
    /// The input path is neither a file nor a directory.
    InvalidInputPath,
}

} // verus!
