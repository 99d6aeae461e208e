use vstd::prelude::*;

verus! {

/// Why an import failed.
#[derive(Debug, Clone, PartialEq, Eq)]
pub enum ImportError {
    /// A field is missing or malformed, a directive has nothing to act on,
    /// or a material is not in the library.
    InvalidData,
    /// The file at this path cannot be opened, or a library cannot be
    /// located from it.
    InvalidPath(String),
    /// A line starts with this word, which is no directive of the format.
    UnrecognisedToken(String),
}

/// What an `ImportError` says, with its texts as character sequences.
pub enum ImportErrorView {
    InvalidData,
    InvalidPath(Seq<char>),
    UnrecognisedToken(Seq<char>),
}

impl View for ImportError {
    type V = ImportErrorView;

    open spec fn view(&self) -> ImportErrorView {
        match self {
            ImportError::InvalidData => ImportErrorView::InvalidData,
            ImportError::InvalidPath(p) => ImportErrorView::InvalidPath(p@),
            ImportError::UnrecognisedToken(t) => ImportErrorView::UnrecognisedToken(t@),
        }
    }
}

} // verus!
