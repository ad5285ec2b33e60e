//! Why a manifest document is rejected.

use vstd::prelude::*;

verus! {

/// The kinds of failure of a manifest compilation. Every one of them means
/// that the manifest is invalid; the variant says why.
#[derive(Debug, Clone, PartialEq, Eq)]
pub enum ManifestError {
    /// The input is not a well-formed configuration document.
    Syntax,
    /// The required `project` section is absent.
    MissingSection,
    /// A present section does not have the expected shape.
    SchemaMismatch,
    /// The `dependencies` key exists but is not a table.
    InvalidDependenciesSection,
    /// A detailed dependency entry holds a value that is not a string.
    InvalidDependencySpec,
    /// A detailed dependency entry has no `version`.
    MissingVersion,
    /// The requirement string of the named dependency does not parse.
    InvalidVersionRequirement(String),
}

/// The mathematical value of an error.
pub enum ErrorView {
    Syntax,
    MissingSection,
    SchemaMismatch,
    InvalidDependenciesSection,
    InvalidDependencySpec,
    MissingVersion,
    InvalidVersionRequirement(Seq<char>),
}

impl View for ManifestError {
    type V = ErrorView;

    open spec fn view(&self) -> ErrorView {
        match self {
            ManifestError::Syntax => ErrorView::Syntax,
            ManifestError::MissingSection => ErrorView::MissingSection,
            ManifestError::SchemaMismatch => ErrorView::SchemaMismatch,
            ManifestError::InvalidDependenciesSection => ErrorView::InvalidDependenciesSection,
            ManifestError::InvalidDependencySpec => ErrorView::InvalidDependencySpec,
            ManifestError::MissingVersion => ErrorView::MissingVersion,
            ManifestError::InvalidVersionRequirement(n) => ErrorView::InvalidVersionRequirement(n@),
        }
    }
}

} // verus!
