//! The errors that end a run.
use vstd::prelude::*;

verus! {

/// A query of the build graph did not give a description of a derivation.
#[derive(Debug, Clone, Copy, PartialEq, Eq, Structural)]
pub enum QueryError {
    /// The query could not be run, or it ended in failure.
    Fetch,
    /// The query gave no output at all.
    Empty,
    /// The output of the query is not a JSON document.
    Syntax,
    /// The JSON document does not describe derivations.
    Shape,
}

/// The package catalog could not be loaded.
#[derive(Debug, Clone, Copy, PartialEq, Eq, Structural)]
pub enum CatalogLoadError {
    /// The catalog could not be fetched or read.
    Fetch,
    /// The catalog is not a JSON document.
    Syntax,
    /// The JSON document does not describe packages.
    Shape,
}

/// A derivation of the closure has no `name` in its environment.
#[derive(Debug, Clone, Copy, PartialEq, Eq, Structural)]
pub struct StructuralAssumptionError {
    /// The place of the first such derivation in the closure.
    pub index: usize,
}

impl QueryError {
    /// What went wrong, in words.
    pub fn message(&self) -> (message: String)
        ensures
            message@ == match self {
                QueryError::Fetch => "the query failed"@,
                QueryError::Empty => "the query gave no output"@,
                QueryError::Syntax => "the output of the query is not JSON"@,
                QueryError::Shape => "the output of the query does not describe derivations"@,
            },
    {
        match self {
            QueryError::Fetch => "the query failed".to_owned(),
            QueryError::Empty => "the query gave no output".to_owned(),
            QueryError::Syntax => "the output of the query is not JSON".to_owned(),
            QueryError::Shape => "the output of the query does not describe derivations".to_owned(),
        }
    }
}

impl CatalogLoadError {
    /// What went wrong, in words.
    pub fn message(&self) -> (message: String)
        ensures
            message@ == match self {
                CatalogLoadError::Fetch => "the package catalog could not be fetched"@,
                CatalogLoadError::Syntax => "the package catalog is not JSON"@,
                CatalogLoadError::Shape => "the package catalog does not describe packages"@,
            },
    {
        match self {
            CatalogLoadError::Fetch => "the package catalog could not be fetched".to_owned(),
            CatalogLoadError::Syntax => "the package catalog is not JSON".to_owned(),
            CatalogLoadError::Shape => "the package catalog does not describe packages".to_owned(),
        }
    }
}

impl StructuralAssumptionError {
    /// What went wrong, in words.
    pub fn message(&self) -> (message: String)
        ensures
            message@ == "a derivation of the closure has no name in its environment"@,
    {
        "a derivation of the closure has no name in its environment".to_owned()
    }
}

} // verus!
