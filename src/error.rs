use vstd::prelude::*;

verus! {

/// Why constructing one fragment's graph failed.
#[derive(Debug, PartialEq, Eq)]
pub enum BuildFailure {
    /// The fragment's source did not parse; one description per parse error.
    ParseErrors(Vec<String>),
    /// Any other construction failure, with its description.
    Other(String),
}

/// A fatal error that stops the processing of a test file.
#[derive(Debug, PartialEq, Eq)]
pub enum TestError {
    /// Merging the builtins found a file already in the graph.
    DuplicateBuiltin { name: String },
    /// A fragment's file extension differs from the test file's.
    ExtensionMismatch { fragment: String, test: String },
    /// A fragment's source did not parse.
    Parse { fragment: String, errors: Vec<String> },
    /// Constructing a fragment's graph failed otherwise.
    Construction { fragment: String, message: String },
    /// Reading the test, loading its language, parsing its fragments, running its
    /// assertions or writing an artifact failed.
    Other(String),
}

/// A fatal error of a run, with the test file it arose in.
#[derive(Debug, PartialEq, Eq)]
pub struct RunError {
    pub test: String,
    pub cause: TestError,
}

} // verus!
