use vstd::prelude::*;

verus! {

/// Why an operation did not complete.
#[derive(Clone, Debug, PartialEq, Eq)]
pub enum BrewError {
    /// The program ended with a status other than zero; `code` is `None`
    /// when it ended without one.
    CommandFailure { program: String, code: Option<i32> },
    /// Captured bytes were not valid UTF-8.
    TextDecodeFailure,
    /// An optional part of the backend that the operation needs is absent.
    RequiredOptionalComponentMissing,
    /// A keyword is not a pattern that can be compiled.
    InvalidFilterPattern { pattern: String },
}

/// What a [`BrewError`] stands for in contracts.
pub enum BrewErrorView {
    CommandFailure { program: Seq<char>, code: Option<i32> },
    TextDecodeFailure,
    RequiredOptionalComponentMissing,
    InvalidFilterPattern { pattern: Seq<char> },
}

impl View for BrewError {
    type V = BrewErrorView;

    open spec fn view(&self) -> BrewErrorView {
        match *self {
            BrewError::CommandFailure { program, code } => BrewErrorView::CommandFailure {
                program: program@,
                code,
            },
            BrewError::TextDecodeFailure => BrewErrorView::TextDecodeFailure,
            BrewError::RequiredOptionalComponentMissing => BrewErrorView::RequiredOptionalComponentMissing,
            BrewError::InvalidFilterPattern { pattern } => BrewErrorView::InvalidFilterPattern {
                pattern: pattern@,
            },
        }
    }
}

/// The view of a result whose error is a [`BrewError`].
pub open spec fn result_view(result: Result<(), BrewError>) -> Result<(), BrewErrorView> {
    match result {
        Ok(()) => Ok(()),
        Err(e) => Err(e@),
    }
}

} // verus!
