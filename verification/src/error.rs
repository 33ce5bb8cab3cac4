//! Why a render gives no markup.

use vstd::prelude::*;

verus! {

/// Why a render gave no markup.
#[derive(Clone, Debug, PartialEq, Eq)]
pub enum RenderError {
    /// The source text is not a valid script.
    Compile,
    /// The script threw while it ran; the field is the thrown value as text.
    Runtime(String),
    /// `setHtml` was called with no argument, or with a first argument that
    /// is not a string.
    CallbackArityOrType,
    /// The script ran to its end and never called `setHtml`.
    MissingResult,
}

/// A `RenderError` as contracts see it.
pub enum Failure {
    Compile,
    Runtime(Seq<char>),
    CallbackArityOrType,
    MissingResult,
}

impl View for RenderError {
    type V = Failure;

    open spec fn view(&self) -> Failure {
        match self {
            RenderError::Compile => Failure::Compile,
            RenderError::Runtime(thrown) => Failure::Runtime(thrown@),
            RenderError::CallbackArityOrType => Failure::CallbackArityOrType,
            RenderError::MissingResult => Failure::MissingResult,
        }
    }
}

/// What a render returned, as contracts see it.
pub open spec fn result_view(result: Result<String, RenderError>) -> Result<Seq<char>, Failure> {
    match result {
        Ok(html) => Ok(html@),
        Err(error) => Err(error@),
    }
}

} // verus!
