use vstd::prelude::*;

verus! {

/// Why a run stopped, or why a statistic is undefined.
#[derive(Debug, PartialEq, Eq)]
pub enum PipelineError {
    /// The row names of the two matrices differ in number or at some position.
    AlignmentMismatch,
    /// A field that should hold a number does not; carries the raw field.
    NonNumericField(String),
    /// A sample vector has fewer than two values.
    InsufficientSamples,
    /// A mean was asked of no values at all.
    EmptyInput,
    /// A row source or the row sink failed; carries its message.
    Io(String),
}

/// The mathematical value of a [`PipelineError`]: the same cases over character sequences.
pub enum ErrorView {
    AlignmentMismatch,
    NonNumericField(Seq<char>),
    InsufficientSamples,
    EmptyInput,
    Io(Seq<char>),
}

impl View for PipelineError {
    type V = ErrorView;

    open spec fn view(&self) -> ErrorView {
        match self {
            PipelineError::AlignmentMismatch => ErrorView::AlignmentMismatch,
            PipelineError::NonNumericField(raw) => ErrorView::NonNumericField(raw@),
            PipelineError::InsufficientSamples => ErrorView::InsufficientSamples,
            PipelineError::EmptyInput => ErrorView::EmptyInput,
            PipelineError::Io(detail) => ErrorView::Io(detail@),
        }
    }
}

/// The text shown to the user for an error.
pub open spec fn message_of(error: ErrorView) -> Seq<char> {
    match error {
        ErrorView::AlignmentMismatch => "row names of the case and control matrices do not match"@,
        ErrorView::NonNumericField(raw) => "non-numeric value in record: "@ + raw,
        ErrorView::InsufficientSamples => "a sample vector holds fewer than two values"@,
        ErrorView::EmptyInput => "a sample vector holds no values"@,
        ErrorView::Io(detail) => "input or output failed: "@ + detail,
    }
}

impl PipelineError {
    /// Renders the error for the user. A non-numeric field is named by its raw text.
    pub fn message(&self) -> (text: String)
        ensures
            text@ == message_of(self@),
    {
        match self {
            PipelineError::AlignmentMismatch => String::from_str(
                "row names of the case and control matrices do not match",
            ),
            PipelineError::NonNumericField(raw) => String::from_str(
                "non-numeric value in record: ",
            ).concat(raw.as_str()),
            PipelineError::InsufficientSamples => String::from_str(
                "a sample vector holds fewer than two values",
            ),
            PipelineError::EmptyInput => String::from_str("a sample vector holds no values"),
            PipelineError::Io(detail) => String::from_str("input or output failed: ").concat(
                detail.as_str(),
            ),
        }
    }
}

} // verus!
