//! What can be wrong with an attribute or with the item it is attached to.

use vstd::prelude::*;
use vstd::string::*;

verus! {

/// A defect found while an attributed function is being transformed. Every
/// defect is found at transformation time; instrumented code cannot fail on
/// account of its instrumentation.
#[derive(Debug, PartialEq, Eq)]
pub enum HemeraError {
    /// An option was given under a key other than `name`, `level` or
    /// `threshold`. Carries the key.
    UnknownOption(String),
    /// An argument is not of the form `key = value`.
    ExpectedNameValuePair,
    /// The `level` option holds something other than `"debug"` or `"info"`.
    /// Carries the value.
    InvalidLevelValue(String),
    /// The threshold does not end in a known unit. Carries the threshold as
    /// it was read.
    InvalidThresholdGrammar(String),
    /// What stands before the threshold's unit is not a non-negative integer
    /// that fits 64 bits. Carries that fragment.
    InvalidThresholdValue(String),
    /// The attributed item is not a function definition. Carries the
    /// parser's complaint.
    UnsupportedItem(String),
}

/// The mathematical content of an [`HemeraError`].
pub enum HemeraErrorView {
    UnknownOption(Seq<char>),
    ExpectedNameValuePair,
    InvalidLevelValue(Seq<char>),
    InvalidThresholdGrammar(Seq<char>),
    InvalidThresholdValue(Seq<char>),
    UnsupportedItem(Seq<char>),
}

impl View for HemeraError {
    type V = HemeraErrorView;

    open spec fn view(&self) -> HemeraErrorView {
        match self {
            HemeraError::UnknownOption(key) => HemeraErrorView::UnknownOption(key@),
            HemeraError::ExpectedNameValuePair => HemeraErrorView::ExpectedNameValuePair,
            HemeraError::InvalidLevelValue(value) => HemeraErrorView::InvalidLevelValue(value@),
            HemeraError::InvalidThresholdGrammar(raw) => HemeraErrorView::InvalidThresholdGrammar(raw@),
            HemeraError::InvalidThresholdValue(fragment) => HemeraErrorView::InvalidThresholdValue(fragment@),
            HemeraError::UnsupportedItem(complaint) => HemeraErrorView::UnsupportedItem(complaint@),
        }
    }
}

/// A result with the error replaced by its mathematical content.
pub open spec fn error_view<T>(r: Result<T, HemeraError>) -> Result<T, HemeraErrorView> {
    match r {
        Ok(value) => Ok(value),
        Err(error) => Err(error@),
    }
}

impl HemeraErrorView {
    /// The sentence that reports this defect to the user.
    pub open spec fn message(self) -> Seq<char> {
        match self {
            HemeraErrorView::UnknownOption(key) => "Unknown attribute: "@ + key,
            HemeraErrorView::ExpectedNameValuePair => "Expected name-value pair"@,
            HemeraErrorView::InvalidLevelValue(_) => "level must be either \"debug\" or \"info\""@,
            HemeraErrorView::InvalidThresholdGrammar(_) =>
                "Threshold must end with 'ms', 'us', 'ns', or 's'"@,
            HemeraErrorView::InvalidThresholdValue(fragment) => "Invalid threshold value: "@ + fragment,
            HemeraErrorView::UnsupportedItem(complaint) => complaint,
        }
    }
}

impl HemeraError {
    /// Renders the sentence that reports this defect to the user.
    pub fn message(&self) -> (text: String)
        ensures
            text@ == self@.message(),
    {
        match self {
            HemeraError::UnknownOption(key) => {
                String::from_str("Unknown attribute: ").concat(key.as_str())
            },
            HemeraError::ExpectedNameValuePair => String::from_str("Expected name-value pair"),
            HemeraError::InvalidLevelValue(_) => {
                String::from_str("level must be either \"debug\" or \"info\"")
            },
            HemeraError::InvalidThresholdGrammar(_) => {
                String::from_str("Threshold must end with 'ms', 'us', 'ns', or 's'")
            },
            HemeraError::InvalidThresholdValue(fragment) => {
                String::from_str("Invalid threshold value: ").concat(fragment.as_str())
            },
            HemeraError::UnsupportedItem(complaint) => complaint.clone(),
        }
    }
}

} // verus!
