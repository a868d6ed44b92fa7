//! Error type shared by the image analysis functions.
use vstd::prelude::*;
use vstd::string::*;

verus! {

/// Errors raised while analysing image data.
#[derive(Debug)]
pub enum ImgQualityError {
    /// The data could not be analysed (truncated, malformed or ambiguous).
    AnalysisError(String),
    /// A numeric value did not fit the target type.
    NumericError(String),
    /// The image could not be read or decoded.
    ImageReadError(String),
}

/// An analysis error carrying `msg`.
pub fn analysis_error(msg: &str) -> (e: ImgQualityError)
    ensures
        e matches ImgQualityError::AnalysisError(s) && s@ == msg@,
{
    ImgQualityError::AnalysisError(String::from_str(msg))
}

/// A numeric error carrying `msg`.
pub fn numeric_error(msg: &str) -> (e: ImgQualityError)
    ensures
        e matches ImgQualityError::NumericError(s) && s@ == msg@,
{
    ImgQualityError::NumericError(String::from_str(msg))
}

/// An analysis error carrying `msg` followed by `detail`.
pub fn analysis_error_with(msg: &str, detail: &str) -> (e: ImgQualityError)
    ensures
        e matches ImgQualityError::AnalysisError(s) && s@ == msg@ + detail@,
{
    ImgQualityError::AnalysisError(String::from_str(msg).concat(detail))
}

} // verus!
