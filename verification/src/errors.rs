use vstd::prelude::*;

verus! {

/// Every failure the relay core can report.
#[derive(Clone, Copy, Debug, PartialEq, Eq, Structural)]
pub enum RelayError {
    /// The configured high threshold does not exceed the low one.
    ThresholdsNotIncreasing,
    /// A configured threshold is negative.
    ThresholdsNegative,
    /// A configured template does not compile.
    InvalidTemplate,
    /// A message names an application that the lookup table lacks.
    UnknownApp,
    /// A template failed to render for one message.
    RenderFailed,
}

impl RelayError {
    /// A short human-readable description of the failure.
    pub fn message(&self) -> (r: &'static str)
        ensures
            self is ThresholdsNotIncreasing ==> r@ == "thresholds must satisfy low < high"@,
            self is ThresholdsNegative ==> r@ == "thresholds must not be negative"@,
            self is InvalidTemplate ==> r@ == "could not compile a configured template"@,
            self is UnknownApp ==> r@ == "could not find app from id"@,
            self is RenderFailed ==> r@ == "could not render a message"@,
    {
        match self {
            RelayError::ThresholdsNotIncreasing => "thresholds must satisfy low < high",
            RelayError::ThresholdsNegative => "thresholds must not be negative",
            RelayError::InvalidTemplate => "could not compile a configured template",
            RelayError::UnknownApp => "could not find app from id",
            RelayError::RenderFailed => "could not render a message",
        }
    }
}

} // verus!
