use vstd::prelude::*;

verus! {

/// The closed set of failures the checker can report.
///
/// Propagation policy: `ConfigError` is fatal at load time, no check is
/// attempted. `TemplateError` aborts URL building for the whole check.
/// `TransportError` describes a single site's probe failure; under the
/// isolated-error design the checker turns it into that site's verdict
/// instead of aborting the whole check.
#[derive(Clone, Copy, Debug, PartialEq, Eq)]
pub enum CrabtiveError {
    ConfigError,
    TemplateError,
    TransportError,
}

impl CrabtiveError {
    /// A short human-readable description of the error.
    pub fn describe(&self) -> (r: &'static str)
        ensures
            *self is ConfigError ==> r@ == "configuration is missing, malformed, or fails schema validation"@,
            *self is TemplateError ==> r@ == "site URL template is empty"@,
            *self is TransportError ==> r@ == "network failure while probing the site"@,
    {
        match self {
            CrabtiveError::ConfigError => "configuration is missing, malformed, or fails schema validation",
            CrabtiveError::TemplateError => "site URL template is empty",
            CrabtiveError::TransportError => "network failure while probing the site",
        }
    }
}

} // verus!
