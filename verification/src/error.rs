use vstd::prelude::*;

verus! {

/// The two failure classes the tool distinguishes: errors surfaced by the
/// broker client, and application-level errors (configuration mistakes,
/// per-line parse failures). Each carries a rendered description; the
/// surrounding binary turns broker-client errors into `Pulsar` values.
#[derive(Debug, Clone, PartialEq, Eq)]
pub enum PulsarCatError {
    Pulsar(String),
    Application(String),
}

impl PulsarCatError {
    /// The rendered description, without the class prefix.
    pub fn message(&self) -> (r: &String)
        ensures
            match self {
                PulsarCatError::Pulsar(m) => r == m,
                PulsarCatError::Application(m) => r == m,
            },
    {
        match self {
            PulsarCatError::Pulsar(m) => m,
            PulsarCatError::Application(m) => m,
        }
    }

    /// True for application-level errors.
    pub fn is_application(&self) -> (r: bool)
        ensures
            r == (self matches PulsarCatError::Application(_)),
    {
        match self {
            PulsarCatError::Pulsar(_) => false,
            PulsarCatError::Application(_) => true,
        }
    }
}

} // verus!
