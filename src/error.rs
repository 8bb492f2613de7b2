//! The ways an invocation can fail.
use vstd::prelude::*;

verus! {

/// Every failure kind; none is recovered from, each ends the invocation.
#[derive(Clone, Copy, Debug, PartialEq, Eq, Structural)]
pub enum WeatherError {
    /// No API key was configured.
    Config,
    /// The weather service could not be reached.
    Transport,
    /// A response body did not have the expected shape.
    Deserialization,
    /// A timestamp did not have the `YYYY-MM-DD HH:MM:SS` form.
    Parse,
    /// A forecast series held fewer entries than the table shows.
    InsufficientData,
}

} // verus!
