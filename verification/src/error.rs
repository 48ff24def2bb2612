use vstd::prelude::*;

verus! {

/// The failures a test run can surface.
///
/// `Relaxed`-level divergences are only reported, never surfaced; everything
/// here aborts the `step` call that raised it.
#[derive(Debug, Clone, Copy, PartialEq, Eq, Structural)]
pub enum Error {
    /// The commander could not produce another command.
    CommandNotFound,
    /// A state retrieved from the test port could not be decoded.
    StateParseError,
    /// Strict-level divergence between the local and the observed return code.
    ReturnValueMismatch,
    /// Strict-level divergence between the local and the observed state.
    StateMismatch,
    /// The test port could not forward a command to the system under test.
    Transport,
}

} // verus!
