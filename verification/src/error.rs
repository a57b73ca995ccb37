use vstd::prelude::*;
use crate::duration::Duration;

verus! {

/// Everything that can go wrong during one invocation of the carousel.
#[derive(Clone, Copy, Debug, PartialEq, Eq, Structural)]
pub enum CarouselError {
    /// No per-user data directory could be resolved.
    InvalidRun,
    /// The compositor's IPC endpoint failed or answered with the wrong kind
    /// of response.
    IpcProblems,
    /// A requested double-press window lies outside the accepted range; the
    /// rejected value is carried for reporting.
    IncorrectMaxDuration { max_duration: Duration },
}

} // verus!
