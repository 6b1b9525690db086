use vstd::prelude::*;

verus! {

/// Which signal asked the server to stop.
#[derive(Clone, Copy, Debug, PartialEq, Eq, Structural)]
pub enum SigType {
    /// An interrupt (SIGINT on unix).
    Interrupt,
    /// A request to terminate (SIGTERM on unix).
    Terminate,
}

} // verus!
