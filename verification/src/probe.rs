use vstd::prelude::*;

verus! {

/// How many times the window probes the server's port before it goes on
/// without it.
pub const PORT_PROBE_ATTEMPTS: u32 = 30;

/// What to do after a probe of the server's port.
#[derive(PartialEq, Eq, Structural, Clone, Copy)]
pub enum ProbeStep {
    /// The server answers: go on.
    Ready,
    /// Wait a moment and probe again.
    Retry,
    /// Wait a moment and go on without the server.
    GiveUp,
}

/// The step after probe number `attempt` (counting from 1) found the port
/// open (`connected`) or not.
pub fn after_probe(attempt: u32, connected: bool) -> (step: ProbeStep)
    ensures
        step == (if connected {
            ProbeStep::Ready
        } else if attempt < PORT_PROBE_ATTEMPTS {
            ProbeStep::Retry
        } else {
            ProbeStep::GiveUp
        }),
{
    if connected {
        ProbeStep::Ready
    } else if attempt < PORT_PROBE_ATTEMPTS {
        ProbeStep::Retry
    } else {
        ProbeStep::GiveUp
    }
}

} // verus!
