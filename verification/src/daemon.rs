//! How the daemon reacts when its provider fails.
use crate::config::ProviderKind;
use crate::duration::Duration;
use vstd::prelude::*;

verus! {

/// What the daemon does after its provider failed.
#[derive(Debug, Clone, Copy, PartialEq, Eq)]
pub enum Recovery {
    /// Wait, then connect the provider again.
    ReconnectAfter(Duration),
    /// Clear the presence, shut the publisher down and exit: the browser
    /// starts a new daemon when it needs one.
    ClearAndStop,
}

/// The recovery for a failure of the given provider: the system provider is
/// reconnected after one second; the browser provider's channel is never
/// reopened.
pub fn recovery_after_failure(kind: ProviderKind) -> (r: Recovery)
    ensures
        kind == ProviderKind::System ==> (r matches Recovery::ReconnectAfter(d) && d@ == 1_000_000_000),
        kind == ProviderKind::Browser ==> r == Recovery::ClearAndStop,
{
    match kind {
        ProviderKind::System => Recovery::ReconnectAfter(Duration::from_secs(1)),
        ProviderKind::Browser => Recovery::ClearAndStop,
    }
}

} // verus!
