//! The capability a dispatch participant must expose to this core.
//!
//! Targets are owned by the external target tree; the event only holds
//! handles into it. A handle is plain data, so two references to the same
//! participant compare equal exactly when their handles are equal: that is
//! the genuine identity comparison the composed-path walk relies on.
use vstd::prelude::*;

verus! {

/// Identity of a dispatch participant in the externally owned target tree.
#[derive(Clone, Copy, PartialEq, Eq, Structural, Debug)]
pub struct TargetHandle(pub u64);

/// Opaque reference to a listener callback registered with a target.
#[derive(Clone, Copy, PartialEq, Eq, Structural, Debug)]
pub struct ListenerHandle(pub u64);

/// What a participant of a dispatch must offer: identity comparison, and
/// listener registration by event type and callback reference. Registration
/// and removal are outside this core's responsibility; the core consumes
/// only the identity.
pub trait EventTarget {
    /// The participant's identity in the target tree.
    spec fn id(&self) -> TargetHandle;

    /// Hands out the identity; two participants are the same exactly when
    /// their handles are equal.
    fn handle(&self) -> (h: TargetHandle)
        ensures
            h == self.id(),
    ;

    fn add_event_listener(&self, typ: &str, callback: ListenerHandle);

    fn remove_event_listener(&self, typ: &str, callback: ListenerHandle);
}

} // verus!
