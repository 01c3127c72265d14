//! Event types for the firmware's event and timer services.

use vstd::prelude::*;

verus! {

/// The bit flags that classify an event when it is created. The documented
/// flag values are the associated constants below.
#[derive(Debug, Clone, Copy, PartialEq, Eq, Structural)]
pub struct EfiEventType(pub u32);

impl EfiEventType {
    /// The event is a timer and may be passed to the set-timer service.
    pub const TIMER: u32 = 0x80000000;
    /// The event is allocated from runtime memory.
    pub const RUNTIME: u32 = 0x40000000;
    /// The event's notify function is queued when the event is waited on.
    pub const NOTIFY_WAIT: u32 = 0x00000100;
    /// The event is of the exit-boot-services group.
    pub const SIGNAL_EXIT_BOOT_SERVICES: u32 = 0x00000201;
    /// The event is of the set-virtual-address-map group.
    pub const SIGNAL_VIRTUAL_ADDRESS_CHANGE: u32 = 0x60000202;
    /// The event's notify function is queued when the event is signaled.
    pub const NOTIFY_SIGNAL: u32 = 0x00000200;

    /// The union of two flag sets.
    pub fn bitor(self, rhs: EfiEventType) -> (r: EfiEventType)
        ensures
            r.0 == self.0 | rhs.0,
    {
        EfiEventType(self.0 | rhs.0)
    }
}

impl From<u32> for EfiEventType {
    fn from(value: u32) -> (r: EfiEventType) {
        EfiEventType(value)
    }
}

impl vstd::std_specs::convert::FromSpecImpl<u32> for EfiEventType {
    open spec fn obeys_from_spec() -> bool {
        true
    }

    open spec fn from_spec(value: u32) -> EfiEventType {
        EfiEventType(value)
    }
}

} // verus!
