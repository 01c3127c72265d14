//! Types of the firmware's protocol handler services: interface kinds,
//! handle searches, open-protocol attributes, and the record the
//! open-protocol-information service returns.

use vstd::prelude::*;

use crate::data_type::EfiHandle;
use crate::layout::LayoutBuilder;

verus! {

/// The kind of interface installed with a protocol. Only the native kind is
/// defined; the firmware reads it as the 32-bit value zero.
#[derive(Debug, Clone, Copy, PartialEq, Eq, Structural)]
pub enum EfiInterfaceType {
    EfiNativeInterface,
}

impl EfiInterfaceType {
    /// The 32-bit value the firmware interface assigns to this variant.
    pub fn number(&self) -> (r: u32)
        ensures
            r == 0,
    {
        0
    }
}

/// How the locate-handle service searches. The firmware reads the variants
/// as consecutive 32-bit values starting at zero, in the order declared
/// here.
#[derive(Debug, Clone, Copy, PartialEq, Eq, Structural)]
pub enum EfiLocateSearchType {
    AllHandles,
    ByRegisterNotify,
    ByProtocol,
}

impl EfiLocateSearchType {
    /// The 32-bit value the firmware interface assigns to this variant.
    pub fn number(&self) -> (r: u32)
        ensures
            r == match *self {
                EfiLocateSearchType::AllHandles => 0u32,
                EfiLocateSearchType::ByRegisterNotify => 1u32,
                EfiLocateSearchType::ByProtocol => 2u32,
            },
    {
        match *self {
            EfiLocateSearchType::AllHandles => 0,
            EfiLocateSearchType::ByRegisterNotify => 1,
            EfiLocateSearchType::ByProtocol => 2,
        }
    }
}

/// The bit flags of an open-protocol request. The documented flag values
/// are the associated constants below.
#[derive(Debug, Clone, Copy, PartialEq, Eq, Structural)]
pub struct EfiOpenProtocolAttributes(pub u32);

impl EfiOpenProtocolAttributes {
    /// Open as the handle-protocol service does.
    pub const BY_HANDLE_PROTOCOL: u32 = 0x00000001;
    /// Open to read the interface without registering the opener.
    pub const GET_PROTOCOL: u32 = 0x00000002;
    /// Open only to test that the protocol exists on the handle.
    pub const TEST_PROTOCOL: u32 = 0x00000004;
    /// Open on behalf of a child controller of a bus.
    pub const BY_CHILD_CONTROLLER: u32 = 0x00000008;
    /// Open for a driver that wants to be told of reinstalls and removals.
    pub const BY_DRIVER: u32 = 0x00000010;
    /// Open for exclusive access, removing other drivers if needed.
    pub const EXCLUSIVE: u32 = 0x00000020;
    /// Open for a driver that wants exclusive access.
    pub const BY_DRIVER_OR_EXCLUSIVE: u32 = 0x00000030;

    /// The union of two attribute sets.
    pub fn bitor(self, rhs: EfiOpenProtocolAttributes) -> (r: EfiOpenProtocolAttributes)
        ensures
            r.0 == self.0 | rhs.0,
    {
        EfiOpenProtocolAttributes(self.0 | rhs.0)
    }
}

/// The combined driver-or-exclusive attribute is the union of its two parts.
pub proof fn lemma_by_driver_or_exclusive()
    ensures
        EfiOpenProtocolAttributes::BY_DRIVER_OR_EXCLUSIVE == EfiOpenProtocolAttributes::BY_DRIVER
            | EfiOpenProtocolAttributes::EXCLUSIVE,
{
    assert(0x10u32 | 0x20u32 == 0x30u32) by (bit_vector);
}

/// One record of who holds a protocol open on a handle.
#[derive(Debug, Clone, Copy, PartialEq, Eq, Structural)]
pub struct EfiOpenProtocolInformationEntry {
    pub agent_handle: EfiHandle,
    pub controller_handle: EfiHandle,
    pub attributes: EfiOpenProtocolAttributes,
    pub open_count: u32,
}

/// The C layout of `EfiOpenProtocolInformationEntry`: each field's byte
/// offset in declaration order, and the total size. The two handles are
/// followed by two 32-bit words, so the record spans 24 bytes.
pub fn open_protocol_information_entry_layout() -> (r: (Vec<usize>, usize))
    ensures
        r.0@ =~= seq![0usize, 8, 16, 20],
        r.1 == 24,
{
    let mut b = LayoutBuilder::new();
    let _ = b.field(8, 8);  // agent_handle: EfiHandle
    let _ = b.field(8, 8);  // controller_handle: EfiHandle
    let _ = b.field(4, 4);  // attributes: u32
    let _ = b.field(4, 4);  // open_count: u32
    let size = b.finish();
    (b.offsets, size)
}

} // verus!
