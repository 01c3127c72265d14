//! The GUIDs that name the standard event groups an event can be created in.

use vstd::prelude::*;

use crate::data_type::EfiGuid;

verus! {

/// Names the group signaled when exit-boot-services is called.
pub fn exit_boot_services() -> (g: EfiGuid)
    ensures
        g.0 == 0x27abf055,
        g.1 == 0xb1b8,
        g.2 == 0x4c26,
        g.3 == [0x80u8, 0x48, 0x74, 0x8f, 0x37, 0xba, 0xa2, 0xdf],
{
    EfiGuid(0x27abf055, 0xb1b8, 0x4c26, [0x80, 0x48, 0x74, 0x8f, 0x37, 0xba, 0xa2, 0xdf])
}

/// Names the group signaled right before the exit-boot-services group.
pub fn before_exit_boot_services() -> (g: EfiGuid)
    ensures
        g.0 == 0x8be0e274,
        g.1 == 0x3970,
        g.2 == 0x4b44,
        g.3 == [0x80u8, 0xc5, 0x1a, 0xb9, 0x50, 0x2f, 0x3b, 0xfc],
{
    EfiGuid(0x8be0e274, 0x3970, 0x4b44, [0x80, 0xc5, 0x1a, 0xb9, 0x50, 0x2f, 0x3b, 0xfc])
}

/// Names the group signaled when set-virtual-address-map is called.
pub fn virtual_address_change() -> (g: EfiGuid)
    ensures
        g.0 == 0x13fa7698,
        g.1 == 0xc831,
        g.2 == 0x49c7,
        g.3 == [0x87u8, 0xea, 0x8f, 0x43, 0xfc, 0xc2, 0x51, 0x96],
{
    EfiGuid(0x13fa7698, 0xc831, 0x49c7, [0x87, 0xea, 0x8f, 0x43, 0xfc, 0xc2, 0x51, 0x96])
}

/// Names the group signaled when the memory map changes.
pub fn memory_map_change() -> (g: EfiGuid)
    ensures
        g.0 == 0x78bee926,
        g.1 == 0x692f,
        g.2 == 0x48fd,
        g.3 == [0x9eu8, 0xdb, 0x01, 0x42, 0x2e, 0xf0, 0xd7, 0xab],
{
    EfiGuid(0x78bee926, 0x692f, 0x48fd, [0x9e, 0xdb, 0x01, 0x42, 0x2e, 0xf0, 0xd7, 0xab])
}

/// Names the group signaled right before the boot manager loads an option.
pub fn ready_to_boot() -> (g: EfiGuid)
    ensures
        g.0 == 0x7ce88fb3,
        g.1 == 0x4bd7,
        g.2 == 0x4679,
        g.3 == [0x87u8, 0xa8, 0xa8, 0xd8, 0xde, 0xe5, 0x0d, 0x2b],
{
    EfiGuid(0x7ce88fb3, 0x4bd7, 0x4679, [0x87, 0xa8, 0xa8, 0xd8, 0xde, 0xe5, 0x0d, 0x2b])
}

/// Names the group signaled right after the ready-to-boot group.
pub fn after_ready_to_boot() -> (g: EfiGuid)
    ensures
        g.0 == 0x3a2a00ad,
        g.1 == 0x98b9,
        g.2 == 0x4cdf,
        g.3 == [0xa4u8, 0x78, 0x70, 0x27, 0x77, 0xf1, 0xc1, 0x0b],
{
    EfiGuid(0x3a2a00ad, 0x98b9, 0x4cdf, [0xa4, 0x78, 0x70, 0x27, 0x77, 0xf1, 0xc1, 0x0b])
}

/// Names the group signaled when the system is about to reset.
pub fn reset_system() -> (g: EfiGuid)
    ensures
        g.0 == 0x62da6a56,
        g.1 == 0x13fb,
        g.2 == 0x485a,
        g.3 == [0xa8u8, 0xda, 0xa3, 0xdd, 0x79, 0x12, 0xcb, 0x6b],
{
    EfiGuid(0x62da6a56, 0x13fb, 0x485a, [0xa8, 0xda, 0xa3, 0xdd, 0x79, 0x12, 0xcb, 0x6b])
}

} // verus!
