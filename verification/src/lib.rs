//! Type and layout definitions mirroring the UEFI firmware interface, with a
//! verified model of the one runtime flow a minimal bootloader performs:
//! locating the Graphics Output Protocol and filling the frame buffer with a
//! solid color.
//!
//! The firmware itself is an external, uncontrolled runtime: it owns every
//! table this crate describes, and all calls into it happen at the program's
//! edge. What this crate verifies is the passive content those calls rely on:
//! that each table's declared field offsets equal the values the UEFI
//! specification mandates, that status codes and protocol GUIDs carry their
//! documented values, and that the decision and fill logic of the bootloader
//! is exact for every possible firmware reply.

use vstd::prelude::*;

pub mod boot;
pub mod data_type;
pub mod device_path;
pub mod efi_boot_services;
pub mod efi_revision;
pub mod efi_system_table;
pub mod efi_table_header;
pub mod event;
pub mod event_group;
pub mod layout;
pub mod memory_allocation;
pub mod protocol;
pub mod protocol_handler;
pub mod timer;
pub mod u16str;

pub use data_type::{EfiEvent, EfiGuid, EfiHandle, EfiStatus, EfiTpl, EfiVoid};
pub use efi_boot_services::EfiBootServices;
pub use efi_revision::EfiRevision;
pub use efi_table_header::EfiTableHeader;
pub use u16str::{CodeUnits, U16Str};

verus! {

/// Result type used by the bootloader paths: a descriptive text on failure.
pub type EfiResult<T> = Result<T, &'static str>;

} // verus!
