//! The header that precedes every firmware table: a signature, the table's
//! revision, its size and checksum.

use vstd::prelude::*;

use crate::efi_revision::EfiRevision;
use crate::layout::LayoutBuilder;

verus! {

/// The common table header. The firmware writes it at the start of the
/// system table, the boot-services table and the runtime-services table.
#[derive(Debug, Clone, Copy, PartialEq, Eq, Structural)]
pub struct EfiTableHeader {
    pub signature: u64,
    pub revision: EfiRevision,
    pub header_size: u32,
    pub crc32: u32,
    pub reserved: u32,
}

/// The table header spans 24 bytes.
pub const TABLE_HEADER_SIZE: usize = 24;

/// The C layout of `EfiTableHeader`: each field's byte offset in declaration
/// order, and the total size. The offsets are the values the specification
/// mandates: signature at 0, revision at 8, header size at 12, checksum at
/// 16, the reserved word at 20, 24 bytes in all.
pub fn table_header_layout() -> (r: (Vec<usize>, usize))
    ensures
        r.0@ =~= seq![0usize, 8, 12, 16, 20],
        r.1 == TABLE_HEADER_SIZE,
{
    let mut b = LayoutBuilder::new();
    let _ = b.field(8, 8);  // signature: u64
    let _ = b.field(4, 4);  // revision: u32
    let _ = b.field(4, 4);  // header_size: u32
    let _ = b.field(4, 4);  // crc32: u32
    let _ = b.field(4, 4);  // reserved: u32
    let size = b.finish();
    (b.offsets, size)
}

} // verus!
