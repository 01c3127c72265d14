//! A calculator for C structure layout. The firmware's tables are fixed
//! sequences of fields at spec-mandated byte offsets; each table module
//! declares its fields in order, and the calculator yields every field's
//! offset and the structure's total size under the usual C rules: each field
//! starts at its alignment, and the structure's size is rounded up to the
//! largest field alignment.

use vstd::prelude::*;

verus! {

/// `off` rounded up to the next multiple of `align`.
pub open spec fn spec_align_up(off: int, align: int) -> int
    recommends
        align >= 1,
{
    if off % align == 0 {
        off
    } else {
        off + (align - off % align)
    }
}

/// Rounds an offset up to the next multiple of the alignment.
pub fn align_up(off: usize, align: usize) -> (r: usize)
    requires
        align >= 1,
        off + align <= usize::MAX,
    ensures
        r == spec_align_up(off as int, align as int),
        off <= r,
{
    let rem = off % align;
    if rem == 0 {
        off
    } else {
        off + (align - rem)
    }
}

/// Lays a structure out field by field: `end` is the first byte after the
/// fields placed so far, `align` the largest field alignment seen, and
/// `offsets` the offset of each placed field in declaration order.
pub struct LayoutBuilder {
    pub end: usize,
    pub align: usize,
    pub offsets: Vec<usize>,
}

impl LayoutBuilder {
    /// An empty layout: no fields, no size, byte alignment.
    pub fn new() -> (r: LayoutBuilder)
        ensures
            r.end == 0,
            r.align == 1,
            r.offsets@ =~= Seq::<usize>::empty(),
    {
        LayoutBuilder { end: 0, align: 1, offsets: Vec::new() }
    }

    /// Places the next field: it starts at the current end rounded up to the
    /// field's alignment, and its offset is recorded.
    pub fn field(&mut self, size: usize, align: usize) -> (off: usize)
        requires
            align >= 1,
            old(self).end + align + size <= usize::MAX,
        ensures
            off == spec_align_up(old(self).end as int, align as int),
            final(self).end == off + size,
            final(self).align == if align > old(self).align {
                align
            } else {
                old(self).align
            },
            final(self).offsets@ =~= old(self).offsets@.push(off),
    {
        let off = align_up(self.end, align);
        self.end = off + size;
        if align > self.align {
            self.align = align;
        }
        self.offsets.push(off);
        off
    }

    /// The structure's total size: the end of its last field rounded up to
    /// the structure's alignment.
    pub fn finish(&self) -> (size: usize)
        requires
            self.align >= 1,
            self.end + self.align <= usize::MAX,
        ensures
            size == spec_align_up(self.end as int, self.align as int),
    {
        align_up(self.end, self.align)
    }
}

} // verus!
