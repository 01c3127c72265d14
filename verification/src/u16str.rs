//! NUL-terminated strings of 16-bit code units, as the firmware interface
//! passes them. The buffer is modeled by its code units; iteration yields the
//! units before the first NUL, exactly as a reader of the raw buffer would.

use vstd::prelude::*;
use vstd::assert_by_contradiction;

verus! {

/// The code units of a buffer up to (and not including) its first NUL unit.
pub open spec fn code_unit_prefix(s: Seq<u16>) -> Seq<u16>
    decreases s.len(),
{
    if s.len() == 0 || s[0] == 0 {
        Seq::empty()
    } else {
        seq![s[0]] + code_unit_prefix(s.drop_first())
    }
}

/// `code_unit_prefix(s)` is the longest prefix of `s` without a NUL: its
/// units are the leading non-NUL units of `s`, and it ends at the buffer's
/// end or right before a NUL.
pub proof fn lemma_code_unit_prefix(s: Seq<u16>)
    ensures
        code_unit_prefix(s).len() <= s.len(),
        forall|i: int|
            0 <= i < code_unit_prefix(s).len() ==> code_unit_prefix(s)[i] == s[i] && s[i] != 0,
        code_unit_prefix(s).len() < s.len() ==> s[code_unit_prefix(s).len() as int] == 0,
    decreases s.len(),
{
    if s.len() == 0 || s[0] == 0 {
    } else {
        lemma_code_unit_prefix(s.drop_first());
        assert forall|i: int| 0 <= i < code_unit_prefix(s).len() implies code_unit_prefix(s)[i]
            == s[i] && s[i] != 0 by {
            if i > 0 {
                assert(code_unit_prefix(s)[i] == code_unit_prefix(s.drop_first())[i - 1]);
                assert(s.drop_first()[i - 1] == s[i]);
            }
        }
    }
}

/// A NUL-terminated buffer of 16-bit code units. The firmware hands such a
/// buffer out as a raw pointer; here it is held by its contents. Its logical
/// text is the run of units before the first NUL.
#[derive(Debug, PartialEq, Eq)]
pub struct U16Str {
    pub units: Vec<u16>,
}

impl U16Str {
    /// Wraps a buffer of code units.
    pub fn from_units(units: Vec<u16>) -> (r: U16Str)
        ensures
            r.units@ == units@,
    {
        U16Str { units }
    }

    /// An iterator over the code units before the first NUL.
    pub fn code_units(&self) -> (it: CodeUnits<'_>)
        ensures
            it.units@ == self.units@,
            it.pos == 0,
    {
        CodeUnits { units: &self.units, pos: 0 }
    }

    /// The logical text of the buffer: its code units before the first NUL,
    /// collected front to back.
    pub fn text_units(&self) -> (r: Vec<u16>)
        ensures
            r@ == code_unit_prefix(self.units@),
    {
        let mut r: Vec<u16> = Vec::new();
        let mut i: usize = 0;
        while i < self.units.len() && *self.units.get(i).unwrap() != 0
            invariant
                i <= self.units@.len(),
                r@ =~= self.units@.take(i as int),
                forall|j: int| 0 <= j < i ==> self.units@[j] != 0,
            decreases self.units@.len() - i,
        {
            r.push(self.units[i]);
            proof {
                assert(r@ =~= self.units@.take(i + 1));
            }
            i = i + 1;
        }
        proof {
            lemma_code_unit_prefix(self.units@);
            let p = code_unit_prefix(self.units@);
            assert_by_contradiction!(p.len() >= i, {
                // A shorter prefix would end on a NUL inside the scanned run.
                assert(self.units@[p.len() as int] != 0);
            });
            assert_by_contradiction!(p.len() <= i, {
                // A longer prefix would step over the NUL or the buffer end.
                assert(p[i as int] == self.units@[i as int] && self.units@[i as int] != 0);
            });
            assert(r@ =~= p);
        }
        r
    }
}

/// Walks a code-unit buffer from the front and stops at the first NUL unit
/// or at the buffer's end, never advancing past either.
pub struct CodeUnits<'a> {
    pub units: &'a Vec<u16>,
    pub pos: usize,
}

impl<'a> CodeUnits<'a> {
    /// The next code unit: the unit at the current position when it exists
    /// and is not NUL, advancing by one; `None` otherwise, standing still.
    pub fn next(&mut self) -> (r: Option<u16>)
        ensures
            final(self).units@ == old(self).units@,
            (old(self).pos < old(self).units@.len() && old(self).units@[old(self).pos as int]
                != 0) ==> {
                &&& r == Some(old(self).units@[old(self).pos as int])
                &&& final(self).pos == old(self).pos + 1
            },
            !(old(self).pos < old(self).units@.len() && old(self).units@[old(self).pos as int]
                != 0) ==> {
                &&& r is None
                &&& final(self).pos == old(self).pos
            },
    {
        if self.pos < self.units.len() {
            let c = self.units[self.pos];
            if c == 0 {
                None
            } else {
                self.pos = self.pos + 1;
                Some(c)
            }
        } else {
            None
        }
    }
}

} // verus!
