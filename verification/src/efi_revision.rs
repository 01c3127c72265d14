//! The revision word of a firmware table header: the major revision in the
//! upper sixteen bits, the minor revision in the lower sixteen, with the
//! minor revision read in decimal as units-of-ten and a last digit.

use vstd::prelude::*;
use vstd::string::StringExecFns;

verus! {

/// The major revision held in a revision word.
pub open spec fn spec_major(value: u32) -> u16 {
    (value >> 16) as u16
}

/// The minor revision held in a revision word.
pub open spec fn spec_minor(value: u32) -> u16 {
    (value & 0xFFFF) as u16
}

/// The decimal digit character for `d < 10`.
pub open spec fn digit_char(d: nat) -> char
    recommends
        d < 10,
{
    if d == 0 {
        '0'
    } else if d == 1 {
        '1'
    } else if d == 2 {
        '2'
    } else if d == 3 {
        '3'
    } else if d == 4 {
        '4'
    } else if d == 5 {
        '5'
    } else if d == 6 {
        '6'
    } else if d == 7 {
        '7'
    } else if d == 8 {
        '8'
    } else {
        '9'
    }
}

/// The decimal rendering of a number, most significant digit first, with no
/// leading zero except for the number zero itself.
pub open spec fn dec_str(n: nat) -> Seq<char>
    decreases n,
{
    if n < 10 {
        seq![digit_char(n)]
    } else {
        dec_str(n / 10).push(digit_char(n % 10))
    }
}

/// The text of a revision: `major.minor_upper`, with `.minor_lower` appended
/// only when the last digit of the minor revision is not zero.
pub open spec fn revision_text(value: u32) -> Seq<char> {
    let head = dec_str(spec_major(value) as nat) + seq!['.'] + dec_str(
        (spec_minor(value) / 10) as nat,
    );
    if spec_minor(value) % 10 == 0 {
        head
    } else {
        head + seq!['.'] + dec_str((spec_minor(value) % 10) as nat)
    }
}

/// A firmware revision word.
#[derive(Debug, Clone, Copy, PartialEq, Eq, Structural)]
pub struct EfiRevision {
    pub value: u32,
}

impl From<u32> for EfiRevision {
    fn from(value: u32) -> (r: EfiRevision) {
        EfiRevision { value }
    }
}

impl vstd::std_specs::convert::FromSpecImpl<u32> for EfiRevision {
    open spec fn obeys_from_spec() -> bool {
        true
    }

    open spec fn from_spec(value: u32) -> EfiRevision {
        EfiRevision { value }
    }
}

impl EfiRevision {
    /// The revision word itself.
    pub fn to_u32(&self) -> (r: u32)
        ensures
            r == self.value,
    {
        self.value
    }

    /// The major revision: the upper sixteen bits of the word.
    pub fn major(&self) -> (r: u16)
        ensures
            r == spec_major(self.value),
    {
        (self.value >> 16) as u16
    }

    /// The minor revision: the lower sixteen bits of the word.
    pub fn minor(&self) -> (r: u16)
        ensures
            r == spec_minor(self.value),
    {
        (self.value & 0xFFFF) as u16
    }

    /// The minor revision with its last decimal digit dropped.
    pub fn minor_upper(&self) -> (r: u16)
        ensures
            r == spec_minor(self.value) / 10,
    {
        self.minor() / 10
    }

    /// The last decimal digit of the minor revision.
    pub fn minor_lower(&self) -> (r: u16)
        ensures
            r == spec_minor(self.value) % 10,
    {
        self.minor() % 10
    }

    /// Renders the revision as text: `major.minor_upper`, and the minor
    /// revision's last digit as a third component only when it is not zero.
    pub fn to_string(&self) -> (s: String)
        ensures
            s@ == revision_text(self.value),
    {
        let mut s = u16_to_decimal(self.major());
        s.append(".");
        let upper = u16_to_decimal(self.minor_upper());
        s.append(upper.as_str());
        let lower = self.minor_lower();
        proof {
            reveal_strlit(".");
            assert(s@ =~= dec_str(spec_major(self.value) as nat) + seq!['.'] + dec_str(
                (spec_minor(self.value) / 10) as nat,
            ));
        }
        if lower != 0 {
            s.append(".");
            let lower_s = u16_to_decimal(lower);
            s.append(lower_s.as_str());
            proof {
                assert(s@ =~= revision_text(self.value));
            }
        }
        s
    }
}

/// The decimal word, and the word alone, holds the revision: the word is
/// recovered from the major and minor parts, and the minor part from its
/// upper digits and last digit.
pub proof fn lemma_revision_decomposition(value: u32)
    ensures
        value == spec_major(value) as int * 0x10000 + spec_minor(value) as int,
        spec_minor(value) == (spec_minor(value) / 10) * 10 + spec_minor(value) % 10,
{
    assert(value == spec_major(value) as int * 0x10000 + spec_minor(value) as int)
        by (bit_vector);
}

/// The single character for a decimal digit.
fn digit_text(d: u16) -> (s: &'static str)
    requires
        d < 10,
    ensures
        s@ =~= seq![digit_char(d as nat)],
{
    proof {
        reveal_strlit("0");
        reveal_strlit("1");
        reveal_strlit("2");
        reveal_strlit("3");
        reveal_strlit("4");
        reveal_strlit("5");
        reveal_strlit("6");
        reveal_strlit("7");
        reveal_strlit("8");
        reveal_strlit("9");
    }
    if d == 0 {
        "0"
    } else if d == 1 {
        "1"
    } else if d == 2 {
        "2"
    } else if d == 3 {
        "3"
    } else if d == 4 {
        "4"
    } else if d == 5 {
        "5"
    } else if d == 6 {
        "6"
    } else if d == 7 {
        "7"
    } else if d == 8 {
        "8"
    } else {
        "9"
    }
}

/// Renders a number in decimal, most significant digit first.
pub fn u16_to_decimal(n: u16) -> (s: String)
    ensures
        s@ == dec_str(n as nat),
    decreases n,
{
    if n < 10 {
        String::from_str(digit_text(n))
    } else {
        let mut s = u16_to_decimal(n / 10);
        s.append(digit_text(n % 10));
        proof {
            assert(s@ =~= dec_str(n as nat));
        }
        s
    }
}

} // verus!
