//! Byte counts written in binary units, truncated to whole numbers.

use vstd::prelude::*;
use crate::decimal::{append_decimal, decimal};

verus! {

/// A unit in which a byte count is written.
#[derive(Clone, Copy, Debug, PartialEq, Eq, Structural)]
pub enum ByteUnit {
    /// Single bytes.
    B,
    /// 1024 bytes.
    KB,
    /// 1024 KB.
    MB,
    /// 1024 MB.
    GB,
    /// 1024 GB.
    TB,
}

impl ByteUnit {
    /// The number of bytes in one of this unit.
    pub open spec fn threshold(self) -> nat {
        match self {
            ByteUnit::B => 1,
            ByteUnit::KB => 1024,
            ByteUnit::MB => 1024 * 1024,
            ByteUnit::GB => 1024 * 1024 * 1024,
            ByteUnit::TB => 1024 * 1024 * 1024 * 1024,
        }
    }

    /// The place of this unit among the five, from the smallest (0) up.
    pub open spec fn rank(self) -> nat {
        match self {
            ByteUnit::B => 0,
            ByteUnit::KB => 1,
            ByteUnit::MB => 2,
            ByteUnit::GB => 3,
            ByteUnit::TB => 4,
        }
    }

    /// The letters that stand for this unit.
    pub open spec fn suffix(self) -> Seq<char> {
        match self {
            ByteUnit::B => seq!['B'],
            ByteUnit::KB => seq!['K', 'B'],
            ByteUnit::MB => seq!['M', 'B'],
            ByteUnit::GB => seq!['G', 'B'],
            ByteUnit::TB => seq!['T', 'B'],
        }
    }

    /// The number of bytes in one of this unit.
    pub fn bytes_per_unit(self) -> (n: u64)
        ensures
            n == self.threshold(),
    {
        match self {
            ByteUnit::B => 1,
            ByteUnit::KB => 1024,
            ByteUnit::MB => 1024 * 1024,
            ByteUnit::GB => 1024 * 1024 * 1024,
            ByteUnit::TB => 1024 * 1024 * 1024 * 1024,
        }
    }

    /// The letters that stand for this unit.
    pub fn suffix_str(self) -> (s: &'static str)
        ensures
            s@ == self.suffix(),
    {
        proof {
            reveal_strlit("B");
            reveal_strlit("KB");
            reveal_strlit("MB");
            reveal_strlit("GB");
            reveal_strlit("TB");
        }
        let s = match self {
            ByteUnit::B => "B",
            ByteUnit::KB => "KB",
            ByteUnit::MB => "MB",
            ByteUnit::GB => "GB",
            ByteUnit::TB => "TB",
        };
        assert(s@ =~= self.suffix());
        s
    }
}

/// The unit in which a count of `bytes` is written: the first of the five
/// whose range holds the count.
pub open spec fn unit_of(bytes: nat) -> ByteUnit {
    if bytes < 1024 {
        ByteUnit::B
    } else if bytes < 1024 * 1024 {
        ByteUnit::KB
    } else if bytes < 1024 * 1024 * 1024 {
        ByteUnit::MB
    } else if bytes < 1024 * 1024 * 1024 * 1024 {
        ByteUnit::GB
    } else {
        ByteUnit::TB
    }
}

/// The whole number of units that a count of `bytes` is written as.
pub open spec fn units_in(bytes: nat) -> nat {
    bytes / unit_of(bytes).threshold()
}

/// A count of `bytes` as text: the whole number of units, a space, and the
/// unit's letters.
pub open spec fn formatted_bytes(bytes: nat) -> Seq<char> {
    decimal(units_in(bytes)) + seq![' '] + unit_of(bytes).suffix()
}

/// The unit of a count is the greatest unit that the count reaches: a count
/// of at least one byte reaches its own unit's threshold, no unit whose
/// threshold the count reaches is greater than the chosen one, and a count of
/// zero, which reaches no threshold, is written in single bytes.
pub proof fn lemma_unit_is_greatest_reached(bytes: nat, other: ByteUnit)
    ensures
        bytes >= 1 ==> unit_of(bytes).threshold() <= bytes,
        other.threshold() <= bytes ==> other.rank() <= unit_of(bytes).rank(),
        bytes == 0 ==> unit_of(bytes) == ByteUnit::B,
{
}

/// A count below the next unit's threshold is written as fewer than 1024
/// units, and a count of at least one byte as at least one unit.
pub proof fn lemma_units_bounded(bytes: nat)
    ensures
        unit_of(bytes) != ByteUnit::TB ==> units_in(bytes) < 1024,
        bytes >= 1 ==> units_in(bytes) >= 1,
        units_in(bytes) * unit_of(bytes).threshold() <= bytes,
        bytes < (units_in(bytes) + 1) * unit_of(bytes).threshold(),
{
    let t = unit_of(bytes).threshold();
    assert(t > 0);
    vstd::arithmetic::div_mod::lemma_fundamental_div_mod(bytes as int, t as int);
    vstd::arithmetic::div_mod::lemma_mod_bound(bytes as int, t as int);
    assert(bytes == t * (bytes / t) + bytes % t);
    assert(units_in(bytes) * t == t * (bytes / t)) by (nonlinear_arith)
        requires
            units_in(bytes) == bytes / t,
    ;
    assert((units_in(bytes) + 1) * t == t * (bytes / t) + t) by (nonlinear_arith)
        requires
            units_in(bytes) == bytes / t,
    ;
    if unit_of(bytes) != ByteUnit::TB {
        assert(bytes < 1024 * t);
        assert(units_in(bytes) < 1024) by (nonlinear_arith)
            requires
                units_in(bytes) * t <= bytes,
                bytes < 1024 * t,
                t > 0,
        ;
    }
    if bytes >= 1 {
        assert(t <= bytes);
        assert(units_in(bytes) >= 1) by (nonlinear_arith)
            requires
                bytes < (units_in(bytes) + 1) * t,
                t <= bytes,
                t > 0,
        ;
    }
}

/// The unit in which a count of `bytes` is written.
pub fn unit_for(bytes: u64) -> (unit: ByteUnit)
    ensures
        unit == unit_of(bytes as nat),
{
    if bytes < 1024 {
        ByteUnit::B
    } else if bytes < 1024 * 1024 {
        ByteUnit::KB
    } else if bytes < 1024 * 1024 * 1024 {
        ByteUnit::MB
    } else if bytes < 1024 * 1024 * 1024 * 1024 {
        ByteUnit::GB
    } else {
        ByteUnit::TB
    }
}

/// Appends a count of `bytes`, written in its unit, to `out`.
pub fn append_bytes(out: &mut String, bytes: usize)
    ensures
        final(out)@ == old(out)@ + formatted_bytes(bytes as nat),
{
    let count: u64 = bytes as u64;
    let unit = unit_for(count);
    let whole: u64 = count / unit.bytes_per_unit();
    append_decimal(out, whole as u128);
    proof {
        reveal_strlit(" ");
    }
    out.append(" ");
    out.append(unit.suffix_str());
    assert(final(out)@ =~= old(out)@ + formatted_bytes(bytes as nat));
}

/// A count of `bytes` as text, in the greatest unit that it reaches and
/// truncated to a whole number of them: `512 B`, `1 KB`, `1023 MB`.
pub fn format_bytes(bytes: usize) -> (s: String)
    ensures
        s@ == formatted_bytes(bytes as nat),
{
    let mut s = String::new();
    append_bytes(&mut s, bytes);
    assert(s@ =~= formatted_bytes(bytes as nat));
    s
}

} // verus!
