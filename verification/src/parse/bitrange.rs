use vstd::prelude::*;
use vstd::string::*;
use crate::bitrange::{BitRange, BitRangeType};
use crate::encode::{bit_range_encodable, bit_range_text};
use crate::number::{dec_digits, parse_run, place_value, run_value};
use crate::parse::elementext::{child_text, child_u32};
use crate::parse::error::{SVDError, SVDErrorAt};
use crate::tree::Element;

verus! {

/// Whether the first colon of `s` behind its first character is at `k`.
pub open spec fn colon_at(s: Seq<char>, k: int) -> bool {
    &&& 1 <= k < s.len() - 1
    &&& s[k] == ':'
    &&& forall|j: int| 1 <= j < k ==> s[j] != ':'
}

/// The bit range between a highest and a lowest bit, where they are in
/// order and the width is a 32-bit number.
pub open spec fn range_between(msb: nat, lsb: nat, range_type: BitRangeType) -> Option<BitRange> {
    if msb >= lsb && msb - lsb + 1 <= u32::MAX && lsb <= u32::MAX {
        Some(BitRange { offset: lsb as u32, width: (msb - lsb + 1) as u32, range_type })
    } else {
        None
    }
}

/// The bit range that a text of the form `[msb:lsb]` stands for, both
/// bounds in decimal.
pub open spec fn range_of_text(s: Seq<char>) -> Option<BitRange> {
    if s.len() >= 2 && s[0] == '[' && s[s.len() - 1] == ']' && exists|k: int| colon_at(s, k) {
        let k = choose|k: int| colon_at(s, k);
        match (
            run_value(s.subrange(1, k), 10, false, u32::MAX as nat),
            run_value(s.subrange(k + 1, s.len() - 1), 10, false, u32::MAX as nat),
        ) {
            (Some(m), Some(l)) => range_between(m, l, BitRangeType::BitRange),
            _ => None,
        }
    } else {
        None
    }
}

/// The bit range that the children of an element give, in the first of
/// three forms that is present: a `bitRange` text; `bitOffset` and
/// `bitWidth`; `lsb` and `msb`.
pub open spec fn bit_range_of(tree: Element) -> Option<BitRange> {
    if tree.child("bitRange"@) is Some {
        match child_text(tree, "bitRange"@) {
            Some(t) => range_of_text(t@),
            None => None,
        }
    } else if tree.child("bitOffset"@) is Some {
        match (child_u32(tree, "bitOffset"@), child_u32(tree, "bitWidth"@)) {
            (Some(o), Some(w)) => Some(
                BitRange { offset: o, width: w, range_type: BitRangeType::OffsetWidth },
            ),
            _ => None,
        }
    } else {
        match (child_u32(tree, "lsb"@), child_u32(tree, "msb"@)) {
            (Some(l), Some(m)) => range_between(m as nat, l as nat, BitRangeType::MsbLsb),
            _ => None,
        }
    }
}

/// No decimal digit of a number is a colon.
pub proof fn lemma_dec_digits_no_colon(n: nat)
    ensures
        forall|i: int| 0 <= i < dec_digits(n).len() ==> dec_digits(n)[i] != ':',
{
    crate::number::lemma_dec_digits_value(n);
    assert forall|i: int| 0 <= i < dec_digits(n).len() implies dec_digits(n)[i] != ':' by {
        assert(place_value(dec_digits(n)[i], 10, false) is Some);
    }
}

/// A bit range survives being written as `[msb:lsb]` and read: the text
/// of a range that has a highest bit stands for that range.
pub proof fn lemma_range_text_round_trip(b: BitRange)
    requires
        b.range_type == BitRangeType::BitRange,
        bit_range_encodable(b),
    ensures
        range_of_text(bit_range_text(b)) == Some(b),
{
    let msb = b.msb_of() as nat;
    let lsb = b.lsb_of() as nat;
    let m = dec_digits(msb);
    let l = dec_digits(lsb);
    let s = bit_range_text(b);
    crate::number::lemma_dec_digits_value(msb);
    crate::number::lemma_dec_digits_value(lsb);
    lemma_dec_digits_no_colon(msb);
    let k = 1 + m.len() as int;
    assert(s.len() == m.len() + l.len() + 3);
    assert(s[k] == ':');
    assert forall|j: int| 1 <= j < k implies s[j] != ':' by {
        assert(s[j] == m[j - 1]);
    }
    assert(colon_at(s, k));
    let c = choose|c: int| colon_at(s, c);
    if c < k {
        assert(s[c] != ':');
    }
    if k < c {
        assert(s[k] != ':');
    }
    assert(s.subrange(1, k) =~= m);
    assert(s.subrange(k + 1, s.len() - 1) =~= l);
}

fn between(msb: u32, lsb: u32, range_type: BitRangeType) -> (res: Option<BitRange>)
    ensures
        res == range_between(msb as nat, lsb as nat, range_type),
{
    if msb >= lsb && !(msb == u32::MAX && lsb == 0) {
        Some(BitRange { offset: lsb, width: msb - lsb + 1, range_type })
    } else {
        None
    }
}

/// Reads a bit range from a text of the form `[msb:lsb]`.
pub fn parse_range_text(text: &str) -> (res: Option<BitRange>)
    ensures
        res == range_of_text(text@),
{
    let cs: Vec<char> = crate::text::chars_of(text);
    let n: usize = cs.len();
    if n < 2 || cs[0] != '[' || cs[n - 1] != ']' {
        return None;
    }
    let mut k: usize = 1;
    while k < n - 1 && cs[k] != ':'
        invariant
            1 <= k <= n - 1,
            n == cs@.len(),
            forall|j: int| 1 <= j < k ==> cs@[j] != ':',
        decreases n - k,
    {
        k += 1;
    }
    if k == n - 1 {
        assert forall|c: int| !colon_at(cs@, c) by {
            if colon_at(cs@, c) {
                assert(cs@[c] != ':');
            }
        }
        return None;
    }
    proof {
        assert(colon_at(cs@, k as int));
        let c = choose|c: int| colon_at(cs@, c);
        if c < k {
            assert(cs@[c] != ':');
        }
        if k < c {
            assert(cs@[k as int] != ':');
        }
    }
    let msb = parse_run(&cs, 1, k, 10, false, 0xffff_ffff);
    let lsb = parse_run(&cs, k + 1, n - 1, 10, false, 0xffff_ffff);
    match (msb, lsb) {
        (Some(m), Some(l)) => between(m as u32, l as u32, BitRangeType::BitRange),
        _ => None,
    }
}

impl BitRange {
    /// Reads the bit range of a field from the children of its element, in
    /// whichever of the three forms it is given.
    pub fn parse(tree: &Element) -> (res: Result<BitRange, SVDErrorAt>)
        ensures
            res is Ok <==> bit_range_of(*tree) is Some,
            res is Ok ==> Some(res->Ok_0) == bit_range_of(*tree),
    {
        let found: Option<BitRange> = match tree.get_child("bitRange") {
            Some(c) => {
                let t: &String = c.get_text()?;
                parse_range_text(t.as_str())
            },
            None => match tree.get_child("bitOffset") {
                Some(_) => {
                    let offset: u32 = tree.get_child_u32("bitOffset")?;
                    let width: u32 = tree.get_child_u32("bitWidth")?;
                    Some(BitRange { offset, width, range_type: BitRangeType::OffsetWidth })
                },
                None => {
                    let lsb: u32 = tree.get_child_u32("lsb")?;
                    let msb: u32 = tree.get_child_u32("msb")?;
                    between(msb, lsb, BitRangeType::MsbLsb)
                },
            },
        };
        match found {
            Some(r) => Ok(r),
            None => Err(SVDError::InvalidBitRange.at(tree.id)),
        }
    }
}

} // verus!
