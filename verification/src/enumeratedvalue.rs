use vstd::prelude::*;
use vstd::arithmetic::power2::*;
use crate::error::SvdError;
use crate::usage::Usage;
use crate::validate_level::ValidateLevel;

verus! {

/// Errors of validating enumerated values.
#[derive(Clone, Debug, PartialEq, Eq)]
pub enum Error {
    /// An entry has neither a value nor the default flag.
    AbsentValue,
    /// An entry has both a value and the default flag.
    ValueAndDefault,
    /// The value (first) does not lie below the limit (second) that the
    /// field's width sets.
    OutOfRange(u64, u64),
    /// More than one entry is flagged as the default.
    MultipleDefaults,
}

/// One named value of a field.
#[derive(Clone, Debug, PartialEq, Eq)]
pub struct EnumeratedValue {
    /// Name of the value.
    pub name: String,
    /// What the value means.
    pub description: Option<String>,
    /// The literal value.
    pub value: Option<u64>,
    /// Marks the entry that stands for all values not listed.
    pub is_default: Option<bool>,
}

/// A set of named values of a field, for one kind of access.
#[derive(Clone, Debug, PartialEq, Eq)]
pub struct EnumeratedValues {
    /// Name of the set.
    pub name: Option<String>,
    /// The access the set is meant for; read-write where absent.
    pub usage: Option<Usage>,
    /// Name of the set from which this one takes its content.
    pub derived_from: Option<String>,
    /// The entries, in document order.
    pub values: Vec<EnumeratedValue>,
}

impl EnumeratedValue {
    /// Whether the entry is flagged as the default.
    pub open spec fn flagged_default(&self) -> bool {
        self.is_default == Some(true)
    }

    /// Whether exactly one of value and default flag is given.
    pub open spec fn well_formed(&self) -> bool {
        self.value is Some != self.flagged_default()
    }

    /// Whether the literal value, if any, lies below `limit`.
    pub open spec fn in_range(&self, limit: nat) -> bool {
        self.value matches Some(x) ==> x < limit
    }

    /// Checks that value and default flag exclude each other.
    pub fn validate(&self, lvl: ValidateLevel) -> (res: Result<(), SvdError>)
        ensures
            lvl == ValidateLevel::Disabled || self.well_formed() ==> res is Ok,
            lvl != ValidateLevel::Disabled && self.value is None && !self.flagged_default()
                ==> res == Err::<(), SvdError>(SvdError::EnumeratedValue(Error::AbsentValue)),
            lvl != ValidateLevel::Disabled && self.value is Some && self.flagged_default()
                ==> res == Err::<(), SvdError>(SvdError::EnumeratedValue(Error::ValueAndDefault)),
    {
        if lvl.is_disabled() {
            return Ok(());
        }
        let flagged: bool = match self.is_default {
            Some(b) => b,
            None => false,
        };
        match self.value {
            Some(_) => if flagged {
                Err(SvdError::EnumeratedValue(Error::ValueAndDefault))
            } else {
                Ok(())
            },
            None => if flagged {
                Ok(())
            } else {
                Err(SvdError::EnumeratedValue(Error::AbsentValue))
            },
        }
    }

    /// Checks the literal value against an exclusive upper limit.
    pub fn check_range(&self, limit: u64) -> (res: Result<(), SvdError>)
        ensures
            self.in_range(limit as nat) ==> res is Ok,
            !self.in_range(limit as nat) ==> res == Err::<(), SvdError>(
                SvdError::EnumeratedValue(Error::OutOfRange(self.value->0, limit)),
            ),
    {
        match self.value {
            Some(x) => if x >= limit {
                Err(SvdError::EnumeratedValue(Error::OutOfRange(x, limit)))
            } else {
                Ok(())
            },
            None => Ok(()),
        }
    }
}

/// The number of entries of `s` that are flagged as the default.
pub open spec fn count_defaults(s: Seq<EnumeratedValue>) -> nat
    decreases s.len(),
{
    if s.len() == 0 {
        0
    } else {
        count_defaults(s.drop_last()) + if s.last().flagged_default() {
            1nat
        } else {
            0nat
        }
    }
}

/// The index of the first entry of `s` whose value reaches `limit`, or the
/// length of `s` where every entry lies below it.
pub open spec fn first_out_of_range(s: Seq<EnumeratedValue>, limit: nat) -> int
    decreases s.len(),
{
    if s.len() == 0 {
        0
    } else if !s[0].in_range(limit) {
        0
    } else {
        1 + first_out_of_range(s.subrange(1, s.len() as int), limit)
    }
}

/// The first out-of-range index is the least one, and within bounds.
pub proof fn lemma_first_out_of_range(s: Seq<EnumeratedValue>, limit: nat)
    ensures
        0 <= first_out_of_range(s, limit) <= s.len(),
        forall|j: int| 0 <= j < first_out_of_range(s, limit) ==> (#[trigger] s[j]).in_range(limit),
        first_out_of_range(s, limit) < s.len() ==> !s[first_out_of_range(s, limit)].in_range(limit),
    decreases s.len(),
{
    if s.len() > 0 && s[0].in_range(limit) {
        let t = s.subrange(1, s.len() as int);
        lemma_first_out_of_range(t, limit);
        assert forall|j: int| 0 <= j < first_out_of_range(s, limit) implies (#[trigger] s[j]).in_range(
            limit,
        ) by {
            if j > 0 {
                assert(s[j] == t[j - 1]);
            }
        }
        if first_out_of_range(s, limit) < s.len() {
            assert(s[first_out_of_range(s, limit)] == t[first_out_of_range(t, limit)]);
        }
    }
}

/// An index at which the value is out of range, below which all are in
/// range, is the first out-of-range index.
pub proof fn lemma_first_out_of_range_is(s: Seq<EnumeratedValue>, limit: nat, k: int)
    requires
        0 <= k <= s.len(),
        forall|j: int| 0 <= j < k ==> (#[trigger] s[j]).in_range(limit),
        k < s.len() ==> !s[k].in_range(limit),
    ensures
        first_out_of_range(s, limit) == k,
{
    lemma_first_out_of_range(s, limit);
    let f = first_out_of_range(s, limit);
    if f < k {
        assert(s[f].in_range(limit));
    }
}

impl EnumeratedValues {
    /// The access the set is meant for.
    pub open spec fn usage_of(&self) -> Usage {
        match self.usage {
            Some(u) => u,
            None => Usage::ReadWrite,
        }
    }

    /// Whether every literal value of the set lies below `limit`.
    pub open spec fn in_range(&self, limit: nat) -> bool {
        first_out_of_range(self.values@, limit) == self.values@.len()
    }

    /// Whether at most one entry is flagged as the default.
    pub open spec fn at_most_one_default(&self) -> bool {
        count_defaults(self.values@) <= 1
    }

    /// The access the set is meant for; read-write where none is given.
    pub fn usage(&self) -> (res: Usage)
        ensures
            res == self.usage_of(),
    {
        match self.usage {
            Some(u) => u,
            None => Usage::ReadWrite,
        }
    }

    /// Checks every literal value against an exclusive upper limit and
    /// reports the first that reaches it.
    pub fn check_range(&self, limit: u64) -> (res: Result<(), SvdError>)
        ensures
            self.in_range(limit as nat) ==> res is Ok,
            !self.in_range(limit as nat) ==> res == Err::<(), SvdError>(
                SvdError::EnumeratedValue(
                    Error::OutOfRange(
                        self.values@[first_out_of_range(self.values@, limit as nat)].value->0,
                        limit,
                    ),
                ),
            ),
    {
        let n: usize = self.values.len();
        let mut i: usize = 0;
        while i < n
            invariant
                n == self.values@.len(),
                i <= n,
                forall|j: int| 0 <= j < i ==> (#[trigger] self.values@[j]).in_range(limit as nat),
            decreases n - i,
        {
            let r = self.values[i].check_range(limit);
            if r.is_err() {
                proof {
                    lemma_first_out_of_range_is(self.values@, limit as nat, i as int);
                }
                return r;
            }
            i += 1;
        }
        proof {
            lemma_first_out_of_range_is(self.values@, limit as nat, n as int);
        }
        Ok(())
    }

    /// Checks that at most one entry is flagged as the default, and each
    /// entry by itself.
    pub fn validate(&self, lvl: ValidateLevel) -> (res: Result<(), SvdError>)
        ensures
            lvl == ValidateLevel::Disabled ==> res is Ok,
            lvl != ValidateLevel::Disabled ==> (res is Ok <==> self.at_most_one_default() && forall|
                j: int,
            |
                0 <= j < self.values@.len() ==> (#[trigger] self.values@[j]).well_formed()),
    {
        if lvl.is_disabled() {
            return Ok(());
        }
        let n: usize = self.values.len();
        let mut defaults: usize = 0;
        let mut i: usize = 0;
        while i < n
            invariant
                lvl != ValidateLevel::Disabled,
                n == self.values@.len(),
                i <= n,
                defaults == count_defaults(self.values@.subrange(0, i as int)),
                defaults <= 1,
                forall|j: int| 0 <= j < i ==> (#[trigger] self.values@[j]).well_formed(),
            decreases n - i,
        {
            let r = self.values[i].validate(lvl);
            if r.is_err() {
                return r;
            }
            let ghost before = self.values@.subrange(0, i as int);
            let ghost after = self.values@.subrange(0, i + 1);
            assert(after.drop_last() =~= before);
            let flagged: bool = match self.values[i].is_default {
                Some(b) => b,
                None => false,
            };
            if flagged {
                if defaults == 1 {
                    proof {
                        lemma_count_defaults_prefix(self.values@, i + 1);
                    }
                    return Err(SvdError::EnumeratedValue(Error::MultipleDefaults));
                }
                defaults += 1;
            }
            i += 1;
        }
        assert(self.values@.subrange(0, n as int) =~= self.values@);
        Ok(())
    }
}

/// A prefix holds no more default entries than the whole.
pub proof fn lemma_count_defaults_prefix(s: Seq<EnumeratedValue>, k: int)
    requires
        0 <= k <= s.len(),
    ensures
        count_defaults(s.subrange(0, k)) <= count_defaults(s),
    decreases s.len() - k,
{
    if k < s.len() {
        lemma_count_defaults_prefix(s, k + 1);
        assert(s.subrange(0, k + 1).drop_last() =~= s.subrange(0, k));
    } else {
        assert(s.subrange(0, k) =~= s);
    }
}

/// The exclusive upper limit `2^width` of the values of a field `width` bits
/// wide.
pub fn limit_of_width(width: u32) -> (res: u64)
    requires
        width < 64,
    ensures
        res == pow2(width as nat),
{
    let mut limit: u64 = 1;
    let mut i: u32 = 0;
    proof {
        lemma2_to64();
    }
    while i < width
        invariant
            i <= width < 64,
            limit == pow2(i as nat),
        decreases width - i,
    {
        proof {
            lemma_pow2_unfold((i + 1) as nat);
            lemma2_to64_rest();
            if i + 1 < 63 {
                lemma_pow2_strictly_increases((i + 1) as nat, 63);
            }
        }
        limit = limit * 2;
        i += 1;
    }
    limit
}

} // verus!
