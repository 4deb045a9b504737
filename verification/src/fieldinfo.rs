use vstd::prelude::*;
use vstd::string::*;
use vstd::arithmetic::power2::pow2;
use vstd::std_specs::convert::FromSpecImpl;
use crate::access::Access;
use crate::bitrange::BitRange;
use crate::enumeratedvalue::{
    first_out_of_range, lemma_first_out_of_range, limit_of_width, EnumeratedValues,
};
use crate::error::SvdError;
use crate::modifiedwritevalues::ModifiedWriteValues;
use crate::names::{check_derived_name, check_dimable_name, is_dimable_name, is_plain_name};
use crate::readaction::ReadAction;
use crate::usage::Usage;
use crate::validate_level::ValidateLevel;
use crate::writeconstraint::WriteConstraint;

verus! {

/// Errors of validating a [`FieldInfo`].
#[derive(Clone, Debug, PartialEq, Eq)]
pub enum Error {
    /// A field has 0, 1 or 2 sets of enumerated values, two only for
    /// different directions of access.
    IncompatibleEnumeratedValues,
}

impl Error {
    /// What the error says, as a sentence for a person.
    pub open spec fn message_text(self) -> Seq<char> {
        "You can have 0, 1 or 2 enumeratedValues with different usage"@
    }

    /// What the error says, as a sentence for a person.
    pub fn message(&self) -> (res: String)
        ensures
            res@ == self.message_text(),
    {
        "You can have 0, 1 or 2 enumeratedValues with different usage".to_owned()
    }
}

/// A bit field of a register.
#[derive(Clone, Debug, PartialEq, Eq)]
pub struct FieldInfo {
    /// Name of the field, unique within its register.
    pub name: String,
    /// What the field is for.
    pub description: Option<String>,
    /// Position of the field within the register.
    pub bit_range: BitRange,
    /// Access rights, where they differ from the register's.
    pub access: Option<Access>,
    /// How a write changes the field.
    pub modified_write_values: Option<ModifiedWriteValues>,
    /// Which values may be written.
    pub write_constraint: Option<WriteConstraint>,
    /// The side effect of a read.
    pub read_action: Option<ReadAction>,
    /// Up to two sets of named values.
    pub enumerated_values: Vec<EnumeratedValues>,
    /// Name of the field from which this one takes its content.
    pub derived_from: Option<String>,
}

/// Builder for [`FieldInfo`].
#[derive(Clone, Debug, PartialEq, Eq)]
pub struct FieldInfoBuilder {
    pub name: Option<String>,
    pub description: Option<String>,
    pub bit_range: Option<BitRange>,
    pub access: Option<Access>,
    pub modified_write_values: Option<ModifiedWriteValues>,
    pub write_constraint: Option<WriteConstraint>,
    pub read_action: Option<ReadAction>,
    pub enumerated_values: Option<Vec<EnumeratedValues>>,
    pub derived_from: Option<String>,
}

/// The directions of access that a sequence of sets is meant for.
pub open spec fn usages(evs: Seq<EnumeratedValues>) -> Seq<Usage> {
    Seq::new(evs.len(), |i: int| evs[i].usage_of())
}

/// Which sequences of usages one field may carry: none, one of any kind, or
/// one for reading and one for writing, in either order.
pub open spec fn compatible_usages(u: Seq<Usage>) -> bool {
    u.len() <= 1 || (u.len() == 2 && ((u[0] == Usage::Read && u[1] == Usage::Write) || (u[0]
        == Usage::Write && u[1] == Usage::Read)))
}

/// The index of the first set that holds a value not below `limit`, or the
/// number of sets where there is none.
pub open spec fn first_bad_set(evs: Seq<EnumeratedValues>, limit: nat) -> int
    decreases evs.len(),
{
    if evs.len() == 0 {
        0
    } else if !evs[0].in_range(limit) {
        0
    } else {
        1 + first_bad_set(evs.subrange(1, evs.len() as int), limit)
    }
}

/// Whether every value of every set lies below `limit`.
pub open spec fn all_in_range(evs: Seq<EnumeratedValues>, limit: nat) -> bool {
    first_bad_set(evs, limit) == evs.len()
}

/// The first bad set is the least index of a set out of range.
pub proof fn lemma_first_bad_set(evs: Seq<EnumeratedValues>, limit: nat)
    ensures
        0 <= first_bad_set(evs, limit) <= evs.len(),
        forall|j: int| 0 <= j < first_bad_set(evs, limit) ==> (#[trigger] evs[j]).in_range(limit),
        first_bad_set(evs, limit) < evs.len() ==> !evs[first_bad_set(evs, limit)].in_range(limit),
    decreases evs.len(),
{
    if evs.len() > 0 && evs[0].in_range(limit) {
        let t = evs.subrange(1, evs.len() as int);
        lemma_first_bad_set(t, limit);
        assert forall|j: int| 0 <= j < first_bad_set(evs, limit) implies (#[trigger] evs[j]).in_range(
            limit,
        ) by {
            if j > 0 {
                assert(evs[j] == t[j - 1]);
            }
        }
        if first_bad_set(evs, limit) < evs.len() {
            assert(evs[first_bad_set(evs, limit)] == t[first_bad_set(t, limit)]);
        }
    }
}

/// An index whose set is out of range, below which all sets are in range,
/// is the first bad set.
pub proof fn lemma_first_bad_set_is(evs: Seq<EnumeratedValues>, limit: nat, k: int)
    requires
        0 <= k <= evs.len(),
        forall|j: int| 0 <= j < k ==> (#[trigger] evs[j]).in_range(limit),
        k < evs.len() ==> !evs[k].in_range(limit),
    ensures
        first_bad_set(evs, limit) == k,
{
    lemma_first_bad_set(evs, limit);
    let f = first_bad_set(evs, limit);
    if f < k {
        assert(evs[f].in_range(limit));
    }
}

/// What validating a field with the given content at level `lvl` returns.
/// The checks run in this order, and the first that fails decides: at the
/// strict level the name, then the derivation reference; the width; for a
/// width under 64 the range of every enumerated value; at the strict level
/// the combination of usages.
pub open spec fn outcome(
    name: Seq<char>,
    derived_from: Option<Seq<char>>,
    width: u32,
    evs: Seq<EnumeratedValues>,
    lvl: ValidateLevel,
    res: Result<(), SvdError>,
) -> bool {
    if lvl == ValidateLevel::Strict && !is_dimable_name(name) {
        res is Err && res->Err_0.is_invalid_name(name, "name"@)
    } else if lvl == ValidateLevel::Strict && derived_from is Some && !is_plain_name(
        derived_from->0,
    ) {
        res is Err && res->Err_0.is_invalid_name(derived_from->0, "derivedFrom"@)
    } else if width == 0 {
        res == Err::<(), SvdError>(SvdError::BitRange(crate::bitrange::Error::ZeroWidth))
    } else if width < 64 && !all_in_range(evs, pow2(width as nat)) {
        res == Err::<(), SvdError>(
            SvdError::EnumeratedValue(
                crate::enumeratedvalue::Error::OutOfRange(
                    first_bad_value(evs, pow2(width as nat)),
                    pow2(width as nat) as u64,
                ),
            ),
        )
    } else if lvl == ValidateLevel::Strict && !compatible_usages(usages(evs)) {
        res == Err::<(), SvdError>(SvdError::Field(Error::IncompatibleEnumeratedValues))
    } else {
        res is Ok
    }
}

/// The first value, in document order, that does not lie below `limit`.
pub open spec fn first_bad_value(evs: Seq<EnumeratedValues>, limit: nat) -> u64 {
    let set = evs[first_bad_set(evs, limit)];
    set.values@[first_out_of_range(set.values@, limit)].value->0
}

/// The view of an optional string.
pub open spec fn opt_view(s: Option<String>) -> Option<Seq<char>> {
    match s {
        Some(t) => Some(t@),
        None => None,
    }
}

fn check_usages(evs: &Vec<EnumeratedValues>) -> (res: bool)
    ensures
        res == compatible_usages(usages(evs@)),
{
    if evs.len() <= 1 {
        true
    } else if evs.len() == 2 {
        let u0: Usage = evs[0].usage();
        let u1: Usage = evs[1].usage();
        (u0 == Usage::Read && u1 == Usage::Write) || (u0 == Usage::Write && u1 == Usage::Read)
    } else {
        false
    }
}

fn check_ranges(evs: &Vec<EnumeratedValues>, width: u32) -> (res: Result<(), SvdError>)
    requires
        0 < width < 64,
    ensures
        all_in_range(evs@, pow2(width as nat)) ==> res is Ok,
        !all_in_range(evs@, pow2(width as nat)) ==> res == Err::<(), SvdError>(
            SvdError::EnumeratedValue(
                crate::enumeratedvalue::Error::OutOfRange(
                    first_bad_value(evs@, pow2(width as nat)),
                    pow2(width as nat) as u64,
                ),
            ),
        ),
{
    let limit: u64 = limit_of_width(width);
    let n: usize = evs.len();
    let mut i: usize = 0;
    while i < n
        invariant
            n == evs@.len(),
            i <= n,
            limit == pow2(width as nat),
            forall|j: int| 0 <= j < i ==> (#[trigger] evs@[j]).in_range(limit as nat),
        decreases n - i,
    {
        let r = evs[i].check_range(limit);
        if r.is_err() {
            proof {
                lemma_first_bad_set_is(evs@, limit as nat, i as int);
            }
            return r;
        }
        i += 1;
    }
    proof {
        lemma_first_bad_set_is(evs@, limit as nat, n as int);
    }
    Ok(())
}

/// Validates the content of a field before it is put together.
fn check_parts(
    name: &String,
    derived_from: &Option<String>,
    width: u32,
    evs: &Vec<EnumeratedValues>,
    lvl: ValidateLevel,
) -> (res: Result<(), SvdError>)
    ensures
        outcome(name@, opt_view(*derived_from), width, evs@, lvl, res),
{
    if lvl.is_strict() {
        check_dimable_name(name.as_str(), "name")?;
        if let Some(d) = derived_from {
            check_derived_name(d.as_str(), "derivedFrom")?;
        }
    }
    if width == 0 {
        return Err(SvdError::BitRange(crate::bitrange::Error::ZeroWidth));
    }
    if width < 64 {
        check_ranges(evs, width)?;
    }
    if lvl.is_strict() && !check_usages(evs) {
        return Err(SvdError::Field(Error::IncompatibleEnumeratedValues));
    }
    Ok(())
}

impl FromSpecImpl<FieldInfo> for FieldInfoBuilder {
    open spec fn obeys_from_spec() -> bool {
        true
    }

    open spec fn from_spec(f: FieldInfo) -> FieldInfoBuilder {
        FieldInfoBuilder {
            name: Some(f.name),
            description: f.description,
            bit_range: Some(f.bit_range),
            access: f.access,
            modified_write_values: f.modified_write_values,
            write_constraint: f.write_constraint,
            read_action: f.read_action,
            enumerated_values: Some(f.enumerated_values),
            derived_from: f.derived_from,
        }
    }
}

impl From<FieldInfo> for FieldInfoBuilder {
    /// A builder with every field set to what `f` holds.
    fn from(f: FieldInfo) -> (res: FieldInfoBuilder) {
        FieldInfoBuilder {
            name: Some(f.name),
            description: f.description,
            bit_range: Some(f.bit_range),
            access: f.access,
            modified_write_values: f.modified_write_values,
            write_constraint: f.write_constraint,
            read_action: f.read_action,
            enumerated_values: Some(f.enumerated_values),
            derived_from: f.derived_from,
        }
    }
}

impl FieldInfoBuilder {
    /// The builder with nothing set.
    pub open spec fn empty() -> FieldInfoBuilder {
        FieldInfoBuilder {
            name: None,
            description: None,
            bit_range: None,
            access: None,
            modified_write_values: None,
            write_constraint: None,
            read_action: None,
            enumerated_values: None,
            derived_from: None,
        }
    }

    /// Set the name of the field.
    pub fn name(self, value: String) -> (res: Self)
        ensures
            res == (FieldInfoBuilder { name: Some(value), ..self }),
    {
        let mut b = self;
        b.name = Some(value);
        b
    }

    /// Set the description of the field.
    pub fn description(self, value: Option<String>) -> (res: Self)
        ensures
            res == (FieldInfoBuilder { description: value, ..self }),
    {
        let mut b = self;
        b.description = value;
        b
    }

    /// Set the bit range of the field.
    pub fn bit_range(self, value: BitRange) -> (res: Self)
        ensures
            res == (FieldInfoBuilder { bit_range: Some(value), ..self }),
    {
        let mut b = self;
        b.bit_range = Some(value);
        b
    }

    /// Set the access of the field.
    pub fn access(self, value: Option<Access>) -> (res: Self)
        ensures
            res == (FieldInfoBuilder { access: value, ..self }),
    {
        let mut b = self;
        b.access = value;
        b
    }

    /// Set the modified write values of the field.
    pub fn modified_write_values(self, value: Option<ModifiedWriteValues>) -> (res: Self)
        ensures
            res == (FieldInfoBuilder { modified_write_values: value, ..self }),
    {
        let mut b = self;
        b.modified_write_values = value;
        b
    }

    /// Set the write constraint of the field.
    pub fn write_constraint(self, value: Option<WriteConstraint>) -> (res: Self)
        ensures
            res == (FieldInfoBuilder { write_constraint: value, ..self }),
    {
        let mut b = self;
        b.write_constraint = value;
        b
    }

    /// Set the read action of the field.
    pub fn read_action(self, value: Option<ReadAction>) -> (res: Self)
        ensures
            res == (FieldInfoBuilder { read_action: value, ..self }),
    {
        let mut b = self;
        b.read_action = value;
        b
    }

    /// Set the enumerated values of the field.
    pub fn enumerated_values(self, value: Vec<EnumeratedValues>) -> (res: Self)
        ensures
            res == (FieldInfoBuilder { enumerated_values: Some(value), ..self }),
    {
        let mut b = self;
        b.enumerated_values = Some(value);
        b
    }

    /// Set the derivation reference of the field.
    pub fn derived_from(self, value: Option<String>) -> (res: Self)
        ensures
            res == (FieldInfoBuilder { derived_from: value, ..self }),
    {
        let mut b = self;
        b.derived_from = value;
        b
    }

    /// The enumerated values that the built field gets: those set, else none.
    pub open spec fn values_to_build(self) -> Seq<EnumeratedValues> {
        match self.enumerated_values {
            Some(v) => v@,
            None => Seq::empty(),
        }
    }

    /// Whether `f` holds exactly what the builder was given.
    pub open spec fn builds(self, f: FieldInfo) -> bool {
        &&& self.name == Some(f.name)
        &&& self.bit_range == Some(f.bit_range)
        &&& f.description == self.description
        &&& f.access == self.access
        &&& f.modified_write_values == self.modified_write_values
        &&& f.write_constraint == self.write_constraint
        &&& f.read_action == self.read_action
        &&& f.enumerated_values@ == self.values_to_build()
        &&& f.derived_from == self.derived_from
    }

    /// Validate and build a [`FieldInfo`]. A missing name, then a missing
    /// bit range, is reported as uninitialized; a field that is put together
    /// is validated unless the level is disabled.
    pub fn build(self, lvl: ValidateLevel) -> (res: Result<FieldInfo, SvdError>)
        ensures
            self.name is None ==> res is Err && res->Err_0.is_uninitialized("name"@),
            self.name is Some && self.bit_range is None ==> res is Err
                && res->Err_0.is_uninitialized("bit_range"@),
            self.name is Some && self.bit_range is Some ==> {
                &&& res is Ok ==> self.builds(res->Ok_0)
                &&& lvl == ValidateLevel::Disabled ==> res is Ok
                &&& lvl != ValidateLevel::Disabled ==> outcome(
                    self.name->0@,
                    opt_view(self.derived_from),
                    self.bit_range->0.width,
                    self.values_to_build(),
                    lvl,
                    match res {
                        Ok(_) => Ok(()),
                        Err(e) => Err(e),
                    },
                )
            },
    {
        let name: String = match self.name {
            Some(n) => n,
            None => { return Err(crate::error::uninitialized("name")); },
        };
        let bit_range: BitRange = match self.bit_range {
            Some(b) => b,
            None => { return Err(crate::error::uninitialized("bit_range")); },
        };
        let enumerated_values: Vec<EnumeratedValues> = match self.enumerated_values {
            Some(v) => v,
            None => Vec::new(),
        };
        let mut field = FieldInfo {
            name,
            description: self.description,
            bit_range,
            access: self.access,
            modified_write_values: self.modified_write_values,
            write_constraint: self.write_constraint,
            read_action: self.read_action,
            enumerated_values,
            derived_from: self.derived_from,
        };
        if !lvl.is_disabled() {
            match field.validate(lvl) {
                Ok(()) => {},
                Err(e) => { return Err(e); },
            }
        }
        Ok(field)
    }
}

impl FieldInfo {
    /// What validating this field at level `lvl` returns.
    pub open spec fn validation(&self, lvl: ValidateLevel, res: Result<(), SvdError>) -> bool {
        outcome(
            self.name@,
            opt_view(self.derived_from),
            self.bit_range.width,
            self.enumerated_values@,
            lvl,
            res,
        )
    }

    /// The name after `b` was applied.
    pub open spec fn merged_name(&self, b: FieldInfoBuilder) -> String {
        match b.name {
            Some(n) => n,
            None => self.name,
        }
    }

    /// The bit range after `b` was applied.
    pub open spec fn merged_bit_range(&self, b: FieldInfoBuilder) -> BitRange {
        match b.bit_range {
            Some(r) => r,
            None => self.bit_range,
        }
    }

    /// The enumerated values after `b` was applied: none where `b` sets a
    /// derivation reference.
    pub open spec fn merged_values(&self, b: FieldInfoBuilder) -> Seq<EnumeratedValues> {
        if b.derived_from is Some {
            Seq::empty()
        } else {
            match b.enumerated_values {
                Some(v) => v@,
                None => self.enumerated_values@,
            }
        }
    }

    /// Whether `after` is this field with the fields that `b` sets taken
    /// over, and the overriding content cleared where `b` sets a derivation
    /// reference.
    pub open spec fn modified_by(&self, b: FieldInfoBuilder, after: FieldInfo) -> bool {
        &&& after.name == self.merged_name(b)
        &&& after.description == crate::registerproperties::first_set(
            b.description,
            self.description,
        )
        &&& after.bit_range == self.merged_bit_range(b)
        &&& after.access == crate::registerproperties::first_set(b.access, self.access)
        &&& after.read_action == crate::registerproperties::first_set(
            b.read_action,
            self.read_action,
        )
        &&& after.derived_from == crate::registerproperties::first_set(
            b.derived_from,
            self.derived_from,
        )
        &&& after.modified_write_values == if b.derived_from is Some {
            None
        } else {
            crate::registerproperties::first_set(
                b.modified_write_values,
                self.modified_write_values,
            )
        }
        &&& after.write_constraint == if b.derived_from is Some {
            None
        } else {
            crate::registerproperties::first_set(b.write_constraint, self.write_constraint)
        }
        &&& after.enumerated_values@ == self.merged_values(b)
    }

    /// Make a builder for [`FieldInfo`].
    pub fn builder() -> (res: FieldInfoBuilder)
        ensures
            res == FieldInfoBuilder::empty(),
    {
        FieldInfoBuilder {
            name: None,
            description: None,
            bit_range: None,
            access: None,
            modified_write_values: None,
            write_constraint: None,
            read_action: None,
            enumerated_values: None,
            derived_from: None,
        }
    }

    /// Modify an existing [`FieldInfo`] based on a builder: the fields that
    /// the builder sets are taken over, and a new derivation reference
    /// clears the modified write values, the write constraint and the
    /// enumerated values. Unless the level is disabled the result is
    /// validated first; where that fails, the field stays as it was.
    pub fn modify_from(&mut self, builder: FieldInfoBuilder, lvl: ValidateLevel) -> (res: Result<
        (),
        SvdError,
    >)
        ensures
            res is Ok ==> old(self).modified_by(builder, *final(self)),
            res is Err ==> *final(self) == *old(self),
            lvl == ValidateLevel::Disabled ==> res is Ok,
            lvl != ValidateLevel::Disabled ==> outcome(
                old(self).merged_name(builder)@,
                opt_view(
                    crate::registerproperties::first_set(builder.derived_from, old(self).derived_from),
                ),
                old(self).merged_bit_range(builder).width,
                old(self).merged_values(builder),
                lvl,
                res,
            ),
    {
        if !lvl.is_disabled() {
            let none: Vec<EnumeratedValues> = Vec::new();
            let name: &String = match &builder.name {
                Some(n) => n,
                None => &self.name,
            };
            let derived_from: &Option<String> = if builder.derived_from.is_some() {
                &builder.derived_from
            } else {
                &self.derived_from
            };
            let width: u32 = match &builder.bit_range {
                Some(r) => r.width,
                None => self.bit_range.width,
            };
            let evs: &Vec<EnumeratedValues> = if builder.derived_from.is_some() {
                &none
            } else {
                match &builder.enumerated_values {
                    Some(v) => v,
                    None => &self.enumerated_values,
                }
            };
            check_parts(name, derived_from, width, evs, lvl)?;
        }
        if let Some(name) = builder.name {
            self.name = name;
        }
        if builder.description.is_some() {
            self.description = builder.description;
        }
        if let Some(bit_range) = builder.bit_range {
            self.bit_range = bit_range;
        }
        if builder.access.is_some() {
            self.access = builder.access;
        }
        if builder.read_action.is_some() {
            self.read_action = builder.read_action;
        }
        if builder.derived_from.is_some() {
            self.derived_from = builder.derived_from;
            self.modified_write_values = None;
            self.write_constraint = None;
            self.enumerated_values = Vec::new();
        } else {
            if builder.modified_write_values.is_some() {
                self.modified_write_values = builder.modified_write_values;
            }
            if builder.write_constraint.is_some() {
                self.write_constraint = builder.write_constraint;
            }
            if let Some(enumerated_values) = builder.enumerated_values {
                self.enumerated_values = enumerated_values;
            }
        }
        Ok(())
    }

    /// Validate the [`FieldInfo`]; the field is not changed.
    pub fn validate(&mut self, lvl: ValidateLevel) -> (res: Result<(), SvdError>)
        ensures
            *final(self) == *old(self),
            old(self).validation(lvl, res),
    {
        check_parts(&self.name, &self.derived_from, self.bit_range.width, &self.enumerated_values, lvl)
    }
}

/// Whether two sequences of sets hold the same usages and values.
pub open spec fn same_content(a: Seq<EnumeratedValues>, b: Seq<EnumeratedValues>) -> bool {
    &&& a.len() == b.len()
    &&& forall|j: int|
        0 <= j < a.len() ==> (#[trigger] a[j]).usage == b[j].usage && a[j].values@ == b[j].values@
}

/// Sets with the same values have their first set out of range at the same
/// place.
pub proof fn lemma_first_bad_set_by_content(
    a: Seq<EnumeratedValues>,
    b: Seq<EnumeratedValues>,
    limit: nat,
)
    requires
        same_content(a, b),
    ensures
        first_bad_set(a, limit) == first_bad_set(b, limit),
    decreases a.len(),
{
    if a.len() > 0 {
        assert(a[0].values@ == b[0].values@);
        if a[0].in_range(limit) {
            let ta = a.subrange(1, a.len() as int);
            let tb = b.subrange(1, b.len() as int);
            assert forall|j: int| 0 <= j < ta.len() implies (#[trigger] ta[j]).usage == tb[j].usage
                && ta[j].values@ == tb[j].values@ by {
                assert(ta[j] == a[j + 1]);
                assert(tb[j] == b[j + 1]);
            }
            lemma_first_bad_set_by_content(ta, tb, limit);
        }
    }
}

/// Validation goes by what the sets of enumerated values hold: fields of
/// the same content have the same outcome.
pub proof fn lemma_outcome_same(
    name: Seq<char>,
    derived_from: Option<Seq<char>>,
    width: u32,
    a: Seq<EnumeratedValues>,
    b: Seq<EnumeratedValues>,
    lvl: ValidateLevel,
    res: Result<(), SvdError>,
)
    requires
        same_content(a, b),
        outcome(name, derived_from, width, b, lvl, res),
    ensures
        outcome(name, derived_from, width, a, lvl, res),
{
    let limit = pow2(width as nat);
    lemma_first_bad_set_by_content(a, b, limit);
    lemma_first_bad_set(a, limit);
    let k = first_bad_set(a, limit);
    if k < a.len() {
        assert(a[k].values@ == b[k].values@);
    }
    assert(usages(a) =~= usages(b)) by {
        assert forall|j: int| 0 <= j < a.len() implies usages(a)[j] == usages(b)[j] by {
            assert(a[j].usage == b[j].usage);
        }
    }
}

/// Validation goes by what the sets of enumerated values hold: where a
/// field passes, a field of the same content cannot fail.
pub proof fn lemma_outcome_by_content(
    name: Seq<char>,
    derived_from: Option<Seq<char>>,
    width: u32,
    a: Seq<EnumeratedValues>,
    b: Seq<EnumeratedValues>,
    lvl: ValidateLevel,
    res: Result<(), SvdError>,
)
    requires
        same_content(a, b),
        outcome(name, derived_from, width, a, lvl, Ok(())),
        outcome(name, derived_from, width, b, lvl, res),
    ensures
        res is Ok,
{
    lemma_first_bad_set_by_content(a, b, pow2(width as nat));
    assert(usages(a) =~= usages(b)) by {
        assert forall|j: int| 0 <= j < a.len() implies usages(a)[j] == usages(b)[j] by {
            assert(a[j].usage == b[j].usage);
        }
    }
}

/// A value that does not fit the width of its field fails validation at the
/// weak and the strict level, for every width under 64.
pub proof fn lemma_out_of_range_fails(
    f: FieldInfo,
    lvl: ValidateLevel,
    res: Result<(), SvdError>,
    i: int,
    j: int,
)
    requires
        lvl != ValidateLevel::Disabled,
        f.bit_range.width < 64,
        0 <= i < f.enumerated_values@.len(),
        0 <= j < f.enumerated_values@[i].values@.len(),
        f.enumerated_values@[i].values@[j].value is Some,
        f.enumerated_values@[i].values@[j].value->0 >= pow2(f.bit_range.width as nat),
        f.validation(lvl, res),
    ensures
        res is Err,
{
    let limit = pow2(f.bit_range.width as nat);
    lemma_first_bad_set(f.enumerated_values@, limit);
    if all_in_range(f.enumerated_values@, limit) {
        let set = f.enumerated_values@[i];
        assert(set.in_range(limit));
        lemma_first_out_of_range(set.values@, limit);
        assert(set.values@[j].in_range(limit));
    }
}

/// At the full width of 64 bits no value is ever reported as out of range.
pub proof fn lemma_full_width_unchecked(f: FieldInfo, lvl: ValidateLevel, res: Result<(), SvdError>)
    requires
        f.bit_range.width == 64,
        f.validation(lvl, res),
    ensures
        !(res matches Err(SvdError::EnumeratedValue(_))),
{
}

/// The combinations of usages that validate at the strict level are
/// exactly: none, a single set of any usage, and one set for reading with
/// one for writing, in either order.
pub proof fn lemma_compatible_usages(u: Seq<Usage>)
    ensures
        compatible_usages(u) <==> (u =~= seq![] || u =~= seq![Usage::Read] || u =~= seq![
            Usage::Write,
        ] || u =~= seq![Usage::ReadWrite] || u =~= seq![Usage::Read, Usage::Write] || u =~= seq![
            Usage::Write,
            Usage::Read,
        ]),
        u.len() >= 3 ==> !compatible_usages(u),
{
    if u.len() == 1 {
        let x = u[0];
        assert(u =~= seq![x]);
    }
}

/// A field whose names and values pass, and whose usages are incompatible,
/// fails at the strict level with the incompatible-usage error, and a field
/// with compatible usages passes.
pub proof fn lemma_usage_decides(f: FieldInfo, res: Result<(), SvdError>)
    requires
        is_dimable_name(f.name@),
        f.derived_from is Some ==> is_plain_name(f.derived_from->0@),
        f.bit_range.width > 0,
        f.bit_range.width < 64 ==> all_in_range(
            f.enumerated_values@,
            pow2(f.bit_range.width as nat),
        ),
        f.validation(ValidateLevel::Strict, res),
    ensures
        compatible_usages(usages(f.enumerated_values@)) ==> res is Ok,
        !compatible_usages(usages(f.enumerated_values@)) ==> res == Err::<(), SvdError>(
            SvdError::Field(Error::IncompatibleEnumeratedValues),
        ),
{
}

/// Applying a builder that sets a derivation reference leaves the field
/// without modified write values, write constraint and enumerated values,
/// whatever it held before.
pub proof fn lemma_derivation_clears(before: FieldInfo, b: FieldInfoBuilder, after: FieldInfo)
    requires
        b.derived_from is Some,
        before.modified_by(b, after),
    ensures
        after.modified_write_values is None,
        after.write_constraint is None,
        after.enumerated_values@ =~= Seq::empty(),
        after.derived_from == b.derived_from,
{
}

} // verus!
