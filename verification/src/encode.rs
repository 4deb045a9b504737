use vstd::prelude::*;
use vstd::string::*;
use crate::access::Access;
use crate::bitrange::{BitRange, BitRangeType};
use crate::dimelement::{DimArrayIndex, DimElement};
use crate::endian::Endian;
use crate::enumeratedvalue::{EnumeratedValue, EnumeratedValues};
use crate::fieldinfo::{opt_view, FieldInfo};
use crate::modifiedwritevalues::ModifiedWriteValues;
use crate::number::{dec_text, format_dec, format_hex, format_hex_padded, hex_text, hex_text_padded};
use crate::protection::Protection;
use crate::readaction::ReadAction;
use crate::register::{Field, Register};
use crate::registerinfo::RegisterInfo;
use crate::registerproperties::RegisterProperties;
use crate::tree::{
    append_elements, branch, leaf, opt_leaf, pairs, push_element, push_leaf, push_opt_leaf, trees,
    Attribute, Element, Tree,
};
use crate::usage::Usage;
use crate::writeconstraint::WriteConstraint;

verus! {

/// An entity cannot be written down as it stands.
#[derive(Clone, Debug, PartialEq, Eq)]
pub enum EncodeError {
    /// An array description whose labels do not match its count.
    IndexCountMismatch,
    /// A bit range, to be written with its highest bit, that has no bits
    /// or ends beyond the 32-bit range.
    BitRange,
}

/// The text of a truth value.
pub open spec fn bool_text(b: bool) -> Seq<char> {
    if b {
        "true"@
    } else {
        "false"@
    }
}

/// The canonical hexadecimal text of an optional 32-bit number.
pub open spec fn opt_hex(v: Option<u32>) -> Option<Seq<char>> {
    match v {
        Some(x) => Some(hex_text(x as nat)),
        None => None,
    }
}

/// The padded hexadecimal text of an optional number.
pub open spec fn opt_padded(v: Option<u64>) -> Option<Seq<char>> {
    match v {
        Some(x) => Some(hex_text_padded(x as nat)),
        None => None,
    }
}

/// The decimal text of an optional number.
pub open spec fn opt_dec(v: Option<u64>) -> Option<Seq<char>> {
    match v {
        Some(x) => Some(dec_text(x as nat)),
        None => None,
    }
}

/// The text of an optional truth value.
pub open spec fn opt_bool(v: Option<bool>) -> Option<Seq<char>> {
    match v {
        Some(x) => Some(bool_text(x)),
        None => None,
    }
}

/// The text of an optional access.
pub open spec fn opt_access(v: Option<Access>) -> Option<Seq<char>> {
    match v {
        Some(x) => Some(x.text()),
        None => None,
    }
}

/// The text of an optional protection.
pub open spec fn opt_protection(v: Option<Protection>) -> Option<Seq<char>> {
    match v {
        Some(x) => Some(x.text()),
        None => None,
    }
}

/// The text of an optional usage.
pub open spec fn opt_usage(v: Option<Usage>) -> Option<Seq<char>> {
    match v {
        Some(x) => Some(x.text()),
        None => None,
    }
}

/// The text of optional modified write values.
pub open spec fn opt_modified(v: Option<ModifiedWriteValues>) -> Option<Seq<char>> {
    match v {
        Some(x) => Some(x.text()),
        None => None,
    }
}

/// The text of an optional read action.
pub open spec fn opt_read_action(v: Option<ReadAction>) -> Option<Seq<char>> {
    match v {
        Some(x) => Some(x.text()),
        None => None,
    }
}

/// The attributes of an entity: its derivation reference, where it has one.
pub open spec fn derived_attributes(d: Option<Seq<char>>) -> Seq<(Seq<char>, Seq<char>)> {
    match d {
        Some(x) => seq![("derivedFrom"@, x)],
        None => Seq::empty(),
    }
}

/// The elements of the register properties: one for each property that is
/// set, none for one that is not.
pub open spec fn properties_trees(p: RegisterProperties) -> Seq<Tree> {
    Seq::<Tree>::empty() + opt_leaf("size"@, opt_hex(p.size)) + opt_leaf(
        "access"@,
        opt_access(p.access),
    ) + opt_leaf("protection"@, opt_protection(p.protection)) + opt_leaf(
        "resetValue"@,
        opt_padded(p.reset_value),
    ) + opt_leaf("resetMask"@, opt_padded(p.reset_mask))
}

/// The element of a write constraint.
pub open spec fn write_constraint_tree(w: WriteConstraint) -> Tree {
    branch(
        "writeConstraint"@,
        seq![
            match w {
                WriteConstraint::WriteAsRead(b) => leaf("writeAsRead"@, bool_text(b)),
                WriteConstraint::UseEnumeratedValues(b) => leaf(
                    "useEnumeratedValues"@,
                    bool_text(b),
                ),
                WriteConstraint::Range(r) => branch(
                    "range"@,
                    seq![
                        leaf("minimum"@, hex_text(r.min as nat)),
                        leaf("maximum"@, hex_text(r.max as nat)),
                    ],
                ),
            },
        ],
    )
}

/// The element of a write constraint, where there is one.
pub open spec fn write_constraint_trees(w: Option<WriteConstraint>) -> Seq<Tree> {
    match w {
        Some(x) => seq![write_constraint_tree(x)],
        None => Seq::empty(),
    }
}

/// The element of one enumerated value.
pub open spec fn enumerated_value_tree(v: EnumeratedValue) -> Tree {
    branch(
        "enumeratedValue"@,
        Seq::<Tree>::empty() + seq![leaf("name"@, v.name@)] + opt_leaf(
            "description"@,
            opt_view(v.description),
        ) + opt_leaf("value"@, opt_dec(v.value)) + opt_leaf("isDefault"@, opt_bool(v.is_default)),
    )
}

/// The element of a set of enumerated values.
pub open spec fn enumerated_values_tree(e: EnumeratedValues) -> Tree {
    Tree {
        name: "enumeratedValues"@,
        attributes: derived_attributes(opt_view(e.derived_from)),
        text: None,
        children: Seq::<Tree>::empty() + opt_leaf("name"@, opt_view(e.name)) + opt_leaf(
            "usage"@,
            opt_usage(e.usage),
        ) + Seq::new(e.values@.len(), |i: int| enumerated_value_tree(e.values@[i])),
    }
}

/// Whether a bit range can be written in the form it remembers: the forms
/// that name the highest bit need one.
pub open spec fn bit_range_encodable(b: BitRange) -> bool {
    b.range_type == BitRangeType::OffsetWidth || (b.width >= 1 && b.msb_of() <= u32::MAX)
}

/// The text `[msb:lsb]` of a bit range.
pub open spec fn bit_range_text(b: BitRange) -> Seq<char> {
    seq!['['] + dec_text(b.msb_of() as nat) + seq![':'] + dec_text(b.lsb_of() as nat) + seq![']']
}

/// The elements of a bit range, in the form it remembers.
pub open spec fn bit_range_trees(b: BitRange) -> Seq<Tree> {
    match b.range_type {
        BitRangeType::OffsetWidth => seq![
            leaf("bitOffset"@, dec_text(b.offset as nat)),
            leaf("bitWidth"@, dec_text(b.width as nat)),
        ],
        BitRangeType::MsbLsb => seq![
            leaf("lsb"@, dec_text(b.lsb_of() as nat)),
            leaf("msb"@, dec_text(b.msb_of() as nat)),
        ],
        BitRangeType::BitRange => seq![leaf("bitRange"@, bit_range_text(b))],
    }
}

/// The labels of an array joined by commas.
pub open spec fn joined(labels: Seq<String>) -> Seq<char>
    decreases labels.len(),
{
    if labels.len() == 0 {
        Seq::empty()
    } else if labels.len() == 1 {
        labels[0]@
    } else {
        joined(labels.drop_last()) + seq![','] + labels.last()@
    }
}

/// The joined labels of an array description, where it has labels.
pub open spec fn opt_joined(v: Option<Vec<String>>) -> Option<Seq<char>> {
    match v {
        Some(x) => Some(joined(x@)),
        None => None,
    }
}

/// The element of the names for the indices of an array, where there are
/// any.
pub open spec fn array_index_trees(a: Option<DimArrayIndex>) -> Seq<Tree> {
    match a {
        Some(x) => seq![
            branch(
                "dimArrayIndex"@,
                Seq::<Tree>::empty() + opt_leaf("headerEnumName"@, opt_view(x.header_enum_name))
                    + Seq::new(x.values@.len(), |i: int| enumerated_value_tree(x.values@[i])),
            ),
        ],
        None => Seq::empty(),
    }
}

/// The elements of an array description.
pub open spec fn dim_trees(d: DimElement) -> Seq<Tree> {
    Seq::<Tree>::empty() + seq![leaf("dim"@, dec_text(d.dim as nat))] + seq![
        leaf("dimIncrement"@, hex_text(d.dim_increment as nat)),
    ] + opt_leaf("dimIndex"@, opt_joined(d.dim_index)) + opt_leaf("dimName"@, opt_view(d.dim_name))
        + array_index_trees(d.dim_array_index)
}

/// The elements of the sets of enumerated values of a field.
pub open spec fn sets_trees(s: Seq<EnumeratedValues>) -> Seq<Tree> {
    Seq::new(s.len(), |i: int| enumerated_values_tree(s[i]))
}

/// The child elements of a field.
pub open spec fn field_info_children(f: FieldInfo) -> Seq<Tree> {
    Seq::<Tree>::empty() + seq![leaf("name"@, f.name@)] + opt_leaf(
        "description"@,
        opt_view(f.description),
    ) + bit_range_trees(f.bit_range) + opt_leaf("access"@, opt_access(f.access)) + opt_leaf(
        "modifiedWriteValues"@,
        opt_modified(f.modified_write_values),
    ) + write_constraint_trees(f.write_constraint) + opt_leaf(
        "readAction"@,
        opt_read_action(f.read_action),
    ) + sets_trees(f.enumerated_values@)
}

/// The element of a field: the derivation reference is an attribute.
pub open spec fn field_info_tree(f: FieldInfo) -> Tree {
    Tree {
        name: "field"@,
        attributes: derived_attributes(opt_view(f.derived_from)),
        text: None,
        children: field_info_children(f),
    }
}

/// The element of a field or field array: the elements of the array
/// description come before the field's own.
pub open spec fn field_tree(f: Field) -> Tree {
    match f {
        Field::Single(info) => field_info_tree(info),
        Field::Array(info, dim) => Tree {
            name: "field"@,
            attributes: derived_attributes(opt_view(info.derived_from)),
            text: None,
            children: dim_trees(dim) + field_info_children(info),
        },
    }
}

/// Whether a field can be written down.
pub open spec fn field_encodable(f: Field) -> bool {
    bit_range_encodable(f.info().bit_range) && f.well_formed()
}

/// The error of encoding a field that cannot be written down: a broken
/// array description is found before a bit range without a highest bit.
pub open spec fn field_error(f: Field) -> EncodeError {
    if f.well_formed() {
        EncodeError::BitRange
    } else {
        EncodeError::IndexCountMismatch
    }
}

/// Whether `e` is the error of the first of the fields that cannot be
/// written down.
pub open spec fn first_field_error(fields: Seq<Field>, e: EncodeError) -> bool {
    exists|i: int|
        0 <= i < fields.len() && !field_encodable(#[trigger] fields[i]) && e == field_error(
            fields[i],
        ) && forall|j: int| 0 <= j < i ==> field_encodable(#[trigger] fields[j])
}

/// The elements of a sequence of fields.
pub open spec fn field_trees(s: Seq<Field>) -> Seq<Tree> {
    Seq::new(s.len(), |i: int| field_tree(s[i]))
}

/// Whether each field of these can be written down.
pub open spec fn fields_encodable(fields: Option<Vec<Field>>) -> bool {
    fields matches Some(v) ==> forall|i: int| 0 <= i < v@.len() ==> field_encodable(#[trigger] v@[i])
}

/// The `fields` element of a register, where it has a field.
pub open spec fn fields_trees(fields: Option<Vec<Field>>) -> Seq<Tree> {
    match fields {
        Some(v) => if v@.len() > 0 {
            seq![branch("fields"@, field_trees(v@))]
        } else {
            Seq::empty()
        },
        None => Seq::empty(),
    }
}

/// The child elements of a register.
pub open spec fn register_info_children(r: RegisterInfo) -> Seq<Tree> {
    Seq::<Tree>::empty() + seq![leaf("name"@, r.name@)] + opt_leaf(
        "displayName"@,
        opt_view(r.display_name),
    ) + opt_leaf("description"@, opt_view(r.description)) + opt_leaf(
        "alternateGroup"@,
        opt_view(r.alternate_group),
    ) + opt_leaf("alternateRegister"@, opt_view(r.alternate_register)) + seq![
        leaf("addressOffset"@, hex_text(r.address_offset as nat)),
    ] + properties_trees(r.properties) + opt_leaf(
        "modifiedWriteValues"@,
        opt_modified(r.modified_write_values),
    ) + write_constraint_trees(r.write_constraint) + opt_leaf(
        "readAction"@,
        opt_read_action(r.read_action),
    ) + fields_trees(r.fields)
}

/// The element of a register: the derivation reference is an attribute.
pub open spec fn register_info_tree(r: RegisterInfo) -> Tree {
    Tree {
        name: "register"@,
        attributes: derived_attributes(opt_view(r.derived_from)),
        text: None,
        children: register_info_children(r),
    }
}

/// The element of a register or register array: the elements of the array
/// description come before the register's own.
pub open spec fn register_tree(r: Register) -> Tree {
    match r {
        Register::Single(info) => register_info_tree(info),
        Register::Array(info, dim) => Tree {
            name: "register"@,
            attributes: derived_attributes(opt_view(info.derived_from)),
            text: None,
            children: dim_trees(dim) + register_info_children(info),
        },
    }
}

/// Whether a register can be written down.
pub open spec fn register_encodable(r: Register) -> bool {
    fields_encodable(r.info().fields) && r.well_formed()
}

fn bool_string(b: bool) -> (res: String)
    ensures
        res@ == bool_text(b),
{
    if b {
        "true".to_owned()
    } else {
        "false".to_owned()
    }
}

fn derived_attribute(d: &Option<String>) -> (res: Vec<Attribute>)
    ensures
        pairs(res@) == derived_attributes(opt_view(*d)),
{
    let mut out: Vec<Attribute> = Vec::new();
    match d {
        Some(v) => {
            out.push(Attribute { name: "derivedFrom".to_owned(), value: v.clone() });
            assert(pairs(out@) =~= derived_attributes(opt_view(*d)));
        },
        None => {
            assert(pairs(out@) =~= derived_attributes(opt_view(*d)));
        },
    }
    out
}

fn opt_text(text: &Option<String>) -> (res: Option<String>)
    ensures
        opt_view(res) == opt_view(*text),
{
    match text {
        Some(t) => Some(t.clone()),
        None => None,
    }
}

impl RegisterProperties {
    /// Encodes the properties that are set; one that is not set gives no
    /// element.
    pub fn encode(&self) -> (res: Vec<Element>)
        ensures
            trees(res@) == properties_trees(*self),
    {
        let mut out: Vec<Element> = Vec::new();
        assert(trees(out@) =~= Seq::<Tree>::empty());
        push_opt_leaf(
            &mut out,
            "size",
            match self.size {
                Some(v) => Some(format_hex(v as u64)),
                None => None,
            },
        );
        push_opt_leaf(
            &mut out,
            "access",
            match self.access {
                Some(v) => Some(v.as_str().to_owned()),
                None => None,
            },
        );
        push_opt_leaf(
            &mut out,
            "protection",
            match self.protection {
                Some(v) => Some(v.as_str().to_owned()),
                None => None,
            },
        );
        push_opt_leaf(
            &mut out,
            "resetValue",
            match self.reset_value {
                Some(v) => Some(format_hex_padded(v)),
                None => None,
            },
        );
        push_opt_leaf(
            &mut out,
            "resetMask",
            match self.reset_mask {
                Some(v) => Some(format_hex_padded(v)),
                None => None,
            },
        );
        out
    }
}

impl WriteConstraint {
    /// Encodes the write constraint.
    pub fn encode(&self) -> (res: Element)
        ensures
            res.tree() == write_constraint_tree(*self),
    {
        let inner: Element = match self {
            WriteConstraint::WriteAsRead(b) => Element::new_node("writeAsRead", bool_string(*b)),
            WriteConstraint::UseEnumeratedValues(b) => Element::new_node(
                "useEnumeratedValues",
                bool_string(*b),
            ),
            WriteConstraint::Range(r) => {
                let mut limits: Vec<Element> = Vec::new();
                assert(trees(limits@) =~= Seq::<Tree>::empty());
                push_leaf(&mut limits, "minimum", format_hex(r.min));
                push_leaf(&mut limits, "maximum", format_hex(r.max));
                assert(trees(limits@) =~= seq![
                    leaf("minimum"@, hex_text(r.min as nat)),
                    leaf("maximum"@, hex_text(r.max as nat)),
                ]);
                Element::with_children("range", limits)
            },
        };
        let mut children: Vec<Element> = Vec::new();
        children.push(inner);
        assert(trees(children@) =~= seq![inner.tree()]);
        Element::with_children("writeConstraint", children)
    }
}

fn push_write_constraint(children: &mut Vec<Element>, w: &Option<WriteConstraint>)
    ensures
        trees(final(children)@) == trees(old(children)@) + write_constraint_trees(*w),
{
    match w {
        Some(x) => {
            push_element(children, x.encode());
        },
        None => {
            assert(trees(children@) =~= trees(old(children)@) + Seq::<Tree>::empty());
        },
    }
}

impl EnumeratedValue {
    /// Encodes the enumerated value.
    pub fn encode(&self) -> (res: Element)
        ensures
            res.tree() == enumerated_value_tree(*self),
    {
        let mut out: Vec<Element> = Vec::new();
        assert(trees(out@) =~= Seq::<Tree>::empty());
        push_leaf(&mut out, "name", self.name.clone());
        push_opt_leaf(&mut out, "description", opt_text(&self.description));
        push_opt_leaf(
            &mut out,
            "value",
            match self.value {
                Some(v) => Some(format_dec(v)),
                None => None,
            },
        );
        push_opt_leaf(
            &mut out,
            "isDefault",
            match self.is_default {
                Some(v) => Some(bool_string(v)),
                None => None,
            },
        );
        Element::with_children("enumeratedValue", out)
    }
}

impl EnumeratedValues {
    /// Encodes the set of enumerated values.
    pub fn encode(&self) -> (res: Element)
        ensures
            res.tree() == enumerated_values_tree(*self),
    {
        let mut out: Vec<Element> = Vec::new();
        assert(trees(out@) =~= Seq::<Tree>::empty());
        push_opt_leaf(&mut out, "name", opt_text(&self.name));
        push_opt_leaf(
            &mut out,
            "usage",
            match self.usage {
                Some(v) => Some(v.as_str().to_owned()),
                None => None,
            },
        );
        let ghost head = trees(out@);
        let n: usize = self.values.len();
        let mut i: usize = 0;
        while i < n
            invariant
                n == self.values@.len(),
                i <= n,
                trees(out@) == head + Seq::new(
                    i as nat,
                    |k: int| enumerated_value_tree(self.values@[k]),
                ),
            decreases n - i,
        {
            let ghost before = trees(out@);
            push_element(&mut out, self.values[i].encode());
            assert(trees(out@) =~= head + Seq::new(
                (i + 1) as nat,
                |k: int| enumerated_value_tree(self.values@[k]),
            ));
            i += 1;
        }
        Element::assemble("enumeratedValues", derived_attribute(&self.derived_from), out)
    }
}

impl BitRange {
    /// Encodes the bit range in the form it remembers. A range that has to
    /// name its highest bit and has none cannot be encoded.
    pub fn encode(&self) -> (res: Result<Vec<Element>, EncodeError>)
        ensures
            bit_range_encodable(*self) ==> res is Ok && trees(res->Ok_0@) == bit_range_trees(*self),
            !bit_range_encodable(*self) ==> res == Err::<Vec<Element>, EncodeError>(
                EncodeError::BitRange,
            ),
    {
        let mut out: Vec<Element> = Vec::new();
        assert(trees(out@) =~= Seq::<Tree>::empty());
        match self.range_type {
            BitRangeType::OffsetWidth => {
                push_leaf(&mut out, "bitOffset", format_dec(self.offset as u64));
                push_leaf(&mut out, "bitWidth", format_dec(self.width as u64));
                assert(trees(out@) =~= bit_range_trees(*self));
                Ok(out)
            },
            BitRangeType::MsbLsb => {
                if self.width == 0 {
                    return Err(EncodeError::BitRange);
                }
                match self.msb() {
                    None => Err(EncodeError::BitRange),
                    Some(msb) => {
                        push_leaf(&mut out, "lsb", format_dec(self.lsb() as u64));
                        push_leaf(&mut out, "msb", format_dec(msb as u64));
                        assert(trees(out@) =~= bit_range_trees(*self));
                        Ok(out)
                    },
                }
            },
            BitRangeType::BitRange => {
                if self.width == 0 {
                    return Err(EncodeError::BitRange);
                }
                match self.msb() {
                    None => Err(EncodeError::BitRange),
                    Some(msb) => {
                        proof {
                            reveal_strlit("[");
                            reveal_strlit(":");
                            reveal_strlit("]");
                        }
                        let mut text: String = "[".to_owned();
                        assert(text@ =~= seq!['[']);
                        crate::number::push_dec(&mut text, msb as u64);
                        text.append(":");
                        assert(":"@ =~= seq![':']);
                        crate::number::push_dec(&mut text, self.lsb() as u64);
                        text.append("]");
                        assert("]"@ =~= seq![']']);
                        assert(text@ =~= bit_range_text(*self));
                        push_leaf(&mut out, "bitRange", text);
                        assert(trees(out@) =~= bit_range_trees(*self));
                        Ok(out)
                    },
                }
            },
        }
    }
}

/// Joins the labels of an array by commas.
pub fn join_labels(labels: &Vec<String>) -> (res: String)
    ensures
        res@ == joined(labels@),
{
    let mut out: String = String::new();
    let n: usize = labels.len();
    let mut i: usize = 0;
    assert(labels@.subrange(0, 0) =~= Seq::<String>::empty());
    while i < n
        invariant
            n == labels@.len(),
            i <= n,
            out@ == joined(labels@.subrange(0, i as int)),
        decreases n - i,
    {
        let ghost before = labels@.subrange(0, i as int);
        let ghost after = labels@.subrange(0, i + 1);
        assert(after.drop_last() =~= before);
        if i > 0 {
            proof {
                reveal_strlit(",");
            }
            out.append(",");
            assert(","@ =~= seq![',']);
        }
        out.append(labels[i].as_str());
        assert(out@ =~= joined(after));
        i += 1;
    }
    assert(labels@.subrange(0, n as int) =~= labels@);
    out
}

impl DimArrayIndex {
    /// Encodes the names for the indices of an array.
    pub fn encode(&self) -> (res: Element)
        ensures
            seq![res.tree()] == array_index_trees(Some(*self)),
    {
        let mut out: Vec<Element> = Vec::new();
        assert(trees(out@) =~= Seq::<Tree>::empty());
        push_opt_leaf(&mut out, "headerEnumName", opt_text(&self.header_enum_name));
        let ghost head = trees(out@);
        let n: usize = self.values.len();
        let mut i: usize = 0;
        while i < n
            invariant
                n == self.values@.len(),
                i <= n,
                trees(out@) == head + Seq::new(
                    i as nat,
                    |k: int| enumerated_value_tree(self.values@[k]),
                ),
            decreases n - i,
        {
            push_element(&mut out, self.values[i].encode());
            assert(trees(out@) =~= head + Seq::new(
                (i + 1) as nat,
                |k: int| enumerated_value_tree(self.values@[k]),
            ));
            i += 1;
        }
        Element::with_children("dimArrayIndex", out)
    }
}

impl DimElement {
    /// Encodes the array description. One whose labels do not match its
    /// count cannot be encoded.
    pub fn encode(&self) -> (res: Result<Vec<Element>, EncodeError>)
        ensures
            self.well_formed() ==> res is Ok && trees(res->Ok_0@) == dim_trees(*self),
            !self.well_formed() ==> res == Err::<Vec<Element>, EncodeError>(
                EncodeError::IndexCountMismatch,
            ),
    {
        if !self.is_well_formed() {
            return Err(EncodeError::IndexCountMismatch);
        }
        let mut out: Vec<Element> = Vec::new();
        assert(trees(out@) =~= Seq::<Tree>::empty());
        push_leaf(&mut out, "dim", format_dec(self.dim as u64));
        push_leaf(&mut out, "dimIncrement", format_hex(self.dim_increment as u64));
        push_opt_leaf(
            &mut out,
            "dimIndex",
            match &self.dim_index {
                Some(v) => Some(join_labels(v)),
                None => None,
            },
        );
        push_opt_leaf(&mut out, "dimName", opt_text(&self.dim_name));
        let ghost head = trees(out@);
        match &self.dim_array_index {
            Some(x) => {
                push_element(&mut out, x.encode());
            },
            None => {
                assert(trees(out@) =~= head + Seq::<Tree>::empty());
            },
        }
        Ok(out)
    }
}

fn encode_sets(sets: &Vec<EnumeratedValues>) -> (res: Vec<Element>)
    ensures
        trees(res@) == sets_trees(sets@),
{
    let mut out: Vec<Element> = Vec::new();
    let n: usize = sets.len();
    let mut i: usize = 0;
    assert(trees(out@) =~= Seq::new(0nat, |k: int| enumerated_values_tree(sets@[k])));
    while i < n
        invariant
            n == sets@.len(),
            i <= n,
            trees(out@) == Seq::new(i as nat, |k: int| enumerated_values_tree(sets@[k])),
        decreases n - i,
    {
        push_element(&mut out, sets[i].encode());
        assert(trees(out@) =~= Seq::new((i + 1) as nat, |k: int| enumerated_values_tree(sets@[k])));
        i += 1;
    }
    assert(trees(out@) =~= sets_trees(sets@));
    out
}

impl FieldInfo {
    /// Encodes the child elements of the field.
    pub fn encode_children(&self) -> (res: Result<Vec<Element>, EncodeError>)
        ensures
            bit_range_encodable(self.bit_range) ==> res is Ok && trees(res->Ok_0@)
                == field_info_children(*self),
            !bit_range_encodable(self.bit_range) ==> res == Err::<Vec<Element>, EncodeError>(
                EncodeError::BitRange,
            ),
    {
        let range: Vec<Element> = self.bit_range.encode()?;
        let mut out: Vec<Element> = Vec::new();
        assert(trees(out@) =~= Seq::<Tree>::empty());
        push_leaf(&mut out, "name", self.name.clone());
        push_opt_leaf(&mut out, "description", opt_text(&self.description));
        append_elements(&mut out, range);
        push_opt_leaf(
            &mut out,
            "access",
            match self.access {
                Some(v) => Some(v.as_str().to_owned()),
                None => None,
            },
        );
        push_opt_leaf(
            &mut out,
            "modifiedWriteValues",
            match self.modified_write_values {
                Some(v) => Some(v.as_str().to_owned()),
                None => None,
            },
        );
        push_write_constraint(&mut out, &self.write_constraint);
        push_opt_leaf(
            &mut out,
            "readAction",
            match self.read_action {
                Some(v) => Some(v.as_str().to_owned()),
                None => None,
            },
        );
        append_elements(&mut out, encode_sets(&self.enumerated_values));
        Ok(out)
    }

    /// Encodes the field as a `field` element.
    pub fn encode(&self) -> (res: Result<Element, EncodeError>)
        ensures
            bit_range_encodable(self.bit_range) ==> res is Ok && res->Ok_0.tree()
                == field_info_tree(*self),
            !bit_range_encodable(self.bit_range) ==> res == Err::<Element, EncodeError>(
                EncodeError::BitRange,
            ),
    {
        let children: Vec<Element> = self.encode_children()?;
        Ok(Element::assemble("field", derived_attribute(&self.derived_from), children))
    }
}

impl Field {
    /// Encodes the field or field array as a `field` element; the elements
    /// of the array description come first.
    pub fn encode(&self) -> (res: Result<Element, EncodeError>)
        ensures
            res is Ok <==> field_encodable(*self),
            res is Ok ==> res->Ok_0.tree() == field_tree(*self),
            res is Err ==> res->Err_0 == (if self.well_formed() {
                EncodeError::BitRange
            } else {
                EncodeError::IndexCountMismatch
            }),
    {
        match self {
            Field::Single(info) => info.encode(),
            Field::Array(info, dim) => {
                let mut children: Vec<Element> = dim.encode()?;
                let own: Vec<Element> = info.encode_children()?;
                append_elements(&mut children, own);
                Ok(Element::assemble("field", derived_attribute(&info.derived_from), children))
            },
        }
    }
}

/// Encodes the fields of a register, in order.
fn encode_fields(fields: &Vec<Field>) -> (res: Result<Vec<Element>, EncodeError>)
    ensures
        res is Ok <==> forall|i: int| 0 <= i < fields@.len() ==> field_encodable(#[trigger] fields@[i]),
        res is Ok ==> trees(res->Ok_0@) == field_trees(fields@),
        res is Err ==> first_field_error(fields@, res->Err_0),
{
    let mut out: Vec<Element> = Vec::new();
    let n: usize = fields.len();
    let mut i: usize = 0;
    assert(trees(out@) =~= Seq::new(0nat, |k: int| field_tree(fields@[k])));
    while i < n
        invariant
            n == fields@.len(),
            i <= n,
            forall|j: int| 0 <= j < i ==> field_encodable(#[trigger] fields@[j]),
            trees(out@) == Seq::new(i as nat, |k: int| field_tree(fields@[k])),
        decreases n - i,
    {
        match fields[i].encode() {
            Ok(e) => {
                push_element(&mut out, e);
            },
            Err(e) => {
                assert(!field_encodable(fields@[i as int]));
                assert(e == field_error(fields@[i as int]));
                return Err(e);
            },
        }
        assert(trees(out@) =~= Seq::new((i + 1) as nat, |k: int| field_tree(fields@[k])));
        i += 1;
    }
    assert(trees(out@) =~= field_trees(fields@));
    Ok(out)
}

impl RegisterInfo {
    /// Encodes the child elements of the register.
    pub fn encode_children(&self) -> (res: Result<Vec<Element>, EncodeError>)
        ensures
            res is Ok <==> fields_encodable(self.fields),
            res is Ok ==> trees(res->Ok_0@) == register_info_children(*self),
            res is Err ==> first_field_error(self.fields->0@, res->Err_0),
    {
        let mut out: Vec<Element> = Vec::new();
        assert(trees(out@) =~= Seq::<Tree>::empty());
        push_leaf(&mut out, "name", self.name.clone());
        push_opt_leaf(&mut out, "displayName", opt_text(&self.display_name));
        push_opt_leaf(&mut out, "description", opt_text(&self.description));
        push_opt_leaf(&mut out, "alternateGroup", opt_text(&self.alternate_group));
        push_opt_leaf(&mut out, "alternateRegister", opt_text(&self.alternate_register));
        push_leaf(&mut out, "addressOffset", format_hex(self.address_offset as u64));
        append_elements(&mut out, self.properties.encode());
        push_opt_leaf(
            &mut out,
            "modifiedWriteValues",
            match self.modified_write_values {
                Some(v) => Some(v.as_str().to_owned()),
                None => None,
            },
        );
        push_write_constraint(&mut out, &self.write_constraint);
        push_opt_leaf(
            &mut out,
            "readAction",
            match self.read_action {
                Some(v) => Some(v.as_str().to_owned()),
                None => None,
            },
        );
        let ghost head = trees(out@);
        match &self.fields {
            Some(v) => {
                let children: Vec<Element> = encode_fields(v)?;
                assert(trees(children@).len() == children@.len());
                assert(field_trees(v@).len() == v@.len());
                if children.len() > 0 {
                    push_element(&mut out, Element::with_children("fields", children));
                } else {
                    assert(trees(out@) =~= head + Seq::<Tree>::empty());
                }
            },
            None => {
                assert(trees(out@) =~= head + Seq::<Tree>::empty());
            },
        }
        Ok(out)
    }

    /// Encodes the register as a `register` element: a child for every
    /// required field and for every optional field that is set, the address
    /// offset in hexadecimal, the properties that the register sets itself,
    /// and the derivation reference as an attribute.
    pub fn encode(&self) -> (res: Result<Element, EncodeError>)
        ensures
            res is Ok <==> fields_encodable(self.fields),
            res is Ok ==> res->Ok_0.tree() == register_info_tree(*self),
            res is Err ==> first_field_error(self.fields->0@, res->Err_0),
    {
        let children: Vec<Element> = self.encode_children()?;
        Ok(Element::assemble("register", derived_attribute(&self.derived_from), children))
    }
}

impl Register {
    /// Encodes the register or register array as a `register` element; the
    /// elements of the array description come first.
    pub fn encode(&self) -> (res: Result<Element, EncodeError>)
        ensures
            res is Ok <==> register_encodable(*self),
            res is Ok ==> res->Ok_0.tree() == register_tree(*self),
            res is Err && !self.well_formed() ==> res->Err_0 == EncodeError::IndexCountMismatch,
            res is Err && self.well_formed() ==> first_field_error(
                self.info().fields->0@,
                res->Err_0,
            ),
    {
        match self {
            Register::Single(info) => info.encode(),
            Register::Array(info, dim) => {
                let mut children: Vec<Element> = dim.encode()?;
                let own: Vec<Element> = info.encode_children()?;
                append_elements(&mut children, own);
                Ok(Element::assemble("register", derived_attribute(&info.derived_from), children))
            },
        }
    }
}

impl Endian {
    /// Encodes the byte order as an `endian` element.
    pub fn encode(&self) -> (res: Element)
        ensures
            res.tree() == leaf("endian"@, self.text()),
    {
        Element::new_node("endian", self.as_str().to_owned())
    }
}

} // verus!
