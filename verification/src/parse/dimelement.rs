use vstd::prelude::*;
use vstd::string::*;
use crate::dimelement::{DimArrayIndex, DimElement};
use crate::enumeratedvalue::EnumeratedValue;
use crate::parse::elementext::{pointed, with_tag};
use crate::parse::enumeratedvalue::{
    enumerated_value_of, enumerated_value_ok, enumerated_values_from,
};
use crate::validate_level::ValidateLevel;
use crate::encode::{dim_trees, joined, opt_joined};
use crate::fieldinfo::opt_view;
use crate::number::{dec_text, hex_text};
use crate::parse::elementext::{child_text, child_u32, lemma_child_lookup, text_ok};
use crate::parse::error::{refused, Config, SVDErrorAt};
use crate::tree::{
    leaf, lemma_none_named_both, lemma_other_leaf, opt_leaf, trees, Element, Tree,
};

verus! {

/// The pieces of a text between its commas, in order; a text without a
/// comma is one piece.
pub open spec fn split_commas(s: Seq<char>) -> Seq<Seq<char>>
    decreases s.len(),
{
    if s.len() == 0 {
        seq![Seq::<char>::empty()]
    } else {
        let p = split_commas(s.drop_last());
        if s.last() == ',' {
            p.push(Seq::<char>::empty())
        } else {
            p.drop_last().push(p.last().push(s.last()))
        }
    }
}

/// The characters of each label.
pub open spec fn label_views(labels: Seq<String>) -> Seq<Seq<char>> {
    Seq::new(labels.len(), |i: int| labels[i]@)
}

/// The labels that a `dimIndex` child gives, where there is one.
pub open spec fn labels_of(tree: Element) -> Option<Seq<Seq<char>>> {
    match child_text(tree, "dimIndex"@) {
        Some(t) => Some(split_commas(t@)),
        None => None,
    }
}

/// Whether `a` holds what the `dimArrayIndex` child of an element says:
/// nothing where there is no such child, else its header name and one
/// entry for each `enumeratedValue` child, each of which can be read and
/// passes validation at the given level.
pub open spec fn array_index_parsed(
    tree: Element,
    lvl: ValidateLevel,
    a: Option<DimArrayIndex>,
) -> bool {
    match tree.child("dimArrayIndex"@) {
        None => a is None,
        Some(c) => {
            &&& a is Some
            &&& text_ok(c, "headerEnumName"@)
            &&& opt_view(a->0.header_enum_name) == opt_view(child_text(c, "headerEnumName"@))
            &&& a->0.values@ == enumerated_values_from(with_tag(c.children@, "enumeratedValue"@))
            &&& forall|j: int|
                0 <= j < with_tag(c.children@, "enumeratedValue"@).len() ==> enumerated_value_ok(
                    #[trigger] with_tag(c.children@, "enumeratedValue"@)[j],
                    lvl,
                )
        },
    }
}

/// Whether the children of an element describe an array and `d` holds
/// what they say.
pub open spec fn dim_parsed(tree: Element, lvl: ValidateLevel, d: DimElement) -> bool {
    &&& array_index_parsed(tree, lvl, d.dim_array_index)
    &&& dim_ok(tree)
    &&& Some(d.dim) == child_u32(tree, "dim"@)
    &&& Some(d.dim_increment) == child_u32(tree, "dimIncrement"@)
    &&& match d.dim_index {
        Some(v) => Some(label_views(v@)),
        None => None,
    } == labels_of(tree)
    &&& opt_view(d.dim_name) == opt_view(child_text(tree, "dimName"@))
}

/// Whether the children of an element describe an array: count and
/// increment are numbers, and the labels, if any, are as many as the count.
pub open spec fn dim_ok(tree: Element) -> bool {
    &&& child_u32(tree, "dim"@) is Some
    &&& child_u32(tree, "dimIncrement"@) is Some
    &&& text_ok(tree, "dimIndex"@)
    &&& text_ok(tree, "dimName"@)
    &&& (labels_of(tree) matches Some(l) ==> l.len() == child_u32(tree, "dim"@)->0)
}

/// Splitting gives at least one piece.
pub proof fn lemma_split_nonempty(s: Seq<char>)
    ensures
        split_commas(s).len() >= 1,
    decreases s.len(),
{
    if s.len() > 0 {
        lemma_split_nonempty(s.drop_last());
    }
}

/// Text without a comma, put behind another text, only lengthens the last
/// piece.
pub proof fn lemma_split_append(s: Seq<char>, t: Seq<char>)
    requires
        forall|k: int| 0 <= k < t.len() ==> t[k] != ',',
    ensures
        split_commas(s).len() >= 1,
        split_commas(s + t) == split_commas(s).drop_last().push(split_commas(s).last() + t),
    decreases t.len(),
{
    lemma_split_nonempty(s);
    let p = split_commas(s);
    if t.len() == 0 {
        assert(s + t =~= s);
        assert(p.last() + t =~= p.last());
        assert(p.drop_last().push(p.last()) =~= p);
    } else {
        let head = t.drop_last();
        lemma_split_append(s, head);
        assert((s + t).drop_last() =~= s + head);
        assert((s + t).last() == t.last());
        let q = split_commas(s + head);
        assert(q.drop_last() =~= p.drop_last());
        assert((p.last() + head).push(t.last()) =~= p.last() + t);
    }
}

/// Labels that hold no comma come back as they were when they are joined
/// by commas and split again.
pub proof fn lemma_split_joined(labels: Seq<String>)
    requires
        labels.len() > 0,
        forall|i: int, k: int|
            0 <= i < labels.len() && 0 <= k < labels[i]@.len() ==> labels[i]@[k] != ',',
    ensures
        split_commas(joined(labels)) == label_views(labels),
    decreases labels.len(),
{
    let empty = Seq::<char>::empty();
    if labels.len() == 1 {
        lemma_split_append(empty, labels[0]@);
        assert(empty + labels[0]@ =~= labels[0]@);
        assert(split_commas(empty) =~= seq![empty]);
        assert(seq![empty].drop_last().push(seq![empty].last() + labels[0]@) =~= label_views(
            labels,
        ));
    } else {
        let front = labels.drop_last();
        lemma_split_joined(front);
        let a = joined(front);
        let b = a + seq![','];
        assert(b.drop_last() =~= a);
        assert(b.last() == ',');
        assert(split_commas(b) == label_views(front).push(empty));
        lemma_split_append(b, labels.last()@);
        let p = split_commas(b);
        assert(p.drop_last() =~= label_views(front));
        assert(p.last() + labels.last()@ =~= labels.last()@);
        assert(label_views(front).push(labels.last()@) =~= label_views(labels));
    }
}

/// Whether the labels of an array description, if it has any, can be told
/// apart in their joined text: there is at least one, and none holds a
/// comma.
pub open spec fn labels_separable(d: DimElement) -> bool {
    d.dim_index matches Some(v) ==> v@.len() > 0 && forall|i: int, k: int|
        0 <= i < v@.len() && 0 <= k < v@[i]@.len() ==> v@[i]@[k] != ','
}

/// The four tags of an array description differ from each other.
pub proof fn lemma_dim_tags_differ()
    ensures
        "dim"@ != "dimIncrement"@,
        "dim"@ != "dimIndex"@,
        "dim"@ != "dimName"@,
        "dimIncrement"@ != "dimIndex"@,
        "dimIncrement"@ != "dimName"@,
        "dimIndex"@ != "dimName"@,
        "dimArrayIndex"@ != "dim"@,
        "dimArrayIndex"@ != "dimIncrement"@,
        "dimArrayIndex"@ != "dimIndex"@,
        "dimArrayIndex"@ != "dimName"@,
{
    reveal_strlit("dimArrayIndex");
    assert("dimArrayIndex"@.len() == 13);
    reveal_strlit("dim");
    reveal_strlit("dimIncrement");
    reveal_strlit("dimIndex");
    reveal_strlit("dimName");
    assert("dim"@.len() == 3 && "dimIncrement"@.len() == 12);
    assert("dimIndex"@.len() == 8 && "dimName"@.len() == 7);
}

/// An array description survives being written and read: an element
/// whose children are the encoding of a well-formed description `d` with
/// separable labels describes an array, and what it says is `d`.
pub proof fn lemma_dim_round_trip(e: Element, d: DimElement)
    requires
        trees(e.children@) == dim_trees(d),
        d.well_formed(),
        labels_separable(d),
        d.dim_array_index is None,
    ensures
        forall|lvl: ValidateLevel| dim_parsed(e, lvl, d),
{
    lemma_dim_tags_differ();
    let none = Seq::<Tree>::empty();
    let t1 = Some(dec_text(d.dim as nat));
    let t2 = Some(hex_text(d.dim_increment as nat));
    let t3 = opt_joined(d.dim_index);
    let t4 = opt_view(d.dim_name);
    let s1 = opt_leaf("dim"@, t1);
    let s2 = opt_leaf("dimIncrement"@, t2);
    let s3 = opt_leaf("dimIndex"@, t3);
    let s4 = opt_leaf("dimName"@, t4);
    assert(s1 =~= seq![leaf("dim"@, dec_text(d.dim as nat))]);
    assert(s2 =~= seq![leaf("dimIncrement"@, hex_text(d.dim_increment as nat))]);
    assert(dim_trees(d) =~= none + s1 + s2 + s3 + s4);

    lemma_other_leaf("dimIncrement"@, t2, "dim"@);
    lemma_other_leaf("dimIndex"@, t3, "dim"@);
    lemma_other_leaf("dimName"@, t4, "dim"@);
    lemma_none_named_both(s2, s3, "dim"@);
    lemma_none_named_both(s2 + s3, s4, "dim"@);
    lemma_child_lookup(e, none, "dim"@, t1, s2 + s3 + s4);
    crate::number::lemma_dec_text_reads_back(d.dim as nat, u32::MAX as nat);

    lemma_other_leaf("dim"@, t1, "dimIncrement"@);
    lemma_other_leaf("dimIndex"@, t3, "dimIncrement"@);
    lemma_other_leaf("dimName"@, t4, "dimIncrement"@);
    lemma_none_named_both(none, s1, "dimIncrement"@);
    lemma_none_named_both(s3, s4, "dimIncrement"@);
    lemma_child_lookup(e, none + s1, "dimIncrement"@, t2, s3 + s4);
    crate::number::lemma_hex_text_reads_back(d.dim_increment as nat, u32::MAX as nat);

    lemma_other_leaf("dim"@, t1, "dimIndex"@);
    lemma_other_leaf("dimIncrement"@, t2, "dimIndex"@);
    lemma_other_leaf("dimName"@, t4, "dimIndex"@);
    lemma_none_named_both(none, s1, "dimIndex"@);
    lemma_none_named_both(none + s1, s2, "dimIndex"@);
    lemma_child_lookup(e, none + s1 + s2, "dimIndex"@, t3, s4);
    if d.dim_index is Some {
        lemma_split_joined(d.dim_index->0@);
        assert(label_views(d.dim_index->0@).len() == d.dim_index->0@.len());
    }

    lemma_other_leaf("dim"@, t1, "dimName"@);
    lemma_other_leaf("dimIncrement"@, t2, "dimName"@);
    lemma_other_leaf("dimIndex"@, t3, "dimName"@);
    lemma_none_named_both(none, s1, "dimName"@);
    lemma_none_named_both(none + s1, s2, "dimName"@);
    lemma_none_named_both(none + s1 + s2, s3, "dimName"@);
    lemma_child_lookup(e, none + s1 + s2 + s3, "dimName"@, t4, none);

    lemma_other_leaf("dim"@, t1, "dimArrayIndex"@);
    lemma_other_leaf("dimIncrement"@, t2, "dimArrayIndex"@);
    lemma_other_leaf("dimIndex"@, t3, "dimArrayIndex"@);
    lemma_other_leaf("dimName"@, t4, "dimArrayIndex"@);
    lemma_none_named_both(none, s1, "dimArrayIndex"@);
    lemma_none_named_both(none + s1, s2, "dimArrayIndex"@);
    lemma_none_named_both(none + s1 + s2, s3, "dimArrayIndex"@);
    lemma_none_named_both(none + s1 + s2 + s3, s4, "dimArrayIndex"@);
    assert(dim_trees(d) =~= none + s1 + s2 + s3 + s4 + opt_leaf("dimArrayIndex"@, None) + none);
    lemma_child_lookup(e, none + s1 + s2 + s3 + s4, "dimArrayIndex"@, None, none);
}

/// Splits a text at its commas.
pub fn split_labels(text: &str) -> (res: Vec<String>)
    ensures
        label_views(res@) == split_commas(text@),
{
    let cs: Vec<char> = crate::text::chars_of(text);
    let n: usize = cs.len();
    let mut parts: Vec<String> = Vec::new();
    let mut start: usize = 0;
    let mut i: usize = 0;
    assert(text@.subrange(0, 0) =~= Seq::<char>::empty());
    assert(label_views(parts@).push(text@.subrange(0, 0)) =~= seq![Seq::<char>::empty()]);
    while i < n
        invariant
            cs@ == text@,
            n == cs@.len(),
            start <= i <= n,
            split_commas(text@.subrange(0, i as int)) == label_views(parts@).push(
                text@.subrange(start as int, i as int),
            ),
        decreases n - i,
    {
        let ghost before = text@.subrange(0, i as int);
        let ghost after = text@.subrange(0, i + 1);
        let ghost done = label_views(parts@);
        let ghost piece = text@.subrange(start as int, i as int);
        assert(after.drop_last() =~= before);
        assert(after.last() == cs@[i as int]);
        assert(done.push(piece).drop_last() =~= done);
        if cs[i] == ',' {
            parts.push(text.substring_char(start, i).to_owned());
            start = i + 1;
            assert(label_views(parts@) =~= done.push(piece));
            assert(text@.subrange(start as int, i + 1) =~= Seq::<char>::empty());
        } else {
            assert(text@.subrange(start as int, i + 1) =~= piece.push(cs@[i as int]));
        }
        i += 1;
    }
    assert(text@.subrange(0, n as int) =~= text@);
    let ghost done = label_views(parts@);
    parts.push(text.substring_char(start, n).to_owned());
    assert(label_views(parts@) =~= done.push(text@.subrange(start as int, n as int)));
    parts
}

/// Reads the names for the indices of an array from the `dimArrayIndex`
/// child of an entity's element, `None` where there is no such child.
pub fn parse_array_index(tree: &Element, config: &Config) -> (res: Result<
    Option<DimArrayIndex>,
    SVDErrorAt,
>)
    ensures
        res is Ok ==> array_index_parsed(*tree, config.validate_level, res->Ok_0),
        res is Err ==> forall|a: Option<DimArrayIndex>|
            !array_index_parsed(*tree, config.validate_level, a),
{
    match tree.get_child("dimArrayIndex") {
        None => Ok(None),
        Some(c) => {
            let header_enum_name: Option<String> = c.get_child_text_opt("headerEnumName")?;
            let elements: Vec<&Element> = c.children_with_tag("enumeratedValue");
            let ghost wanted = with_tag(c.children@, "enumeratedValue"@);
            assert(pointed(elements@).len() == elements@.len());
            let mut values: Vec<EnumeratedValue> = Vec::new();
            let n: usize = elements.len();
            let mut i: usize = 0;
            while i < n
                invariant
                    tree.child("dimArrayIndex"@) == Some(*c),
                    wanted == with_tag(c.children@, "enumeratedValue"@),
                    n == elements@.len(),
                    i <= n,
                    pointed(elements@) == wanted,
                    values@.len() == i,
                    forall|j: int|
                        0 <= j < i ==> values@[j] == enumerated_value_of(#[trigger] wanted[j]),
                    forall|j: int|
                        0 <= j < i ==> enumerated_value_ok(
                            #[trigger] wanted[j],
                            config.validate_level,
                        ),
                decreases n - i,
            {
                assert(wanted[i as int] == *elements@[i as int]);
                match EnumeratedValue::parse(elements[i], config) {
                    Ok(v) => {
                        values.push(v);
                    },
                    Err(e) => {
                        assert(!enumerated_value_ok(wanted[i as int], config.validate_level));
                        return Err(e);
                    },
                }
                i += 1;
            }
            assert(values@ =~= enumerated_values_from(wanted));
            Ok(Some(DimArrayIndex { header_enum_name, values }))
        },
    }
}

impl DimElement {
    /// Reads the description of an array from the children of an entity's
    /// element and builds it. Labels that do not match the count are
    /// refused, so no array with a broken invariant is ever handed out.
    pub fn parse(tree: &Element, config: &Config) -> (res: Result<DimElement, SVDErrorAt>)
        ensures
            res is Ok <==> exists|d: DimElement| dim_parsed(*tree, config.validate_level, d),
            res is Ok ==> dim_parsed(*tree, config.validate_level, res->Ok_0)
                && res->Ok_0.well_formed(),
            child_u32(*tree, "dim"@) is Some && child_u32(*tree, "dimIncrement"@) is Some
                && text_ok(*tree, "dimIndex"@) && text_ok(*tree, "dimName"@) && !dim_ok(*tree) && (
            exists|a: Option<DimArrayIndex>| array_index_parsed(*tree, config.validate_level, a))
                ==> res == Err::<DimElement, SVDErrorAt>(
                SVDErrorAt {
                    error: crate::parse::error::SVDError::Svd(
                        crate::error::SvdError::DimElement(
                            crate::dimelement::Error::IndexCountMismatch,
                        ),
                    ),
                    id: tree.id,
                },
            ),
    {
        let dim: u32 = tree.get_child_u32("dim")?;
        let dim_increment: u32 = tree.get_child_u32("dimIncrement")?;
        let dim_index: Option<Vec<String>> = match tree.get_child_text_opt("dimIndex")? {
            Some(t) => Some(split_labels(t.as_str())),
            None => None,
        };
        let dim_name: Option<String> = tree.get_child_text_opt("dimName")?;
        let dim_array_index: Option<DimArrayIndex> = parse_array_index(tree, config)?;
        proof {
            if dim_index is Some {
                assert(label_views(dim_index->0@).len() == dim_index->0@.len());
            }
        }
        match DimElement::builder().dim(dim).dim_increment(dim_increment).dim_index(
            dim_index,
        ).dim_name(dim_name).dim_array_index(dim_array_index).build(config.validate_level) {
            Ok(d) => {
                assert(dim_parsed(*tree, config.validate_level, d));
                Ok(d)
            },
            Err(e) => {
                assert forall|d: DimElement| !dim_parsed(*tree, config.validate_level, d) by {}
                Err(refused(e, tree.id))
            },
        }
    }
}

} // verus!
