use vstd::prelude::*;
use vstd::string::*;
use crate::encode::{opt_access, opt_hex, opt_padded, opt_protection, properties_trees};
use crate::parse::elementext::{child_u32, child_u64, lemma_child_lookup, u32_ok, u64_ok};
use crate::parse::error::SVDErrorAt;
use crate::parse::leaf::{
    access_ok, child_access, child_protection, optional_access, optional_protection,
    protection_ok,
};
use crate::registerproperties::RegisterProperties;
use crate::tree::{
    lemma_none_named_both, lemma_other_leaf, opt_leaf, trees, Element, Tree,
};

verus! {

/// The register properties that an element's children set: one that has no
/// child stays unset.
pub open spec fn properties_of(tree: Element) -> RegisterProperties {
    RegisterProperties {
        size: child_u32(tree, "size"@),
        access: child_access(tree, "access"@),
        protection: child_protection(tree, "protection"@),
        reset_value: child_u64(tree, "resetValue"@),
        reset_mask: child_u64(tree, "resetMask"@),
    }
}

/// Whether every property child that an element has can be read.
pub open spec fn properties_ok(tree: Element) -> bool {
    &&& u32_ok(tree, "size"@)
    &&& access_ok(tree, "access"@)
    &&& protection_ok(tree, "protection"@)
    &&& u64_ok(tree, "resetValue"@)
    &&& u64_ok(tree, "resetMask"@)
}

/// Whether an element has none of the property children.
pub open spec fn sets_no_property(tree: Element) -> bool {
    &&& tree.child("size"@) is None
    &&& tree.child("access"@) is None
    &&& tree.child("protection"@) is None
    &&& tree.child("resetValue"@) is None
    &&& tree.child("resetMask"@) is None
}

impl RegisterProperties {
    /// Reads the register properties that an entity sets itself from the
    /// children of its element.
    pub fn parse(tree: &Element) -> (res: Result<RegisterProperties, SVDErrorAt>)
        ensures
            res is Ok <==> properties_ok(*tree),
            res is Ok ==> res->Ok_0 == properties_of(*tree),
    {
        let size: Option<u32> = tree.get_child_u32_opt("size")?;
        let access = optional_access(tree, "access")?;
        let protection = optional_protection(tree, "protection")?;
        let reset_value: Option<u64> = tree.get_child_u64_opt("resetValue")?;
        let reset_mask: Option<u64> = tree.get_child_u64_opt("resetMask")?;
        Ok(RegisterProperties { size, access, protection, reset_value, reset_mask })
    }
}

/// The five property tags differ from each other.
pub proof fn lemma_property_tags_differ()
    ensures
        "size"@ != "access"@,
        "size"@ != "protection"@,
        "size"@ != "resetValue"@,
        "size"@ != "resetMask"@,
        "access"@ != "protection"@,
        "access"@ != "resetValue"@,
        "access"@ != "resetMask"@,
        "protection"@ != "resetValue"@,
        "protection"@ != "resetMask"@,
        "resetValue"@ != "resetMask"@,
{
    reveal_strlit("size");
    reveal_strlit("access");
    reveal_strlit("protection");
    reveal_strlit("resetValue");
    reveal_strlit("resetMask");
    assert("size"@.len() == 4 && "access"@.len() == 6 && "protection"@.len() == 10);
    assert("resetValue"@.len() == 10 && "resetMask"@.len() == 9);
    assert("protection"@[0] != "resetValue"@[0]);
}

/// The size survives being written and read.
pub proof fn lemma_size_round_trip(e: Element, p: RegisterProperties)
    requires
        trees(e.children@) == properties_trees(p),
    ensures
        u32_ok(e, "size"@),
        child_u32(e, "size"@) == p.size,
{
    lemma_property_tags_differ();
    let tag = "size"@;
    let none = Seq::<Tree>::empty();
    let s2 = opt_leaf("access"@, opt_access(p.access));
    let s3 = opt_leaf("protection"@, opt_protection(p.protection));
    let s4 = opt_leaf("resetValue"@, opt_padded(p.reset_value));
    let s5 = opt_leaf("resetMask"@, opt_padded(p.reset_mask));
    lemma_other_leaf("access"@, opt_access(p.access), tag);
    lemma_other_leaf("protection"@, opt_protection(p.protection), tag);
    lemma_other_leaf("resetValue"@, opt_padded(p.reset_value), tag);
    lemma_other_leaf("resetMask"@, opt_padded(p.reset_mask), tag);
    lemma_none_named_both(s2, s3, tag);
    lemma_none_named_both(s2 + s3, s4, tag);
    lemma_none_named_both(s2 + s3 + s4, s5, tag);
    lemma_child_lookup(e, none, tag, opt_hex(p.size), s2 + s3 + s4 + s5);
    if p.size is Some {
        crate::number::lemma_hex_text_reads_back(p.size->0 as nat, u32::MAX as nat);
    }
}

/// The access survives being written and read.
pub proof fn lemma_access_round_trip(e: Element, p: RegisterProperties)
    requires
        trees(e.children@) == properties_trees(p),
    ensures
        access_ok(e, "access"@),
        child_access(e, "access"@) == p.access,
{
    lemma_property_tags_differ();
    let tag = "access"@;
    let none = Seq::<Tree>::empty();
    let s1 = opt_leaf("size"@, opt_hex(p.size));
    let s3 = opt_leaf("protection"@, opt_protection(p.protection));
    let s4 = opt_leaf("resetValue"@, opt_padded(p.reset_value));
    let s5 = opt_leaf("resetMask"@, opt_padded(p.reset_mask));
    lemma_other_leaf("size"@, opt_hex(p.size), tag);
    lemma_other_leaf("protection"@, opt_protection(p.protection), tag);
    lemma_other_leaf("resetValue"@, opt_padded(p.reset_value), tag);
    lemma_other_leaf("resetMask"@, opt_padded(p.reset_mask), tag);
    lemma_none_named_both(none, s1, tag);
    lemma_none_named_both(s3, s4, tag);
    lemma_none_named_both(s3 + s4, s5, tag);
    lemma_child_lookup(e, none + s1, tag, opt_access(p.access), s3 + s4 + s5);
    if p.access is Some {
        p.access->0.lemma_text_round_trip();
    }
}

/// The protection survives being written and read.
pub proof fn lemma_protection_round_trip(e: Element, p: RegisterProperties)
    requires
        trees(e.children@) == properties_trees(p),
    ensures
        protection_ok(e, "protection"@),
        child_protection(e, "protection"@) == p.protection,
{
    lemma_property_tags_differ();
    let tag = "protection"@;
    let none = Seq::<Tree>::empty();
    let s1 = opt_leaf("size"@, opt_hex(p.size));
    let s2 = opt_leaf("access"@, opt_access(p.access));
    let s4 = opt_leaf("resetValue"@, opt_padded(p.reset_value));
    let s5 = opt_leaf("resetMask"@, opt_padded(p.reset_mask));
    lemma_other_leaf("size"@, opt_hex(p.size), tag);
    lemma_other_leaf("access"@, opt_access(p.access), tag);
    lemma_other_leaf("resetValue"@, opt_padded(p.reset_value), tag);
    lemma_other_leaf("resetMask"@, opt_padded(p.reset_mask), tag);
    lemma_none_named_both(none, s1, tag);
    lemma_none_named_both(none + s1, s2, tag);
    lemma_none_named_both(s4, s5, tag);
    lemma_child_lookup(e, none + s1 + s2, tag, opt_protection(p.protection), s4 + s5);
    if p.protection is Some {
        p.protection->0.lemma_text_round_trip();
    }
}

/// The reset value survives being written and read.
pub proof fn lemma_reset_value_round_trip(e: Element, p: RegisterProperties)
    requires
        trees(e.children@) == properties_trees(p),
    ensures
        u64_ok(e, "resetValue"@),
        child_u64(e, "resetValue"@) == p.reset_value,
{
    lemma_property_tags_differ();
    let tag = "resetValue"@;
    let none = Seq::<Tree>::empty();
    let s1 = opt_leaf("size"@, opt_hex(p.size));
    let s2 = opt_leaf("access"@, opt_access(p.access));
    let s3 = opt_leaf("protection"@, opt_protection(p.protection));
    let s5 = opt_leaf("resetMask"@, opt_padded(p.reset_mask));
    lemma_other_leaf("size"@, opt_hex(p.size), tag);
    lemma_other_leaf("access"@, opt_access(p.access), tag);
    lemma_other_leaf("protection"@, opt_protection(p.protection), tag);
    lemma_other_leaf("resetMask"@, opt_padded(p.reset_mask), tag);
    lemma_none_named_both(none, s1, tag);
    lemma_none_named_both(none + s1, s2, tag);
    lemma_none_named_both(none + s1 + s2, s3, tag);
    lemma_child_lookup(e, none + s1 + s2 + s3, tag, opt_padded(p.reset_value), s5);
    if p.reset_value is Some {
        crate::number::lemma_padded_text_reads_back(p.reset_value->0 as nat, u64::MAX as nat);
    }
}

/// The reset mask survives being written and read.
pub proof fn lemma_reset_mask_round_trip(e: Element, p: RegisterProperties)
    requires
        trees(e.children@) == properties_trees(p),
    ensures
        u64_ok(e, "resetMask"@),
        child_u64(e, "resetMask"@) == p.reset_mask,
{
    lemma_property_tags_differ();
    let tag = "resetMask"@;
    let none = Seq::<Tree>::empty();
    let s1 = opt_leaf("size"@, opt_hex(p.size));
    let s2 = opt_leaf("access"@, opt_access(p.access));
    let s3 = opt_leaf("protection"@, opt_protection(p.protection));
    let s4 = opt_leaf("resetValue"@, opt_padded(p.reset_value));
    lemma_other_leaf("size"@, opt_hex(p.size), tag);
    lemma_other_leaf("access"@, opt_access(p.access), tag);
    lemma_other_leaf("protection"@, opt_protection(p.protection), tag);
    lemma_other_leaf("resetValue"@, opt_padded(p.reset_value), tag);
    lemma_none_named_both(none, s1, tag);
    lemma_none_named_both(none + s1, s2, tag);
    lemma_none_named_both(none + s1 + s2, s3, tag);
    lemma_none_named_both(none + s1 + s2 + s3, s4, tag);
    lemma_child_lookup(e, none + s1 + s2 + s3 + s4, tag, opt_padded(p.reset_mask), none);
    if p.reset_mask is Some {
        crate::number::lemma_padded_text_reads_back(p.reset_mask->0 as nat, u64::MAX as nat);
    }
}

/// The register properties survive being written and read: an element
/// whose children are the encoding of `p` holds properties that can be
/// read, and they are `p`.
pub proof fn lemma_properties_round_trip(e: Element, p: RegisterProperties)
    requires
        trees(e.children@) == properties_trees(p),
    ensures
        properties_ok(e),
        properties_of(e) == p,
{
    lemma_size_round_trip(e, p);
    lemma_access_round_trip(e, p);
    lemma_protection_round_trip(e, p);
    lemma_reset_value_round_trip(e, p);
    lemma_reset_mask_round_trip(e, p);
}

/// An entity whose element has no property child sets no property, and its
/// properties encode to no element: what it inherits is never written out
/// as its own.
pub proof fn lemma_unset_properties_stay_unset(tree: Element)
    requires
        sets_no_property(tree),
    ensures
        properties_ok(tree),
        properties_of(tree).is_unset(),
        properties_trees(properties_of(tree)) =~= Seq::empty(),
{
}

} // verus!
