use vstd::prelude::*;
use crate::access::Access;
use crate::protection::Protection;

verus! {

/// The register properties that one level of the hierarchy sets itself.
/// A property left unset is inherited on reading, and stays unset here.
#[derive(Clone, Copy, Debug, PartialEq, Eq, Structural)]
pub struct RegisterProperties {
    /// Bit width of the register.
    pub size: Option<u32>,
    /// Access rights.
    pub access: Option<Access>,
    /// Security privilege needed for access.
    pub protection: Option<Protection>,
    /// Value after reset.
    pub reset_value: Option<u64>,
    /// Bits of the reset value that are defined.
    pub reset_mask: Option<u64>,
}

/// The first of two optional values that is set.
pub open spec fn first_set<T>(own: Option<T>, inherited: Option<T>) -> Option<T> {
    if own is Some {
        own
    } else {
        inherited
    }
}

/// The properties seen at the head of `chain`, which lists the levels from
/// an entity upwards to the device: each property comes from the nearest
/// level that sets it.
pub open spec fn resolved(chain: Seq<RegisterProperties>) -> RegisterProperties
    decreases chain.len(),
{
    if chain.len() == 0 {
        RegisterProperties::unset()
    } else {
        chain[0].over(resolved(chain.subrange(1, chain.len() as int)))
    }
}

impl RegisterProperties {
    /// The properties with nothing set.
    pub open spec fn unset() -> RegisterProperties {
        RegisterProperties {
            size: None,
            access: None,
            protection: None,
            reset_value: None,
            reset_mask: None,
        }
    }

    /// Whether this level sets no property itself.
    pub open spec fn is_unset(self) -> bool {
        self == Self::unset()
    }

    /// These properties laid over those of the enclosing level.
    pub open spec fn over(self, parent: RegisterProperties) -> RegisterProperties {
        RegisterProperties {
            size: first_set(self.size, parent.size),
            access: first_set(self.access, parent.access),
            protection: first_set(self.protection, parent.protection),
            reset_value: first_set(self.reset_value, parent.reset_value),
            reset_mask: first_set(self.reset_mask, parent.reset_mask),
        }
    }

    /// The properties with nothing set.
    pub fn new() -> (res: RegisterProperties)
        ensures
            res == Self::unset(),
    {
        RegisterProperties {
            size: None,
            access: None,
            protection: None,
            reset_value: None,
            reset_mask: None,
        }
    }

    /// The properties in force where this level is enclosed by `parent`:
    /// each property is this level's own where set, else the parent's.
    pub fn inherit(&self, parent: &RegisterProperties) -> (res: RegisterProperties)
        ensures
            res == self.over(*parent),
    {
        RegisterProperties {
            size: if self.size.is_some() { self.size } else { parent.size },
            access: if self.access.is_some() { self.access } else { parent.access },
            protection: if self.protection.is_some() { self.protection } else { parent.protection },
            reset_value: if self.reset_value.is_some() { self.reset_value } else { parent.reset_value },
            reset_mask: if self.reset_mask.is_some() { self.reset_mask } else { parent.reset_mask },
        }
    }

    /// Takes over the properties that `other` sets and keeps the rest.
    pub fn modify_from(&mut self, other: RegisterProperties)
        ensures
            *final(self) == other.over(*old(self)),
    {
        if other.size.is_some() {
            self.size = other.size;
        }
        if other.access.is_some() {
            self.access = other.access;
        }
        if other.protection.is_some() {
            self.protection = other.protection;
        }
        if other.reset_value.is_some() {
            self.reset_value = other.reset_value;
        }
        if other.reset_mask.is_some() {
            self.reset_mask = other.reset_mask;
        }
    }
}

/// Resolves the properties in force at the head of a chain of levels, listed
/// from the entity upwards to the device. No level is changed.
pub fn resolve(chain: &Vec<RegisterProperties>) -> (res: RegisterProperties)
    ensures
        res == resolved(chain@),
{
    let mut acc: RegisterProperties = RegisterProperties::new();
    let mut i: usize = chain.len();
    assert(chain@.subrange(i as int, chain@.len() as int).len() == 0);
    while i > 0
        invariant
            i <= chain@.len(),
            acc == resolved(chain@.subrange(i as int, chain@.len() as int)),
        decreases i,
    {
        i -= 1;
        let ghost tail = chain@.subrange(i as int, chain@.len() as int);
        assert(tail.subrange(1, tail.len() as int) =~= chain@.subrange(i + 1, chain@.len() as int));
        acc = chain[i].inherit(&acc);
    }
    assert(chain@.subrange(0, chain@.len() as int) =~= chain@);
    acc
}

/// The head of a chain decides a property wherever it sets it.
pub proof fn lemma_own_property_wins(chain: Seq<RegisterProperties>)
    requires
        chain.len() > 0,
    ensures
        chain[0].size is Some ==> resolved(chain).size == chain[0].size,
        chain[0].access is Some ==> resolved(chain).access == chain[0].access,
        chain[0].protection is Some ==> resolved(chain).protection == chain[0].protection,
        chain[0].reset_value is Some ==> resolved(chain).reset_value == chain[0].reset_value,
        chain[0].reset_mask is Some ==> resolved(chain).reset_mask == chain[0].reset_mask,
{
}

/// A property that no level of the chain sets resolves to none.
pub proof fn lemma_unset_everywhere(chain: Seq<RegisterProperties>)
    requires
        forall|i: int| 0 <= i < chain.len() ==> (#[trigger] chain[i]).is_unset(),
    ensures
        resolved(chain).is_unset(),
    decreases chain.len(),
{
    if chain.len() > 0 {
        let tail = chain.subrange(1, chain.len() as int);
        assert forall|i: int| 0 <= i < tail.len() implies (#[trigger] tail[i]).is_unset() by {
            assert(tail[i] == chain[i + 1]);
        }
        lemma_unset_everywhere(tail);
    }
}

} // verus!
