use vstd::prelude::*;
use crate::enumeratedvalue::EnumeratedValue;
use crate::error::SvdError;
use crate::validate_level::ValidateLevel;

verus! {

/// Errors of building a [`DimElement`].
#[derive(Clone, Debug, PartialEq, Eq)]
pub enum Error {
    /// The number of index labels differs from the repeat count.
    IndexCountMismatch,
}

/// Names for the indices of an array, for use in a generated header.
#[derive(Clone, Debug, PartialEq, Eq)]
pub struct DimArrayIndex {
    /// Name of the enumeration in the header.
    pub header_enum_name: Option<String>,
    /// One entry for each named index.
    pub values: Vec<EnumeratedValue>,
}

/// How an entity repeats: the count, the address stride and the labels of
/// the instances.
#[derive(Clone, Debug, PartialEq, Eq)]
pub struct DimElement {
    /// Number of instances.
    pub dim: u32,
    /// Address distance between two instances.
    pub dim_increment: u32,
    /// Labels that replace the indices `0..dim`.
    pub dim_index: Option<Vec<String>>,
    /// Name of the structure in a generated header.
    pub dim_name: Option<String>,
    /// Names for the indices in a generated header.
    pub dim_array_index: Option<DimArrayIndex>,
}

/// Builder for [`DimElement`].
#[derive(Clone, Debug, PartialEq, Eq)]
pub struct DimElementBuilder {
    pub dim: Option<u32>,
    pub dim_increment: Option<u32>,
    pub dim_index: Option<Vec<String>>,
    pub dim_name: Option<String>,
    pub dim_array_index: Option<DimArrayIndex>,
}

/// Whether a list of labels, where there is one, has exactly `dim` entries.
pub open spec fn index_count_matches(dim: u32, dim_index: Option<Vec<String>>) -> bool {
    dim_index matches Some(v) ==> v@.len() == dim
}

impl DimElementBuilder {
    /// The builder with nothing set.
    pub open spec fn empty() -> DimElementBuilder {
        DimElementBuilder {
            dim: None,
            dim_increment: None,
            dim_index: None,
            dim_name: None,
            dim_array_index: None,
        }
    }

    /// Set the number of instances.
    pub fn dim(self, value: u32) -> (res: Self)
        ensures
            res == (DimElementBuilder { dim: Some(value), ..self }),
    {
        let mut b = self;
        b.dim = Some(value);
        b
    }

    /// Set the address distance between two instances.
    pub fn dim_increment(self, value: u32) -> (res: Self)
        ensures
            res == (DimElementBuilder { dim_increment: Some(value), ..self }),
    {
        let mut b = self;
        b.dim_increment = Some(value);
        b
    }

    /// Set the labels of the instances.
    pub fn dim_index(self, value: Option<Vec<String>>) -> (res: Self)
        ensures
            res == (DimElementBuilder { dim_index: value, ..self }),
    {
        let mut b = self;
        b.dim_index = value;
        b
    }

    /// Set the name of the structure in a generated header.
    pub fn dim_name(self, value: Option<String>) -> (res: Self)
        ensures
            res == (DimElementBuilder { dim_name: value, ..self }),
    {
        let mut b = self;
        b.dim_name = value;
        b
    }

    /// Set the names for the indices in a generated header.
    pub fn dim_array_index(self, value: Option<DimArrayIndex>) -> (res: Self)
        ensures
            res == (DimElementBuilder { dim_array_index: value, ..self }),
    {
        let mut b = self;
        b.dim_array_index = value;
        b
    }

    /// Validate and build a [`DimElement`]. A missing count, then a missing
    /// increment, is reported as uninitialized. A list of labels whose
    /// length differs from the count is refused at every level.
    pub fn build(self, lvl: ValidateLevel) -> (res: Result<DimElement, SvdError>)
        ensures
            self.dim is None ==> res is Err && res->Err_0.is_uninitialized("dim"@),
            self.dim is Some && self.dim_increment is None ==> res is Err
                && res->Err_0.is_uninitialized("dim_increment"@),
            self.dim is Some && self.dim_increment is Some && !index_count_matches(
                self.dim->0,
                self.dim_index,
            ) ==> res == Err::<DimElement, SvdError>(
                SvdError::DimElement(Error::IndexCountMismatch),
            ),
            self.dim is Some && self.dim_increment is Some && index_count_matches(
                self.dim->0,
                self.dim_index,
            ) ==> res == Ok::<DimElement, SvdError>(
                DimElement {
                    dim: self.dim->0,
                    dim_increment: self.dim_increment->0,
                    dim_index: self.dim_index,
                    dim_name: self.dim_name,
                    dim_array_index: self.dim_array_index,
                },
            ),
            res is Ok ==> res->Ok_0.well_formed(),
    {
        let dim: u32 = match self.dim {
            Some(d) => d,
            None => { return Err(crate::error::uninitialized("dim")); },
        };
        let dim_increment: u32 = match self.dim_increment {
            Some(d) => d,
            None => { return Err(crate::error::uninitialized("dim_increment")); },
        };
        let element = DimElement {
            dim,
            dim_increment,
            dim_index: self.dim_index,
            dim_name: self.dim_name,
            dim_array_index: self.dim_array_index,
        };
        if element.is_well_formed() {
            Ok(element)
        } else {
            Err(SvdError::DimElement(Error::IndexCountMismatch))
        }
    }
}

impl DimElement {
    /// The array invariant: a list of labels, where there is one, has
    /// exactly `dim` entries.
    pub open spec fn well_formed(&self) -> bool {
        index_count_matches(self.dim, self.dim_index)
    }

    /// Make a builder for [`DimElement`].
    pub fn builder() -> (res: DimElementBuilder)
        ensures
            res == DimElementBuilder::empty(),
    {
        DimElementBuilder {
            dim: None,
            dim_increment: None,
            dim_index: None,
            dim_name: None,
            dim_array_index: None,
        }
    }

    /// Decides the array invariant.
    pub fn is_well_formed(&self) -> (res: bool)
        ensures
            res == self.well_formed(),
    {
        match &self.dim_index {
            Some(v) => {
                let n: usize = v.len();
                n <= 0xffff_ffff && n as u64 == self.dim as u64
            },
            None => true,
        }
    }

    /// Validate the [`DimElement`]: the array invariant holds at every level.
    pub fn validate(&self, lvl: ValidateLevel) -> (res: Result<(), SvdError>)
        ensures
            self.well_formed() ==> res is Ok,
            !self.well_formed() ==> res == Err::<(), SvdError>(
                SvdError::DimElement(Error::IndexCountMismatch),
            ),
    {
        if self.is_well_formed() {
            Ok(())
        } else {
            Err(SvdError::DimElement(Error::IndexCountMismatch))
        }
    }
}

} // verus!
