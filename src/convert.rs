//! Conversions into a category from integers of every width and from text.
use crate::category::{Error, ProductCategory};
use vstd::prelude::*;

verus! {

/// Resolves an integer as a taxonomy id. Negative values fail without a lookup.
impl TryFrom<i8> for ProductCategory {
    type Error = Error;

    fn try_from(value: i8) -> Result<Self, Error> {
        if value < 0 {
            return Err(Error::IdNotFound);
        }
        Self::from_id(value as u32)
    }
}

impl vstd::std_specs::convert::TryFromSpecImpl<i8> for ProductCategory {
    open spec fn obeys_try_from_spec() -> bool {
        true
    }

    open spec fn try_from_spec(value: i8) -> Result<Self, Error> {
        ProductCategory::spec_from_int(value as int)
    }
}

/// Resolves an integer as a taxonomy id. Negative values fail without a lookup.
impl TryFrom<i16> for ProductCategory {
    type Error = Error;

    fn try_from(value: i16) -> Result<Self, Error> {
        if value < 0 {
            return Err(Error::IdNotFound);
        }
        Self::from_id(value as u32)
    }
}

impl vstd::std_specs::convert::TryFromSpecImpl<i16> for ProductCategory {
    open spec fn obeys_try_from_spec() -> bool {
        true
    }

    open spec fn try_from_spec(value: i16) -> Result<Self, Error> {
        ProductCategory::spec_from_int(value as int)
    }
}

/// Resolves an integer as a taxonomy id. Negative values fail without a lookup.
impl TryFrom<i32> for ProductCategory {
    type Error = Error;

    fn try_from(value: i32) -> Result<Self, Error> {
        if value < 0 {
            return Err(Error::IdNotFound);
        }
        Self::from_id(value as u32)
    }
}

impl vstd::std_specs::convert::TryFromSpecImpl<i32> for ProductCategory {
    open spec fn obeys_try_from_spec() -> bool {
        true
    }

    open spec fn try_from_spec(value: i32) -> Result<Self, Error> {
        ProductCategory::spec_from_int(value as int)
    }
}

/// Resolves an integer as a taxonomy id. Negative values, and values above `u32::MAX`, fail without a lookup.
impl TryFrom<i64> for ProductCategory {
    type Error = Error;

    fn try_from(value: i64) -> Result<Self, Error> {
        if value < 0 || value as i128 > u32::MAX as i128 {
            return Err(Error::IdNotFound);
        }
        Self::from_id(value as u32)
    }
}

impl vstd::std_specs::convert::TryFromSpecImpl<i64> for ProductCategory {
    open spec fn obeys_try_from_spec() -> bool {
        true
    }

    open spec fn try_from_spec(value: i64) -> Result<Self, Error> {
        ProductCategory::spec_from_int(value as int)
    }
}

/// Resolves an integer as a taxonomy id. Negative values, and values above `u32::MAX`, fail without a lookup.
impl TryFrom<isize> for ProductCategory {
    type Error = Error;

    fn try_from(value: isize) -> Result<Self, Error> {
        if value < 0 || value as i128 > u32::MAX as i128 {
            return Err(Error::IdNotFound);
        }
        Self::from_id(value as u32)
    }
}

impl vstd::std_specs::convert::TryFromSpecImpl<isize> for ProductCategory {
    open spec fn obeys_try_from_spec() -> bool {
        true
    }

    open spec fn try_from_spec(value: isize) -> Result<Self, Error> {
        ProductCategory::spec_from_int(value as int)
    }
}

/// Resolves an integer as a taxonomy id. Every value of the type is a possible id.
impl TryFrom<u8> for ProductCategory {
    type Error = Error;

    fn try_from(value: u8) -> Result<Self, Error> {
        Self::from_id(value as u32)
    }
}

impl vstd::std_specs::convert::TryFromSpecImpl<u8> for ProductCategory {
    open spec fn obeys_try_from_spec() -> bool {
        true
    }

    open spec fn try_from_spec(value: u8) -> Result<Self, Error> {
        ProductCategory::spec_from_int(value as int)
    }
}

/// Resolves an integer as a taxonomy id. Every value of the type is a possible id.
impl TryFrom<u16> for ProductCategory {
    type Error = Error;

    fn try_from(value: u16) -> Result<Self, Error> {
        Self::from_id(value as u32)
    }
}

impl vstd::std_specs::convert::TryFromSpecImpl<u16> for ProductCategory {
    open spec fn obeys_try_from_spec() -> bool {
        true
    }

    open spec fn try_from_spec(value: u16) -> Result<Self, Error> {
        ProductCategory::spec_from_int(value as int)
    }
}

/// Resolves an integer as a taxonomy id. Every value of the type is a possible id.
impl TryFrom<u32> for ProductCategory {
    type Error = Error;

    fn try_from(value: u32) -> Result<Self, Error> {
        Self::from_id(value as u32)
    }
}

impl vstd::std_specs::convert::TryFromSpecImpl<u32> for ProductCategory {
    open spec fn obeys_try_from_spec() -> bool {
        true
    }

    open spec fn try_from_spec(value: u32) -> Result<Self, Error> {
        ProductCategory::spec_from_int(value as int)
    }
}

/// Resolves an integer as a taxonomy id. Values above `u32::MAX` fail without a lookup.
impl TryFrom<u64> for ProductCategory {
    type Error = Error;

    fn try_from(value: u64) -> Result<Self, Error> {
        if value as u128 > u32::MAX as u128 {
            return Err(Error::IdNotFound);
        }
        Self::from_id(value as u32)
    }
}

impl vstd::std_specs::convert::TryFromSpecImpl<u64> for ProductCategory {
    open spec fn obeys_try_from_spec() -> bool {
        true
    }

    open spec fn try_from_spec(value: u64) -> Result<Self, Error> {
        ProductCategory::spec_from_int(value as int)
    }
}

/// Resolves an integer as a taxonomy id. Values above `u32::MAX` fail without a lookup.
impl TryFrom<usize> for ProductCategory {
    type Error = Error;

    fn try_from(value: usize) -> Result<Self, Error> {
        if value as u128 > u32::MAX as u128 {
            return Err(Error::IdNotFound);
        }
        Self::from_id(value as u32)
    }
}

impl vstd::std_specs::convert::TryFromSpecImpl<usize> for ProductCategory {
    open spec fn obeys_try_from_spec() -> bool {
        true
    }

    open spec fn try_from_spec(value: usize) -> Result<Self, Error> {
        ProductCategory::spec_from_int(value as int)
    }
}

/// Parses a category from its exact full name.
impl core::str::FromStr for ProductCategory {
    type Err = Error;

    fn from_str(s: &str) -> (r: Result<Self, Error>)
        ensures
            r == Self::spec_from_name(s@),
    {
        Self::from_name(s)
    }
}

} // verus!
