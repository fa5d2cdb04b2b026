use vstd::prelude::*;
use crate::node_id::{NodeId, NodeIdModel};

verus! {

/// Bit of an access level that allows reading the current value.
pub const CURRENT_READ: u8 = 1;

/// Bit of an access level that allows writing the current value.
pub const CURRENT_WRITE: u8 = 2;

/// Access-level bit flags of a variable.
#[derive(Clone, Copy, Debug, PartialEq, Eq, Structural)]
pub struct AccessLevel {
    pub bits: u8,
}

impl AccessLevel {
    pub open spec fn spec_current_read(self) -> bool {
        self.bits & CURRENT_READ != 0
    }

    pub open spec fn spec_current_write(self) -> bool {
        self.bits & CURRENT_WRITE != 0
    }

    /// No access.
    pub fn none() -> (r: AccessLevel)
        ensures
            r.bits == 0,
            !r.spec_current_read(),
            !r.spec_current_write(),
    {
        proof {
            assert(0u8 & 1u8 == 0u8 && 0u8 & 2u8 == 0u8) by (bit_vector);
        }
        AccessLevel { bits: 0 }
    }

    /// Sets or clears the current-read bit, keeping every other bit.
    pub fn with_current_read(self, allowed: bool) -> (r: AccessLevel)
        ensures
            r.spec_current_read() == allowed,
            r.bits & !CURRENT_READ == self.bits & !CURRENT_READ,
            r.spec_current_write() == self.spec_current_write(),
    {
        let b = self.bits;
        let bits: u8 = if allowed { b | 1u8 } else { b & !1u8 };
        proof {
            assert((b | 1u8) & 1u8 != 0u8) by (bit_vector);
            assert((b & !1u8) & 1u8 == 0u8) by (bit_vector);
            assert((b | 1u8) & !1u8 == b & !1u8) by (bit_vector);
            assert((b & !1u8) & !1u8 == b & !1u8) by (bit_vector);
            assert(((b | 1u8) & 2u8 != 0u8) == (b & 2u8 != 0u8)) by (bit_vector);
            assert(((b & !1u8) & 2u8 != 0u8) == (b & 2u8 != 0u8)) by (bit_vector);
        }
        AccessLevel { bits }
    }

    /// Sets or clears the current-write bit, keeping every other bit.
    pub fn with_current_write(self, allowed: bool) -> (r: AccessLevel)
        ensures
            r.spec_current_write() == allowed,
            r.bits & !CURRENT_WRITE == self.bits & !CURRENT_WRITE,
            r.spec_current_read() == self.spec_current_read(),
    {
        let b = self.bits;
        let bits: u8 = if allowed { b | 2u8 } else { b & !2u8 };
        proof {
            assert((b | 2u8) & 2u8 != 0u8) by (bit_vector);
            assert((b & !2u8) & 2u8 == 0u8) by (bit_vector);
            assert((b | 2u8) & !2u8 == b & !2u8) by (bit_vector);
            assert((b & !2u8) & !2u8 == b & !2u8) by (bit_vector);
            assert(((b | 2u8) & 1u8 != 0u8) == (b & 1u8 != 0u8)) by (bit_vector);
            assert(((b & !2u8) & 1u8 != 0u8) == (b & 1u8 != 0u8)) by (bit_vector);
        }
        AccessLevel { bits }
    }

    /// Tells whether reading the current value is allowed.
    pub fn current_read(&self) -> (r: bool)
        ensures
            r == self.spec_current_read(),
    {
        self.bits & CURRENT_READ != 0
    }

    /// Tells whether writing the current value is allowed.
    pub fn current_write(&self) -> (r: bool)
        ensures
            r == self.spec_current_write(),
    {
        self.bits & CURRENT_WRITE != 0
    }
}

/// Attributes of a variable node: its data type and access level.
pub struct VariableAttributes {
    data_type: Option<NodeId>,
    access_level: AccessLevel,
}

impl VariableAttributes {
    /// The configured data type, if one was set.
    pub closed spec fn spec_data_type(&self) -> Option<NodeIdModel> {
        match self.data_type {
            Some(d) => Some(d@),
            None => None,
        }
    }

    /// The configured access level.
    pub closed spec fn spec_access_level(&self) -> AccessLevel {
        self.access_level
    }

    /// Attributes with no data type and no access.
    pub fn new() -> (r: VariableAttributes)
        ensures
            r.spec_data_type() is None,
            r.spec_access_level().bits == 0,
    {
        VariableAttributes { data_type: None, access_level: AccessLevel::none() }
    }

    /// Sets the data type, keeping the access level.
    pub fn with_data_type(self, data_type: &NodeId) -> (r: VariableAttributes)
        ensures
            r.spec_data_type() == Some(data_type@),
            r.spec_access_level() == self.spec_access_level(),
    {
        VariableAttributes { data_type: Some(data_type.duplicate()), access_level: self.access_level }
    }

    /// Sets the access level, keeping the data type.
    pub fn with_access_level(self, access_level: &AccessLevel) -> (r: VariableAttributes)
        ensures
            r.spec_data_type() == self.spec_data_type(),
            r.spec_access_level() == *access_level,
    {
        VariableAttributes { data_type: self.data_type, access_level: *access_level }
    }

    /// Returns a copy of the configured data type.
    pub fn data_type(&self) -> (r: Option<NodeId>)
        ensures
            match r {
                Some(d) => self.spec_data_type() == Some(d@),
                None => self.spec_data_type() is None,
            },
    {
        match &self.data_type {
            Some(d) => Some(d.duplicate()),
            None => None,
        }
    }

    /// Returns the configured access level.
    pub fn access_level(&self) -> (r: AccessLevel)
        ensures
            r == self.spec_access_level(),
    {
        self.access_level
    }
}

impl Default for VariableAttributes {
    fn default() -> (r: VariableAttributes)
        ensures
            r.spec_data_type() is None,
            r.spec_access_level().bits == 0,
    {
        VariableAttributes::new()
    }
}

} // verus!
