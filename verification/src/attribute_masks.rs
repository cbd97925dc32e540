//! The bit masks that say which attributes of a node are set, and which may
//! be written.

use vstd::prelude::*;

verus! {

/// The attributes of a node that are set, one bit each.
#[derive(Debug, Copy, Clone, PartialEq, Eq, Structural)]
pub struct AttributesMask {
    bits: u32,
}

impl AttributesMask {
    /// Indicates if the AccessLevel attribute is set.
    pub const ACCESS_LEVEL: u32 = 1;

    /// Indicates if the ArrayDimensions attribute is set.
    pub const ARRAY_DIMENSIONS: u32 = 1 << 1;

    /// Indicates if the ContainsNoLoops attribute is set.
    pub const CONTAINS_NO_LOOPS: u32 = 1 << 3;

    /// Indicates if the DataType attribute is set.
    pub const DATA_TYPE: u32 = 1 << 4;

    /// Indicates if the Description attribute is set.
    pub const DESCRIPTION: u32 = 1 << 5;

    /// Indicates if the DisplayName attribute is set.
    pub const DISPLAY_NAME: u32 = 1 << 6;

    /// Indicates if the EventNotifier attribute is set.
    pub const EVENT_NOTIFIER: u32 = 1 << 7;

    /// Indicates if the Executable attribute is set.
    pub const EXECUTABLE: u32 = 1 << 8;

    /// Indicates if the Historizing attribute is set.
    pub const HISTORIZING: u32 = 1 << 9;

    /// Indicates if the InverseName attribute is set.
    pub const INVERSE_NAME: u32 = 1 << 10;

    /// Indicates if the IsAbstract attribute is set.
    pub const IS_ABSTRACT: u32 = 1 << 11;

    /// Indicates if the MinimumSamplingInterval attribute is set.
    pub const MINIMUM_SAMPLING_INTERVAL: u32 = 1 << 12;

    /// Indicates if the Symmetric attribute is set.
    pub const SYMMETRIC: u32 = 1 << 15;

    /// Indicates if the UserAccessLevel attribute is set.
    pub const USER_ACCESS_LEVEL: u32 = 1 << 16;

    /// Indicates if the UserExecutable attribute is set.
    pub const USER_EXECUTABLE: u32 = 1 << 17;

    /// Indicates if the UserWriteMask attribute is set.
    pub const USER_WRITE_MASK: u32 = 1 << 18;

    /// Indicates if the ValueRank attribute is set.
    pub const VALUE_RANK: u32 = 1 << 19;

    /// Indicates if the WriteMask attribute is set.
    pub const WRITE_MASK: u32 = 1 << 20;

    /// Indicates if the Value attribute is set.
    pub const VALUE: u32 = 1 << 21;

    /// All the bits that have a meaning.
    pub const ALL: u32 = 0x3f9ffb;

    /// The bits of the mask.
    pub closed spec fn spec_bits(&self) -> u32 {
        self.bits
    }

    /// Every bit of the mask has a meaning.
    #[verifier::type_invariant]
    closed spec fn inv(self) -> bool {
        self.bits & !Self::ALL == 0
    }

    /// The mask with no bit set.
    pub fn empty() -> (r: AttributesMask)
        ensures
            r.spec_bits() == 0,
    {
        assert(0u32 & !0x3f9ffbu32 == 0) by (bit_vector);
        AttributesMask { bits: 0 }
    }

    /// The mask with the given bits, unless one of them has no meaning.
    pub fn from_bits(bits: u32) -> (r: Option<AttributesMask>)
        ensures
            r is Some <==> bits & !Self::ALL == 0,
            r matches Some(mask) ==> mask.spec_bits() == bits,
    {
        if bits & !Self::ALL == 0 {
            Some(AttributesMask { bits })
        } else {
            None
        }
    }

    /// The mask with those of the given bits that have a meaning.
    pub fn from_bits_truncate(bits: u32) -> (r: AttributesMask)
        ensures
            r.spec_bits() == bits & Self::ALL,
    {
        assert((bits & 0x3f9ffbu32) & !0x3f9ffbu32 == 0) by (bit_vector);
        AttributesMask { bits: bits & Self::ALL }
    }

    /// The bits of the mask.
    #[verifier::when_used_as_spec(spec_bits)]
    pub fn bits(&self) -> (r: u32)
        ensures
            r == self.spec_bits(),
    {
        self.bits
    }

    /// Tests whether no bit is set.
    pub fn is_empty(&self) -> (r: bool)
        ensures
            r == (self.spec_bits() == 0),
    {
        self.bits == 0
    }

    /// Tests whether all of the given bits are set.
    pub fn contains(&self, bits: u32) -> (r: bool)
        ensures
            r == (self.spec_bits() & bits == bits),
    {
        self.bits & bits == bits
    }

    /// Sets those of the given bits that have a meaning.
    pub fn insert(&mut self, bits: u32)
        ensures
            final(self).spec_bits() == old(self).spec_bits() | (bits & Self::ALL),
    {
        proof {
            use_type_invariant(&*self);
        }
        let before = self.bits;
        assert(before & !0x3f9ffbu32 == 0 ==> (before | (bits & 0x3f9ffbu32)) & !0x3f9ffbu32
            == 0) by (bit_vector);
        self.bits = before | (bits & Self::ALL);
    }

    /// Clears the given bits.
    pub fn remove(&mut self, bits: u32)
        ensures
            final(self).spec_bits() == old(self).spec_bits() & !bits,
    {
        proof {
            use_type_invariant(&*self);
        }
        let before = self.bits;
        assert(before & !0x3f9ffbu32 == 0 ==> (before & !bits) & !0x3f9ffbu32 == 0)
            by (bit_vector);
        self.bits = before & !bits;
    }
}

/// The attributes of a node that may be written, one bit each. Similar to the attributes mask, and different.
#[derive(Debug, Copy, Clone, PartialEq, Eq, Structural)]
pub struct WriteMask {
    bits: u32,
}

impl WriteMask {
    /// Indicates if the AccessLevel attribute is writable.
    pub const ACCESS_LEVEL: u32 = 1;

    /// Indicates if the ArrayDimensions attribute is writable.
    pub const ARRAY_DIMENSIONS: u32 = 1 << 1;

    /// Indicates if the BrowseName attribute is writable.
    pub const BROWSE_NAME: u32 = 1 << 2;

    /// Indicates if the ContainsNoLoops attribute is writable.
    pub const CONTAINS_NO_LOOPS: u32 = 1 << 3;

    /// Indicates if the DataType attribute is writable.
    pub const DATA_TYPE: u32 = 1 << 4;

    /// Indicates if the Description attribute is writable.
    pub const DESCRIPTION: u32 = 1 << 5;

    /// Indicates if the DisplayName attribute is writable.
    pub const DISPLAY_NAME: u32 = 1 << 6;

    /// Indicates if the EventNotifier attribute is writable.
    pub const EVENT_NOTIFIER: u32 = 1 << 7;

    /// Indicates if the Executable attribute is writable.
    pub const EXECUTABLE: u32 = 1 << 8;

    /// Indicates if the Historizing attribute is writable.
    pub const HISTORIZING: u32 = 1 << 9;

    /// Indicates if the InverseName attribute is writable.
    pub const INVERSE_NAME: u32 = 1 << 10;

    /// Indicates if the IsAbstract attribute is writable.
    pub const IS_ABSTRACT: u32 = 1 << 11;

    /// Indicates if the MinimumSamplingInterval attribute is writable.
    pub const MINIMUM_SAMPLING_INTERVAL: u32 = 1 << 12;

    /// Indicates if the NodeClass attribute is writable.
    pub const NODE_CLASS: u32 = 1 << 13;

    /// Indicates if the NodeId attribute is writable.
    pub const NODE_ID: u32 = 1 << 14;

    /// Indicates if the Symmetric attribute is writable.
    pub const SYMMETRIC: u32 = 1 << 15;

    /// Indicates if the UserAccessLevel attribute is writable.
    pub const USER_ACCESS_LEVEL: u32 = 1 << 16;

    /// Indicates if the UserExecutable attribute is writable.
    pub const USER_EXECUTABLE: u32 = 1 << 17;

    /// Indicates if the UserWriteMask attribute is writable.
    pub const USER_WRITE_MASK: u32 = 1 << 18;

    /// Indicates if the ValueRank attribute is writable.
    pub const VALUE_RANK: u32 = 1 << 19;

    /// Indicates if the WriteMask attribute is writable.
    pub const WRITE_MASK: u32 = 1 << 20;

    /// Indicates if the Value attribute is writable for a variable type. It does not apply to variables, whose access levels decide; for variables this bit is 0.
    pub const VALUE_FOR_VARIABLE_TYPE: u32 = 1 << 21;

    /// All the bits that have a meaning.
    pub const ALL: u32 = 0x3fffff;

    /// The bits of the mask.
    pub closed spec fn spec_bits(&self) -> u32 {
        self.bits
    }

    /// Every bit of the mask has a meaning.
    #[verifier::type_invariant]
    closed spec fn inv(self) -> bool {
        self.bits & !Self::ALL == 0
    }

    /// The mask with no bit set.
    pub fn empty() -> (r: WriteMask)
        ensures
            r.spec_bits() == 0,
    {
        assert(0u32 & !0x3fffffu32 == 0) by (bit_vector);
        WriteMask { bits: 0 }
    }

    /// The mask with the given bits, unless one of them has no meaning.
    pub fn from_bits(bits: u32) -> (r: Option<WriteMask>)
        ensures
            r is Some <==> bits & !Self::ALL == 0,
            r matches Some(mask) ==> mask.spec_bits() == bits,
    {
        if bits & !Self::ALL == 0 {
            Some(WriteMask { bits })
        } else {
            None
        }
    }

    /// The mask with those of the given bits that have a meaning.
    pub fn from_bits_truncate(bits: u32) -> (r: WriteMask)
        ensures
            r.spec_bits() == bits & Self::ALL,
    {
        assert((bits & 0x3fffffu32) & !0x3fffffu32 == 0) by (bit_vector);
        WriteMask { bits: bits & Self::ALL }
    }

    /// The bits of the mask.
    #[verifier::when_used_as_spec(spec_bits)]
    pub fn bits(&self) -> (r: u32)
        ensures
            r == self.spec_bits(),
    {
        self.bits
    }

    /// Tests whether no bit is set.
    pub fn is_empty(&self) -> (r: bool)
        ensures
            r == (self.spec_bits() == 0),
    {
        self.bits == 0
    }

    /// Tests whether all of the given bits are set.
    pub fn contains(&self, bits: u32) -> (r: bool)
        ensures
            r == (self.spec_bits() & bits == bits),
    {
        self.bits & bits == bits
    }

    /// Sets those of the given bits that have a meaning.
    pub fn insert(&mut self, bits: u32)
        ensures
            final(self).spec_bits() == old(self).spec_bits() | (bits & Self::ALL),
    {
        proof {
            use_type_invariant(&*self);
        }
        let before = self.bits;
        assert(before & !0x3fffffu32 == 0 ==> (before | (bits & 0x3fffffu32)) & !0x3fffffu32
            == 0) by (bit_vector);
        self.bits = before | (bits & Self::ALL);
    }

    /// Clears the given bits.
    pub fn remove(&mut self, bits: u32)
        ensures
            final(self).spec_bits() == old(self).spec_bits() & !bits,
    {
        proof {
            use_type_invariant(&*self);
        }
        let before = self.bits;
        assert(before & !0x3fffffu32 == 0 ==> (before & !bits) & !0x3fffffu32 == 0)
            by (bit_vector);
        self.bits = before & !bits;
    }
}

} // verus!
