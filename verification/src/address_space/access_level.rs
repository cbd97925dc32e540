//! The bits that say how a variable may be accessed and whether a node
//! gives notice of events.

use vstd::prelude::*;

verus! {

/// How the value of a variable may be accessed, one bit for each way.
#[derive(Debug, Copy, Clone, PartialEq, Eq, Structural)]
pub struct AccessLevel {
    bits: u8,
}

impl AccessLevel {
    /// The current value may be read.
    pub const CURRENT_READ: u8 = 1;

    /// The current value may be written.
    pub const CURRENT_WRITE: u8 = 2;

    /// The history of the value may be read.
    pub const HISTORY_READ: u8 = 4;

    /// The history of the value may be written.
    pub const HISTORY_WRITE: u8 = 8;

    /// The variable tells of changes to its properties.
    pub const SEMANTIC_CHANGE: u8 = 16;

    /// The status of the value may be written.
    pub const STATUS_WRITE: u8 = 32;

    /// The time stamp of the value may be written.
    pub const TIMESTAMP_WRITE: u8 = 64;

    /// All the bits that have a meaning.
    pub const ALL: u8 = 0x7f;

    /// The bits that are set.
    pub closed spec fn spec_bits(&self) -> u8 {
        self.bits
    }

    /// Every bit that is set has a meaning.
    #[verifier::type_invariant]
    closed spec fn inv(self) -> bool {
        self.bits & !Self::ALL == 0
    }

    /// No bit set.
    pub fn empty() -> (r: AccessLevel)
        ensures
            r.spec_bits() == 0,
    {
        assert(0u8 & !0x7fu8 == 0) by (bit_vector);
        AccessLevel { bits: 0 }
    }

    /// The given bits, unless one of them has no meaning.
    pub fn from_bits(bits: u8) -> (r: Option<AccessLevel>)
        ensures
            r is Some <==> bits & !Self::ALL == 0,
            r matches Some(mask) ==> mask.spec_bits() == bits,
    {
        if bits & !Self::ALL == 0 {
            Some(AccessLevel { bits })
        } else {
            None
        }
    }

    /// Those of the given bits that have a meaning.
    pub fn from_bits_truncate(bits: u8) -> (r: AccessLevel)
        ensures
            r.spec_bits() == bits & Self::ALL,
    {
        assert((bits & 0x7fu8) & !0x7fu8 == 0) by (bit_vector);
        AccessLevel { bits: bits & Self::ALL }
    }

    /// The bits that are set.
    #[verifier::when_used_as_spec(spec_bits)]
    pub fn bits(&self) -> (r: u8)
        ensures
            r == self.spec_bits(),
            r & !Self::ALL == 0,
    {
        proof {
            use_type_invariant(self);
        }
        self.bits
    }

    /// Tests whether no bit is set.
    pub fn is_empty(&self) -> (r: bool)
        ensures
            r == (self.spec_bits() == 0),
    {
        self.bits == 0
    }

    /// Tests whether all of the given bits are set.
    pub fn contains(&self, bits: u8) -> (r: bool)
        ensures
            r == (self.spec_bits() & bits == bits),
    {
        self.bits & bits == bits
    }

    /// Sets those of the given bits that have a meaning.
    pub fn insert(&mut self, bits: u8)
        ensures
            final(self).spec_bits() == old(self).spec_bits() | (bits & Self::ALL),
    {
        proof {
            use_type_invariant(&*self);
        }
        let before = self.bits;
        assert(before & !0x7fu8 == 0 ==> (before | (bits & 0x7fu8)) & !0x7fu8 == 0)
            by (bit_vector);
        self.bits = before | (bits & Self::ALL);
    }

    /// Clears the given bits.
    pub fn remove(&mut self, bits: u8)
        ensures
            final(self).spec_bits() == old(self).spec_bits() & !bits,
    {
        proof {
            use_type_invariant(&*self);
        }
        let before = self.bits;
        assert(before & !0x7fu8 == 0 ==> (before & !bits) & !0x7fu8 == 0)
            by (bit_vector);
        self.bits = before & !bits;
    }
}

/// How the user may access the value of a variable, one bit for each way.
#[derive(Debug, Copy, Clone, PartialEq, Eq, Structural)]
pub struct UserAccessLevel {
    bits: u8,
}

impl UserAccessLevel {
    /// The current value may be read.
    pub const CURRENT_READ: u8 = 1;

    /// The current value may be written.
    pub const CURRENT_WRITE: u8 = 2;

    /// The history of the value may be read.
    pub const HISTORY_READ: u8 = 4;

    /// The history of the value may be written.
    pub const HISTORY_WRITE: u8 = 8;

    /// The status of the value may be written.
    pub const STATUS_WRITE: u8 = 32;

    /// The time stamp of the value may be written.
    pub const TIMESTAMP_WRITE: u8 = 64;

    /// All the bits that have a meaning.
    pub const ALL: u8 = 0x6f;

    /// The bits that are set.
    pub closed spec fn spec_bits(&self) -> u8 {
        self.bits
    }

    /// Every bit that is set has a meaning.
    #[verifier::type_invariant]
    closed spec fn inv(self) -> bool {
        self.bits & !Self::ALL == 0
    }

    /// No bit set.
    pub fn empty() -> (r: UserAccessLevel)
        ensures
            r.spec_bits() == 0,
    {
        assert(0u8 & !0x6fu8 == 0) by (bit_vector);
        UserAccessLevel { bits: 0 }
    }

    /// The given bits, unless one of them has no meaning.
    pub fn from_bits(bits: u8) -> (r: Option<UserAccessLevel>)
        ensures
            r is Some <==> bits & !Self::ALL == 0,
            r matches Some(mask) ==> mask.spec_bits() == bits,
    {
        if bits & !Self::ALL == 0 {
            Some(UserAccessLevel { bits })
        } else {
            None
        }
    }

    /// Those of the given bits that have a meaning.
    pub fn from_bits_truncate(bits: u8) -> (r: UserAccessLevel)
        ensures
            r.spec_bits() == bits & Self::ALL,
    {
        assert((bits & 0x6fu8) & !0x6fu8 == 0) by (bit_vector);
        UserAccessLevel { bits: bits & Self::ALL }
    }

    /// The bits that are set.
    #[verifier::when_used_as_spec(spec_bits)]
    pub fn bits(&self) -> (r: u8)
        ensures
            r == self.spec_bits(),
            r & !Self::ALL == 0,
    {
        proof {
            use_type_invariant(self);
        }
        self.bits
    }

    /// Tests whether no bit is set.
    pub fn is_empty(&self) -> (r: bool)
        ensures
            r == (self.spec_bits() == 0),
    {
        self.bits == 0
    }

    /// Tests whether all of the given bits are set.
    pub fn contains(&self, bits: u8) -> (r: bool)
        ensures
            r == (self.spec_bits() & bits == bits),
    {
        self.bits & bits == bits
    }

    /// Sets those of the given bits that have a meaning.
    pub fn insert(&mut self, bits: u8)
        ensures
            final(self).spec_bits() == old(self).spec_bits() | (bits & Self::ALL),
    {
        proof {
            use_type_invariant(&*self);
        }
        let before = self.bits;
        assert(before & !0x6fu8 == 0 ==> (before | (bits & 0x6fu8)) & !0x6fu8 == 0)
            by (bit_vector);
        self.bits = before | (bits & Self::ALL);
    }

    /// Clears the given bits.
    pub fn remove(&mut self, bits: u8)
        ensures
            final(self).spec_bits() == old(self).spec_bits() & !bits,
    {
        proof {
            use_type_invariant(&*self);
        }
        let before = self.bits;
        assert(before & !0x6fu8 == 0 ==> (before & !bits) & !0x6fu8 == 0)
            by (bit_vector);
        self.bits = before & !bits;
    }
}

/// Whether a node gives notice of events and keeps their history.
#[derive(Debug, Copy, Clone, PartialEq, Eq, Structural)]
pub struct EventNotifier {
    bits: u8,
}

impl EventNotifier {
    /// Events of the node may be subscribed to.
    pub const SUBSCRIBE_TO_EVENTS: u8 = 1;

    /// The history of the events may be read.
    pub const HISTORY_READ: u8 = 4;

    /// The history of the events may be written.
    pub const HISTORY_WRITE: u8 = 8;

    /// All the bits that have a meaning.
    pub const ALL: u8 = 0xd;

    /// The bits that are set.
    pub closed spec fn spec_bits(&self) -> u8 {
        self.bits
    }

    /// Every bit that is set has a meaning.
    #[verifier::type_invariant]
    closed spec fn inv(self) -> bool {
        self.bits & !Self::ALL == 0
    }

    /// No bit set.
    pub fn empty() -> (r: EventNotifier)
        ensures
            r.spec_bits() == 0,
    {
        assert(0u8 & !0xdu8 == 0) by (bit_vector);
        EventNotifier { bits: 0 }
    }

    /// The given bits, unless one of them has no meaning.
    pub fn from_bits(bits: u8) -> (r: Option<EventNotifier>)
        ensures
            r is Some <==> bits & !Self::ALL == 0,
            r matches Some(mask) ==> mask.spec_bits() == bits,
    {
        if bits & !Self::ALL == 0 {
            Some(EventNotifier { bits })
        } else {
            None
        }
    }

    /// Those of the given bits that have a meaning.
    pub fn from_bits_truncate(bits: u8) -> (r: EventNotifier)
        ensures
            r.spec_bits() == bits & Self::ALL,
    {
        assert((bits & 0xdu8) & !0xdu8 == 0) by (bit_vector);
        EventNotifier { bits: bits & Self::ALL }
    }

    /// The bits that are set.
    #[verifier::when_used_as_spec(spec_bits)]
    pub fn bits(&self) -> (r: u8)
        ensures
            r == self.spec_bits(),
            r & !Self::ALL == 0,
    {
        proof {
            use_type_invariant(self);
        }
        self.bits
    }

    /// Tests whether no bit is set.
    pub fn is_empty(&self) -> (r: bool)
        ensures
            r == (self.spec_bits() == 0),
    {
        self.bits == 0
    }

    /// Tests whether all of the given bits are set.
    pub fn contains(&self, bits: u8) -> (r: bool)
        ensures
            r == (self.spec_bits() & bits == bits),
    {
        self.bits & bits == bits
    }

    /// Sets those of the given bits that have a meaning.
    pub fn insert(&mut self, bits: u8)
        ensures
            final(self).spec_bits() == old(self).spec_bits() | (bits & Self::ALL),
    {
        proof {
            use_type_invariant(&*self);
        }
        let before = self.bits;
        assert(before & !0xdu8 == 0 ==> (before | (bits & 0xdu8)) & !0xdu8 == 0)
            by (bit_vector);
        self.bits = before | (bits & Self::ALL);
    }

    /// Clears the given bits.
    pub fn remove(&mut self, bits: u8)
        ensures
            final(self).spec_bits() == old(self).spec_bits() & !bits,
    {
        proof {
            use_type_invariant(&*self);
        }
        let before = self.bits;
        assert(before & !0xdu8 == 0 ==> (before & !bits) & !0xdu8 == 0)
            by (bit_vector);
        self.bits = before & !bits;
    }
}

} // verus!
