//! The switches that change how the signature of a response is verified.
//!
//! This module names the switches and combines them. What a switch makes the
//! verifier do is the verifier's business.

use vstd::prelude::*;

verus! {

/// Leave the signer's certificates out of what is produced.
pub const FLAG_NO_CERTS: u64 = 0x1;

/// Do not look for the signer among the certificates inside the response.
pub const FLAG_NO_INTERN: u64 = 0x2;

/// Skip the building of a chain.
pub const FLAG_NO_CHAIN: u64 = 0x8;

/// Skip the verification of the signer's certificate chain.
pub const FLAG_NO_VERIFY: u64 = 0x10;

/// Do not let explicit trust in a root cut the verification short.
pub const FLAG_NO_EXPLICIT: u64 = 0x20;

/// Restrict signing by the issuing authority itself.
pub const FLAG_NO_CA_SIGN: u64 = 0x40;

/// Restrict signing by a delegate of the issuing authority.
pub const FLAG_NO_DELEGATED: u64 = 0x80;

/// Skip the checks made of the signer beyond its chain.
pub const FLAG_NO_CHECKS: u64 = 0x100;

/// Trust the certificates handed in beside the response without a chain.
pub const FLAG_TRUST_OTHER: u64 = 0x200;

/// Match the responder by the digest of its key.
pub const FLAG_RESPID_KEY: u64 = 0x400;

/// Skip the check of the time window during verification.
pub const FLAG_NO_TIME: u64 = 0x800;

/// Every bit that stands for a switch.
pub const FLAG_ALL: u64 = 0xffb;

/// A set of switches. Each switch is one bit of the constants `FLAG_*`; the
/// switches are independent of one another and can be combined freely.
#[derive(Copy, Clone, Debug, PartialEq, Eq, Structural)]
pub struct Flag {
    bits: u64,
}

impl View for Flag {
    type V = u64;

    /// The bits of the switches that are set.
    closed spec fn view(&self) -> u64 {
        self.bits
    }
}

impl Flag {
    /// No bit is set that stands for no switch.
    #[verifier::type_invariant]
    spec fn only_switches(self) -> bool {
        self.bits & !FLAG_ALL == 0
    }

    /// The set with no switch.
    pub fn empty() -> (flags: Flag)
        ensures
            flags@ == 0,
    {
        assert(0u64 & !FLAG_ALL == 0) by (bit_vector);
        Flag { bits: 0 }
    }

    /// The set with every switch.
    pub fn all() -> (flags: Flag)
        ensures
            flags@ == FLAG_ALL,
    {
        assert(FLAG_ALL & !FLAG_ALL == 0) by (bit_vector);
        Flag { bits: FLAG_ALL }
    }

    /// The bits of the switches that are set.
    pub fn bits(&self) -> (bits: u64)
        ensures
            bits == self@,
            bits & !FLAG_ALL == 0,
    {
        proof {
            use_type_invariant(self);
        }
        self.bits
    }

    /// The set whose switches are the bits of `bits`, unless a bit of `bits`
    /// stands for no switch.
    pub fn from_bits(bits: u64) -> (flags: Option<Flag>)
        ensures
            flags is Some <==> bits & !FLAG_ALL == 0,
            flags is Some ==> flags.unwrap()@ == bits,
    {
        if bits & !FLAG_ALL == 0 {
            Some(Flag { bits })
        } else {
            None
        }
    }

    /// The set whose switches are the bits of `bits` that stand for one.
    pub fn from_bits_truncate(bits: u64) -> (flags: Flag)
        ensures
            flags@ == bits & FLAG_ALL,
    {
        assert((bits & FLAG_ALL) & !FLAG_ALL == 0) by (bit_vector);
        Flag { bits: bits & FLAG_ALL }
    }

    /// Whether no switch is set.
    pub fn is_empty(&self) -> (none: bool)
        ensures
            none == (self@ == 0),
    {
        self.bits == 0
    }

    /// Whether every switch is set.
    pub fn is_all(&self) -> (every: bool)
        ensures
            every == (self@ == FLAG_ALL),
    {
        self.bits == FLAG_ALL
    }

    /// Whether a switch of `other` is set in `self`.
    pub fn intersects(&self, other: Flag) -> (some: bool)
        ensures
            some == (self@ & other@ != 0),
    {
        self.bits & other.bits != 0
    }

    /// Whether every switch of `other` is set in `self`.
    pub fn contains(&self, other: Flag) -> (every: bool)
        ensures
            every == (self@ & other@ == other@),
    {
        self.bits & other.bits == other.bits
    }

    /// Sets the switches of `other`.
    pub fn insert(&mut self, other: Flag)
        ensures
            final(self)@ == old(self)@ | other@,
    {
        proof {
            use_type_invariant(&*self);
            use_type_invariant(other);
        }
        let a = self.bits;
        let b = other.bits;
        assert((a | b) & !FLAG_ALL == 0) by (bit_vector)
            requires
                a & !FLAG_ALL == 0,
                b & !FLAG_ALL == 0,
        ;
        self.bits = a | b;
    }

    /// Clears the switches of `other`.
    pub fn remove(&mut self, other: Flag)
        ensures
            final(self)@ == old(self)@ & !other@,
    {
        proof {
            use_type_invariant(&*self);
        }
        let a = self.bits;
        let b = other.bits;
        assert((a & !b) & !FLAG_ALL == 0) by (bit_vector)
            requires
                a & !FLAG_ALL == 0,
        ;
        self.bits = a & !b;
    }

    /// Sets the switches of `other` that are clear, and clears those that are
    /// set.
    pub fn toggle(&mut self, other: Flag)
        ensures
            final(self)@ == old(self)@ ^ other@,
    {
        proof {
            use_type_invariant(&*self);
            use_type_invariant(other);
        }
        let a = self.bits;
        let b = other.bits;
        assert((a ^ b) & !FLAG_ALL == 0) by (bit_vector)
            requires
                a & !FLAG_ALL == 0,
                b & !FLAG_ALL == 0,
        ;
        self.bits = a ^ b;
    }
}

/// Switches can be combined in any order: setting `first` and then `second`
/// leaves the same set as setting `second` and then `first`.
pub proof fn lemma_insert_order(flags: u64, first: u64, second: u64)
    ensures
        (flags | first) | second == (flags | second) | first,
{
    assert((flags | first) | second == (flags | second) | first) by (bit_vector);
}

/// Switches are independent: setting or clearing `changed` leaves every
/// switch `other` that shares no bit with it as it was.
pub proof fn lemma_switches_independent(flags: u64, changed: u64, other: u64)
    requires
        changed & other == 0,
    ensures
        (flags | changed) & other == flags & other,
        (flags & !changed) & other == flags & other,
        (flags ^ changed) & other == flags & other,
{
    assert((flags | changed) & other == flags & other) by (bit_vector)
        requires
            changed & other == 0,
    ;
    assert((flags & !changed) & other == flags & other) by (bit_vector)
        requires
            changed & other == 0,
    ;
    assert((flags ^ changed) & other == flags & other) by (bit_vector)
        requires
            changed & other == 0,
    ;
}

/// A switch that was set is contained, and one that was cleared is not,
/// unless it is the empty set.
pub proof fn lemma_insert_then_contains(flags: u64, switch: u64)
    ensures
        (flags | switch) & switch == switch,
        switch != 0 ==> (flags & !switch) & switch != switch,
{
    assert((flags | switch) & switch == switch) by (bit_vector);
    assert(switch != 0 ==> (flags & !switch) & switch != switch) by (bit_vector);
}

} // verus!
