use vstd::prelude::*;

verus! {

/// Bit that asks the authenticator for user presence.
pub const USER_PRESENCE_BIT: u8 = 1;

/// Bit that asks the authenticator for user verification.
pub const USER_VERIFICATION_BIT: u8 = 2;

/// Every bit that assertion options know of.
pub const ASSERTION_OPTION_MASK: u8 = 3;

/// Capability bit: the device supports the wink command.
pub const CAP_WINK_BIT: u8 = 0x01;

/// Capability bit: the device supports CBOR messages.
pub const CAP_CBOR_BIT: u8 = 0x04;

/// Capability bit: the device does not support plain (U2F) messages.
pub const CAP_NMSG_BIT: u8 = 0x08;

/// Every capability bit that a device may report.
pub const CAPABILITY_MASK: u8 = 0x0d;

/// Whether `bits` holds only bits of `mask`.
pub open spec fn only_bits_of(bits: u8, mask: u8) -> bool {
    bits & !mask == 0
}

/// Whether every bit of `flag` is set in `bits`.
pub open spec fn has_bits(bits: u8, flag: u8) -> bool {
    bits & flag == flag
}

/// Option flags of an assertion request.
///
/// Any combination is accepted, the empty one included: with neither flag set
/// the request makes no presence or verification demand and the device decides.
#[derive(Clone, Copy, Debug, PartialEq, Eq, Structural)]
pub struct AssertionOptions {
    bits: u8,
}

impl AssertionOptions {
    /// The raw bits, in specifications.
    pub closed spec fn spec_bits(self) -> u8 {
        self.bits
    }

    pub open spec fn spec_user_presence(self) -> bool {
        has_bits(self.spec_bits(), USER_PRESENCE_BIT)
    }

    pub open spec fn spec_user_verification(self) -> bool {
        has_bits(self.spec_bits(), USER_VERIFICATION_BIT)
    }

    /// Options are well formed when they hold no unknown bit.
    pub open spec fn wf(self) -> bool {
        only_bits_of(self.spec_bits(), ASSERTION_OPTION_MASK)
    }

    /// No flag set.
    pub fn empty() -> (r: Self)
        ensures
            r.wf(),
            r.spec_bits() == 0,
            !r.spec_user_presence(),
            !r.spec_user_verification(),
    {
        let r = AssertionOptions { bits: 0 };
        assert(only_bits_of(0u8, 3u8) && !has_bits(0u8, 1u8) && !has_bits(0u8, 2u8)) by (bit_vector);
        r
    }

    /// Both flags set.
    pub fn all() -> (r: Self)
        ensures
            r.wf(),
            r.spec_bits() == ASSERTION_OPTION_MASK,
            r.spec_user_presence(),
            r.spec_user_verification(),
    {
        let r = AssertionOptions { bits: ASSERTION_OPTION_MASK };
        assert(only_bits_of(3u8, 3u8) && has_bits(3u8, 1u8) && has_bits(3u8, 2u8)) by (bit_vector);
        r
    }

    /// The user-presence flag alone.
    pub fn user_presence() -> (r: Self)
        ensures
            r.wf(),
            r.spec_bits() == USER_PRESENCE_BIT,
            r.spec_user_presence(),
            !r.spec_user_verification(),
    {
        assert(only_bits_of(1u8, 3u8) && has_bits(1u8, 1u8) && !has_bits(1u8, 2u8)) by (bit_vector);
        AssertionOptions { bits: USER_PRESENCE_BIT }
    }

    /// The user-verification flag alone.
    pub fn user_verification() -> (r: Self)
        ensures
            r.wf(),
            r.spec_bits() == USER_VERIFICATION_BIT,
            !r.spec_user_presence(),
            r.spec_user_verification(),
    {
        assert(only_bits_of(2u8, 3u8) && !has_bits(2u8, 1u8) && has_bits(2u8, 2u8)) by (bit_vector);
        AssertionOptions { bits: USER_VERIFICATION_BIT }
    }

    /// Options from raw bits; `None` when a bit is not an assertion option.
    pub fn from_bits(bits: u8) -> (r: Option<Self>)
        ensures
            r is Some <==> only_bits_of(bits, ASSERTION_OPTION_MASK),
            r matches Some(o) ==> o.spec_bits() == bits && o.wf(),
    {
        if bits & !ASSERTION_OPTION_MASK == 0 {
            Some(AssertionOptions { bits })
        } else {
            None
        }
    }

    /// Options from raw bits, unknown bits dropped.
    pub fn from_bits_truncate(bits: u8) -> (r: Self)
        ensures
            r.wf(),
            r.spec_bits() == bits & ASSERTION_OPTION_MASK,
    {
        let b = bits & ASSERTION_OPTION_MASK;
        assert(only_bits_of(bits & 3u8, 3u8)) by (bit_vector);
        AssertionOptions { bits: b }
    }

    /// The raw bits.
    pub fn bits(&self) -> (r: u8)
        ensures
            r == self.spec_bits(),
    {
        self.bits
    }

    /// Whether every flag of `other` is set here.
    pub fn contains(&self, other: Self) -> (r: bool)
        ensures
            r == has_bits(self.spec_bits(), other.spec_bits()),
    {
        self.bits & other.bits == other.bits
    }

    /// The flags of both.
    pub fn union(&self, other: Self) -> (r: Self)
        requires
            self.wf(),
            other.wf(),
        ensures
            r.wf(),
            r.spec_bits() == self.spec_bits() | other.spec_bits(),
    {
        let a = self.bits;
        let b = other.bits;
        assert(only_bits_of(a, 3u8) && only_bits_of(b, 3u8) ==> only_bits_of(a | b, 3u8)) by (bit_vector);
        AssertionOptions { bits: a | b }
    }

    /// Whether user presence is asked for.
    pub fn requires_user_presence(&self) -> (r: bool)
        ensures
            r == self.spec_user_presence(),
    {
        self.bits & USER_PRESENCE_BIT == USER_PRESENCE_BIT
    }

    /// Whether user verification is asked for.
    pub fn requires_user_verification(&self) -> (r: bool)
        ensures
            r == self.spec_user_verification(),
    {
        self.bits & USER_VERIFICATION_BIT == USER_VERIFICATION_BIT
    }
}

/// Capability flags that a device reports over CTAPHID.
#[derive(Clone, Copy, Debug, PartialEq, Eq, Structural, PartialOrd, Ord, Hash)]
pub struct CTAPHIDCapabilities {
    bits: u8,
}

impl CTAPHIDCapabilities {
    /// The raw bits, in specifications.
    pub closed spec fn spec_bits(self) -> u8 {
        self.bits
    }

    /// Capabilities are well formed when they hold no unknown bit.
    pub open spec fn wf(self) -> bool {
        only_bits_of(self.spec_bits(), CAPABILITY_MASK)
    }

    /// No capability.
    pub fn empty() -> (r: Self)
        ensures
            r.wf(),
            r.spec_bits() == 0,
    {
        assert(only_bits_of(0u8, 0x0du8)) by (bit_vector);
        CTAPHIDCapabilities { bits: 0 }
    }

    /// Decodes reported bits; `None` when a bit is not a known capability.
    pub fn from_bits(bits: u8) -> (r: Option<Self>)
        ensures
            r is Some <==> only_bits_of(bits, CAPABILITY_MASK),
            r matches Some(c) ==> c.spec_bits() == bits && c.wf(),
    {
        if bits & !CAPABILITY_MASK == 0 {
            Some(CTAPHIDCapabilities { bits })
        } else {
            None
        }
    }

    /// The raw bits.
    pub fn bits(&self) -> (r: u8)
        ensures
            r == self.spec_bits(),
    {
        self.bits
    }

    /// Whether the device supports the wink command.
    pub fn wink(&self) -> (r: bool)
        ensures
            r == has_bits(self.spec_bits(), CAP_WINK_BIT),
    {
        self.bits & CAP_WINK_BIT == CAP_WINK_BIT
    }

    /// Whether the device supports CBOR messages.
    pub fn cbor(&self) -> (r: bool)
        ensures
            r == has_bits(self.spec_bits(), CAP_CBOR_BIT),
    {
        self.bits & CAP_CBOR_BIT == CAP_CBOR_BIT
    }

    /// Whether the device lacks support for plain messages.
    pub fn nmsg(&self) -> (r: bool)
        ensures
            r == has_bits(self.spec_bits(), CAP_NMSG_BIT),
    {
        self.bits & CAP_NMSG_BIT == CAP_NMSG_BIT
    }
}

} // verus!
