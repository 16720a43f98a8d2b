use vstd::prelude::*;
use crate::error::InvariantViolation;
use crate::flags::{only_bits_of, CTAPHIDCapabilities, CAPABILITY_MASK};

verus! {

/// What a device reports of itself over CTAPHID.
#[derive(Clone, Copy, Debug, PartialEq, Eq, Structural, PartialOrd, Ord, Hash)]
pub struct CTAPHIDInfo {
    pub protocol: u8,
    pub major: u8,
    pub minor: u8,
    pub build: u8,
    pub capabilities: CTAPHIDCapabilities,
}

impl CTAPHIDInfo {
    /// Gathers the five values a device reports. Capability bits that are not
    /// known mean the engine and this library disagree: that is an invariant
    /// violation, never masked.
    pub fn decode(protocol: u8, major: u8, minor: u8, build: u8, flags: u8) -> (r: Result<
        CTAPHIDInfo,
        InvariantViolation,
    >)
        ensures
            r is Ok <==> only_bits_of(flags, CAPABILITY_MASK),
            r matches Ok(info) ==> info.protocol == protocol && info.major == major && info.minor
                == minor && info.build == build && info.capabilities.spec_bits() == flags
                && info.capabilities.wf(),
            r matches Err(e) ==> e == InvariantViolation::UnknownCapabilityBits,
    {
        match CTAPHIDCapabilities::from_bits(flags) {
            Some(capabilities) => Ok(CTAPHIDInfo { protocol, major, minor, build, capabilities }),
            None => Err(InvariantViolation::UnknownCapabilityBits),
        }
    }
}

} // verus!
