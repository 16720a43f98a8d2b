use libfido2::device::CTAPHIDInfo;
use libfido2::error::{check_status, FidoError, InvariantViolation, FIDO_ERR_INVALID_SIG};
use libfido2::flags::{AssertionOptions, CTAPHIDCapabilities};

#[test]
fn options_empty_has_no_flag() {
    let o = AssertionOptions::empty();
    assert_eq!(o.bits(), 0);
    assert!(!o.requires_user_presence());
    assert!(!o.requires_user_verification());
}

#[test]
fn options_accept_every_known_combination() {
    for bits in 0u8..4 {
        let o = AssertionOptions::from_bits(bits).unwrap();
        assert_eq!(o.bits(), bits);
        assert_eq!(o.requires_user_presence(), bits & 1 == 1);
        assert_eq!(o.requires_user_verification(), bits & 2 == 2);
    }
    assert!(AssertionOptions::from_bits(4).is_none());
    assert_eq!(AssertionOptions::from_bits_truncate(0xff).bits(), 3);
}

#[test]
fn options_union_and_contains() {
    let up = AssertionOptions::user_presence();
    let uv = AssertionOptions::user_verification();
    let both = up.union(uv);
    assert_eq!(both, AssertionOptions::all());
    assert!(both.contains(up));
    assert!(both.contains(uv));
    assert!(!up.contains(uv));
    assert!(up.contains(AssertionOptions::empty()));
}

#[test]
fn capabilities_decode_known_bits() {
    let c = CTAPHIDCapabilities::from_bits(0x0d).unwrap();
    assert!(c.wink() && c.cbor() && c.nmsg());
    let c = CTAPHIDCapabilities::from_bits(0x04).unwrap();
    assert!(!c.wink() && c.cbor() && !c.nmsg());
    assert_eq!(c.bits(), 0x04);
    assert_eq!(CTAPHIDCapabilities::empty().bits(), 0);
}

#[test]
fn capabilities_reject_unknown_bit() {
    assert!(CTAPHIDCapabilities::from_bits(0x02).is_none());
    assert!(CTAPHIDCapabilities::from_bits(0x10).is_none());
    assert!(CTAPHIDCapabilities::from_bits(0x80 | 0x01).is_none());
}

#[test]
fn info_decode_gathers_values() {
    let info = CTAPHIDInfo::decode(2, 5, 1, 3, 0x05).unwrap();
    assert_eq!(info.protocol, 2);
    assert_eq!(info.major, 5);
    assert_eq!(info.minor, 1);
    assert_eq!(info.build, 3);
    assert!(info.capabilities.wink());
    assert!(info.capabilities.cbor());
    assert!(!info.capabilities.nmsg());
}

#[test]
fn info_decode_unknown_bit_is_invariant_violation() {
    assert_eq!(
        CTAPHIDInfo::decode(2, 5, 1, 3, 0x02),
        Err(InvariantViolation::UnknownCapabilityBits)
    );
}

#[test]
fn status_codes_map_to_results() {
    assert_eq!(check_status(0), Ok(()));
    assert_eq!(check_status(-7), Err(FidoError(-7)));
    let e = FidoError(FIDO_ERR_INVALID_SIG);
    assert!(e.is_invalid_signature());
    assert_eq!(e.code(), -6);
    assert!(!FidoError(-7).is_invalid_signature());
}
