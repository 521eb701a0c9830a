use tpm2_call::ResponseCode;

#[test]
fn decode_zero_is_success() {
    let rc = ResponseCode::from(0x0000_0000u32);
    assert_eq!(rc, ResponseCode::Success);
    assert_eq!(rc.name(), "TPM_RC_SUCCESS");
}

#[test]
fn decode_version1_failure() {
    let rc = ResponseCode::from(0x0000_0101u32);
    assert_eq!(rc, ResponseCode::Failure);
    assert_eq!(rc.name(), "TPM_RC_FAILURE");
}

#[test]
fn decode_unrecognized_falls_back_to_not_used() {
    let rc = ResponseCode::from(0xFFFF_FFFFu32);
    assert_eq!(rc, ResponseCode::NotUsed);
    assert_eq!(rc.name(), "TPM_RC_NOT_USED");
}

#[test]
fn decode_version0_bad_tag() {
    let rc = ResponseCode::from(0x0000_001Eu32);
    assert_eq!(rc, ResponseCode::BadTag);
    assert_eq!(rc.name(), "TPM_RC_BAD_TAG");
}

#[test]
fn decode_format1_value() {
    // format-1 marker bit set, low six bits 0x04
    let rc = ResponseCode::from(0x0000_0084u32);
    assert_eq!(rc, ResponseCode::Value);
    assert_eq!(rc.name(), "TPM_RC_VALUE");
}

#[test]
fn decode_warning_object_memory() {
    let rc = ResponseCode::from(0x0000_0902u32);
    assert_eq!(rc, ResponseCode::ObjectMemory);
    assert_eq!(rc.name(), "TPM_RC_OBJECT_MEMORY");
}

#[test]
fn decode_ignores_high_parameter_bits() {
    // a format-1 code with parameter-number bits set still resolves
    let rc = ResponseCode::from(0x0000_0F84u32);
    assert_eq!(rc, ResponseCode::Value);
}

#[test]
fn decode_is_total_over_samples() {
    // every input decodes to a value whose display is a fixed TPM_RC_ string
    let mut raw: u64 = 0;
    while raw <= 0xFFFF_FFFF {
        let rc = ResponseCode::from(raw as u32);
        let name = rc.name();
        assert!(name.starts_with("TPM_RC_"));
        raw += 0x0100_0003;
    }
    for raw in 0u32..0x1000u32 {
        let rc = ResponseCode::from(raw);
        assert!(rc.name().starts_with("TPM_RC_"));
    }
}

#[test]
fn from_repr_looks_up_exact_values() {
    assert_eq!(ResponseCode::from_repr(0x0101), Some(ResponseCode::Failure));
    assert_eq!(ResponseCode::from_repr(0x0000), Some(ResponseCode::Success));
    assert_eq!(ResponseCode::from_repr(0x00BF), None);
}

#[test]
fn rc_mask_picks_numbering_space() {
    assert_eq!(tpm2_call::rc_mask(0x0000_0084), 0x0084);
    assert_eq!(tpm2_call::rc_mask(0x0000_0F84), 0x0084);
    assert_eq!(tpm2_call::rc_mask(0x0000_0902), 0x0902);
    assert_eq!(tpm2_call::rc_mask(0x0000_0101), 0x0101);
    assert_eq!(tpm2_call::rc_mask(0x0000_001E), 0x001E);
}
