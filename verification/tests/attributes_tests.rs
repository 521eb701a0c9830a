use tpm2_call::ObjectAttributes;
use tpm2_call::TpmError;
use tpm2_call::OBJECT_ATTR_DECRYPT;
use tpm2_call::OBJECT_ATTR_FIXED_TPM;
use tpm2_call::OBJECT_ATTR_RESTRICTED;

#[test]
fn empty_attributes_have_no_bits() {
    let attrs = ObjectAttributes::empty();
    assert_eq!(attrs.bits(), 0);
    assert!(!attrs.contains(OBJECT_ATTR_FIXED_TPM));
}

#[test]
fn from_bits_keeps_any_combination() {
    let attrs = ObjectAttributes::from_bits(0xFFFF_FFFF);
    assert_eq!(attrs.bits(), 0xFFFF_FFFF);
    let attrs = ObjectAttributes::from_bits(OBJECT_ATTR_RESTRICTED | OBJECT_ATTR_DECRYPT);
    assert_eq!(attrs.bits(), 0x0003_0000);
}

#[test]
fn set_test_clear_flags() {
    let mut attrs = ObjectAttributes::empty();
    attrs.set(OBJECT_ATTR_FIXED_TPM | OBJECT_ATTR_RESTRICTED);
    assert!(attrs.contains(OBJECT_ATTR_FIXED_TPM));
    assert!(attrs.contains(OBJECT_ATTR_RESTRICTED));
    assert!(attrs.contains(OBJECT_ATTR_FIXED_TPM | OBJECT_ATTR_RESTRICTED));
    assert!(!attrs.contains(OBJECT_ATTR_DECRYPT));
    attrs.clear(OBJECT_ATTR_RESTRICTED);
    assert!(attrs.contains(OBJECT_ATTR_FIXED_TPM));
    assert!(!attrs.contains(OBJECT_ATTR_RESTRICTED));
    assert_eq!(attrs.bits(), OBJECT_ATTR_FIXED_TPM);
}

#[test]
fn error_names() {
    assert_eq!(TpmError::InvalidData.name(), "InvalidData");
    assert_eq!(TpmError::InvalidRead.name(), "InvalidRead");
    assert_eq!(TpmError::InvalidWrite.name(), "InvalidWrite");
    assert_eq!(TpmError::Boundary.name(), "Boundary");
}

#[test]
fn cli_values_carry_fields() {
    let cli = tpm2_call::Cli {
        device: String::from("/dev/tpmrm0"),
        command: tpm2_call::Commands::Rc { rc: 0x101 },
    };
    assert_eq!(cli.device, "/dev/tpmrm0");
    assert!(matches!(cli.command, tpm2_call::Commands::Rc { rc: 0x101 }));
    let listing = tpm2_call::Commands::List { transient: true, persistent: false };
    assert!(matches!(listing, tpm2_call::Commands::List { transient: true, persistent: false }));
}
