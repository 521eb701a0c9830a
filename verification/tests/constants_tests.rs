use tpm2_call::Algorithm;
use tpm2_call::Capability;
use tpm2_call::Class;
use tpm2_call::Command;
use tpm2_call::Handle;
use tpm2_call::Session;
use tpm2_call::Tag;

#[test]
fn algorithm_values() {
    assert_eq!(Algorithm::Error.value(), 0x0000);
    assert_eq!(Algorithm::Rsa.value(), 0x0001);
    assert_eq!(Algorithm::Sha256.value(), 0x000B);
    assert_eq!(Algorithm::Null.value(), 0x0010);
    assert_eq!(Algorithm::Ecb.value(), 0x0044);
}

#[test]
fn algorithm_from_repr_round_trip() {
    assert_eq!(Algorithm::from_repr(0x000B), Some(Algorithm::Sha256));
    assert_eq!(Algorithm::from_repr(0x0044), Some(Algorithm::Ecb));
    assert_eq!(Algorithm::from_repr(0x0002), None);
    assert_eq!(Algorithm::from_repr(Algorithm::Camellia.value()), Some(Algorithm::Camellia));
}

#[test]
fn command_values() {
    assert_eq!(Command::GetCapability.value(), 0x0000_017A);
    assert_eq!(Command::StartAuthSession.value(), 0x0000_0176);
    assert_eq!(Command::NvUndefineSpaceSpecial.value(), tpm2_call::CC_FIRST);
    assert_eq!(Command::EncryptDecrypt2.value(), tpm2_call::CC_LAST);
}

#[test]
fn command_from_repr() {
    assert_eq!(Command::from_repr(0x0000_017A), Some(Command::GetCapability));
    assert_eq!(Command::from_repr(0x0000_0123), None);
}

#[test]
fn tag_values_and_lookup() {
    assert_eq!(Tag::NoSessions.value(), 0x8001);
    assert_eq!(Tag::Sessions.value(), 0x8002);
    assert_eq!(Tag::RspCommand.value(), 0x00C4);
    assert_eq!(Tag::from_repr(0x8001), Some(Tag::NoSessions));
    assert_eq!(Tag::from_repr(0x1234), None);
}

#[test]
fn session_values() {
    assert_eq!(Session::Hmac.value(), 0x00);
    assert_eq!(Session::Policy.value(), 0x01);
    assert_eq!(Session::Trial.value(), 0x03);
    assert_eq!(Session::from_repr(0x01), Some(Session::Policy));
    assert_eq!(Session::from_repr(0x02), None);
}

#[test]
fn capability_values() {
    assert_eq!(Capability::Algs.value(), 0x0000_0000);
    assert_eq!(Capability::Handles.value(), 0x0000_0001);
    assert_eq!(Capability::AuthPolicies.value(), tpm2_call::CAP_LAST);
    assert_eq!(Capability::from_repr(0x0000_0001), Some(Capability::Handles));
    assert_eq!(Capability::from_repr(0x0000_000A), None);
}

#[test]
fn class_values() {
    assert_eq!(Class::Pcr.value(), 0x00);
    assert_eq!(Class::Transient.value(), 0x80);
    assert_eq!(Class::Persistent.value(), 0x81);
    assert_eq!(Class::from_repr(0x40), Some(Class::Permanent));
    assert_eq!(Class::from_repr(0x7F), None);
}

#[test]
fn handle_values() {
    assert_eq!(Handle::Owner.value(), 0x4000_0001);
    assert_eq!(Handle::Null.value(), 0x4000_0007);
    assert_eq!(Handle::Password.value(), 0x4000_0009);
    assert_eq!(Handle::Transient.value(), 0x8000_0000);
    assert_eq!(Handle::Persistent.value(), 0x8100_0000);
    assert_eq!(Handle::from_repr(0x4000_000A), Some(Handle::Lockout));
    assert_eq!(Handle::from_repr(0x4000_00FF), None);
}
