use tpm2_call::build_command;
use tpm2_call::build_start_auth_session_command;
use tpm2_call::get_capability;
use tpm2_call::parse_capability_handles;
use tpm2_call::parse_response;
use tpm2_call::read_response;
use tpm2_call::start_auth_session;
use tpm2_call::Command;
use tpm2_call::ResponseCode;
use tpm2_call::Session;
use tpm2_call::Tag;
use tpm2_call::TpmError;
use tpm2_call::TpmTransport;

struct FakeDev {
    reply: Vec<u8>,
    written: Vec<u8>,
    fail_write: bool,
    fail_read: bool,
}

impl FakeDev {
    fn replying(reply: Vec<u8>) -> FakeDev {
        FakeDev { reply, written: Vec::new(), fail_write: false, fail_read: false }
    }
}

impl TpmTransport for FakeDev {
    fn write_all(&mut self, buf: &[u8]) -> Result<(), ()> {
        if self.fail_write {
            return Err(());
        }
        self.written.extend_from_slice(buf);
        Ok(())
    }

    fn read_to_end(&mut self) -> Result<Vec<u8>, ()> {
        if self.fail_read {
            return Err(());
        }
        Ok(self.reply.clone())
    }
}

fn capability_reply(declared: u32, handles: &[u32]) -> Vec<u8> {
    let mut params = vec![0u8; 5];
    params.extend_from_slice(&declared.to_be_bytes());
    for h in handles {
        params.extend_from_slice(&h.to_be_bytes());
    }
    let total = (10 + params.len()) as u32;
    let mut buf = vec![0x80u8, 0x01];
    buf.extend_from_slice(&total.to_be_bytes());
    buf.extend_from_slice(&0u32.to_be_bytes());
    buf.extend_from_slice(&params);
    buf
}

#[test]
fn build_command_layout() {
    let cmd = build_command(Tag::NoSessions, Command::GetCapability, &[1, 2, 3]).unwrap();
    assert_eq!(
        cmd,
        vec![0x80, 0x01, 0x00, 0x00, 0x00, 0x0D, 0x00, 0x00, 0x01, 0x7A, 0x01, 0x02, 0x03]
    );
}

#[test]
fn build_command_over_ceiling_rejected() {
    let params = vec![0u8; 4087];
    assert_eq!(
        build_command(Tag::NoSessions, Command::GetCapability, &params),
        Err(TpmError::InvalidData)
    );
    let params = vec![0u8; 4086];
    assert!(build_command(Tag::NoSessions, Command::GetCapability, &params).is_ok());
}

#[test]
fn parse_response_rejects_short_buffer() {
    assert_eq!(parse_response(&[]), Err(TpmError::InvalidData));
    assert_eq!(parse_response(&[0x80, 0x01, 0, 0, 0, 10, 0, 0, 0]), Err(TpmError::InvalidData));
}

#[test]
fn parse_response_rejects_size_mismatch() {
    // declared size 11 but the buffer is 10 bytes long
    let buf = [0x80, 0x01, 0, 0, 0, 11, 0, 0, 0, 0];
    assert_eq!(parse_response(&buf), Err(TpmError::InvalidData));
    // declared size 10 but one trailing byte was appended
    let buf = [0x80, 0x01, 0, 0, 0, 10, 0, 0, 0, 0, 0xAA];
    assert_eq!(parse_response(&buf), Err(TpmError::InvalidData));
}

#[test]
fn parse_response_reads_header_and_parameters() {
    let buf = [0x80, 0x01, 0, 0, 0, 13, 0, 0, 0x01, 0x01, 0xAA, 0xBB, 0xCC];
    let resp = parse_response(&buf).unwrap();
    assert_eq!(resp.tag, Some(Tag::NoSessions));
    assert_eq!(resp.size, 13);
    assert_eq!(resp.rc, ResponseCode::Failure);
    assert_eq!(resp.parameters, vec![0xAA, 0xBB, 0xCC]);
}

#[test]
fn parse_response_unknown_tag_is_absent() {
    let buf = [0x12, 0x34, 0, 0, 0, 10, 0, 0, 0, 0];
    let resp = parse_response(&buf).unwrap();
    assert_eq!(resp.tag, None);
    assert_eq!(resp.rc, ResponseCode::Success);
    assert!(resp.parameters.is_empty());
}

#[test]
fn read_response_maps_read_failure() {
    let mut dev = FakeDev::replying(Vec::new());
    dev.fail_read = true;
    assert!(matches!(read_response(&mut dev), Err(TpmError::InvalidRead)));
}

#[test]
fn parse_capability_two_handles() {
    // [5 ignored bytes][count 2][0x11][0x12], requested max 16
    let mut params = vec![0u8; 5];
    params.extend_from_slice(&[0, 0, 0, 2]);
    params.extend_from_slice(&[0, 0, 0, 0x11]);
    params.extend_from_slice(&[0, 0, 0, 0x12]);
    let handles = parse_capability_handles(&params, 16).unwrap();
    assert_eq!(handles, vec![0x11, 0x12]);
}

#[test]
fn parse_capability_count_mismatch_rejected() {
    // claims 3 handles but provides bytes for only 2
    let mut params = vec![0u8; 5];
    params.extend_from_slice(&[0, 0, 0, 3]);
    params.extend_from_slice(&[0, 0, 0, 0x11]);
    params.extend_from_slice(&[0, 0, 0, 0x12]);
    assert_eq!(parse_capability_handles(&params, 16), Err(TpmError::InvalidData));
}

#[test]
fn parse_capability_ragged_length_rejected() {
    // (length - 9) is not a multiple of four
    let mut params = vec![0u8; 5];
    params.extend_from_slice(&[0, 0, 0, 1]);
    params.extend_from_slice(&[0, 0, 0x11]);
    assert_eq!(parse_capability_handles(&params, 16), Err(TpmError::InvalidData));
}

#[test]
fn parse_capability_short_prefix_rejected() {
    assert_eq!(parse_capability_handles(&[0u8; 8], 16), Err(TpmError::InvalidData));
}

#[test]
fn parse_capability_over_requested_rejected() {
    let mut params = vec![0u8; 5];
    params.extend_from_slice(&[0, 0, 0, 2]);
    params.extend_from_slice(&[0, 0, 0, 0x11]);
    params.extend_from_slice(&[0, 0, 0, 0x12]);
    assert_eq!(parse_capability_handles(&params, 1), Err(TpmError::InvalidData));
}

#[test]
fn parse_capability_zero_handles() {
    let mut params = vec![0u8; 5];
    params.extend_from_slice(&[0, 0, 0, 0]);
    let handles = parse_capability_handles(&params, 16).unwrap();
    assert!(handles.is_empty());
}

#[test]
fn get_capability_end_to_end() {
    let mut dev = FakeDev::replying(capability_reply(2, &[0x11, 0x12]));
    let handles = get_capability(&mut dev, 0x8000_0000, 16).unwrap();
    assert_eq!(handles, vec![0x11, 0x12]);
    // the single command written is the fixed 22-byte GetCapability frame
    assert_eq!(
        dev.written,
        vec![
            0x80, 0x01, // TPM_ST_NO_SESSIONS
            0x00, 0x00, 0x00, 0x16, // total size 22
            0x00, 0x00, 0x01, 0x7A, // TPM_CC_GetCapability
            0x00, 0x00, 0x00, 0x01, // TPM_CAP_HANDLES
            0x80, 0x00, 0x00, 0x00, // property: first transient handle
            0x00, 0x00, 0x00, 0x10, // property count 16
        ]
    );
}

#[test]
fn get_capability_device_over_reply_rejected() {
    let mut dev = FakeDev::replying(capability_reply(2, &[0x11, 0x12]));
    assert_eq!(get_capability(&mut dev, 0x8000_0000, 1), Err(TpmError::InvalidData));
}

#[test]
fn get_capability_write_failure() {
    let mut dev = FakeDev::replying(Vec::new());
    dev.fail_write = true;
    assert_eq!(get_capability(&mut dev, 0x8000_0000, 16), Err(TpmError::InvalidWrite));
}

#[test]
fn get_capability_truncated_reply_rejected() {
    let mut reply = capability_reply(2, &[0x11, 0x12]);
    reply.pop();
    let mut dev = FakeDev::replying(reply);
    assert_eq!(get_capability(&mut dev, 0x8000_0000, 16), Err(TpmError::InvalidData));
}

#[test]
fn start_auth_session_command_layout() {
    let nonce = [0xABu8; 16];
    let cmd = build_start_auth_session_command(Session::Policy, &nonce);
    let mut expected = vec![
        0x80, 0x01, // TPM_ST_NO_SESSIONS
        0x00, 0x00, 0x00, 0x2B, // total size 43
        0x00, 0x00, 0x01, 0x76, // TPM_CC_StartAuthSession
        0x40, 0x00, 0x00, 0x07, // bind: TPM_RH_NULL
        0x40, 0x00, 0x00, 0x07, // tpmKey: TPM_RH_NULL
        0x00, 0x10, // nonce size 16
    ];
    expected.extend_from_slice(&[0xAB; 16]);
    expected.extend_from_slice(&[0x00, 0x00]); // no encrypted salt
    expected.push(0x01); // TPM_SE_POLICY
    expected.extend_from_slice(&[0x00, 0x10]); // symmetric: TPM_ALG_NULL
    expected.extend_from_slice(&[0x00, 0x0B]); // auth hash: TPM_ALG_SHA256
    assert_eq!(cmd, expected);
}

#[test]
fn start_auth_session_returns_tpm_nonce() {
    let mut reply = vec![0u8; 16];
    reply.extend_from_slice(&[0xCD; 16]);
    let mut dev = FakeDev::replying(reply);
    let nonce = start_auth_session(&mut dev, Session::Hmac, &[0u8; 16]).unwrap();
    assert_eq!(nonce, vec![0xCD; 16]);
}

#[test]
fn start_auth_session_wrong_reply_size_rejected() {
    let mut dev = FakeDev::replying(vec![0u8; 31]);
    assert_eq!(start_auth_session(&mut dev, Session::Hmac, &[0u8; 16]), Err(TpmError::InvalidData));
}
