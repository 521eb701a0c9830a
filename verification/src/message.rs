//! The message framer: builds big-endian command buffers with the fixed
//! 10-byte TPM header, reads and validates response buffers against that
//! header, and offers the capability query and session start built on it.

use vstd::prelude::*;
use vstd::pervasive::unreached;
use vstd::slice::slice_subrange;
use vstd::slice::slice_to_vec;

use crate::bytes::be16_bytes;
use crate::bytes::be16_of;
use crate::bytes::be32_at;
use crate::bytes::be32_bytes;
use crate::bytes::push_be16;
use crate::bytes::push_be32;
use crate::bytes::push_bytes;
use crate::bytes::read_be16;
use crate::bytes::read_be32;
use crate::constants::Algorithm;
use crate::constants::Capability;
use crate::constants::Command;
use crate::constants::Handle;
use crate::constants::Session;
use crate::constants::Tag;
use crate::error::TpmError;
use crate::rc::decode_spec;
use crate::rc::ResponseCode;

verus! {

/// Fixed length of every command and response header.
pub const TPM_HEADER_SIZE: usize = 10;

/// Ceiling on the size of a whole command buffer.
pub const TPM_MAX_COMMAND_SIZE: usize = 4096;

/// Authenticated session nonce size.
pub const NONCE_SIZE: u16 = 16;

/// A duplex byte channel to a TPM device: one whole command is written,
/// then one whole response is read back. Implementations do unverified
/// I/O; nothing is assumed about the bytes they move.
pub trait TpmTransport {
    /// Writes the whole buffer to the device, or fails.
    fn write_all(&mut self, buf: &[u8]) -> Result<(), ()>;

    /// Reads bytes until end-of-stream, or fails.
    fn read_to_end(&mut self) -> Result<Vec<u8>, ()>;
}

/// A parsed TPM response frame.
#[derive(Debug, PartialEq)]
pub struct Response {
    /// The recognized structure tag, `None` where the wire value is unknown.
    pub tag: Option<Tag>,
    /// Declared total size, equal to the length of the parsed buffer.
    pub size: u32,
    /// The decoded response code.
    pub rc: ResponseCode,
    /// Everything after the 10-byte header.
    pub parameters: Vec<u8>,
}

/// A buffer is a well-formed response frame: at least the 10-byte header
/// long, with a declared size equal to its actual length.
pub open spec fn response_wf(buf: Seq<u8>) -> bool {
    buf.len() >= TPM_HEADER_SIZE && be32_at(buf, 2) as int == buf.len() as int
}

/// Parses and validates one complete response buffer: the whole frame as
/// read from the device, header included.
pub fn parse_response(buf: &[u8]) -> (r: Result<Response, TpmError>)
    ensures
        r is Ok <==> response_wf(buf@),
        r matches Err(e) ==> e == TpmError::InvalidData,
        r matches Ok(resp) ==> resp.tag == Tag::from_repr_spec(be16_of(buf@[0], buf@[1])),
        r matches Ok(resp) ==> resp.size == be32_at(buf@, 2) && resp.size as int == buf@.len(),
        r matches Ok(resp) ==> resp.rc == decode_spec(be32_at(buf@, 6)),
        r matches Ok(resp) ==> resp.parameters@ == buf@.skip(TPM_HEADER_SIZE as int),
{
    if buf.len() < TPM_HEADER_SIZE {
        return Err(TpmError::InvalidData);
    }
    let tag_raw = read_be16(buf[0], buf[1]);
    let size = read_be32(buf[2], buf[3], buf[4], buf[5]);
    let rc_raw = read_be32(buf[6], buf[7], buf[8], buf[9]);

    if size as usize != buf.len() {
        return Err(TpmError::InvalidData);
    }
    let parameters = slice_to_vec(slice_subrange(buf, TPM_HEADER_SIZE, buf.len()));

    Ok(Response {
        tag: Tag::from_repr(tag_raw),
        size,
        rc: ResponseCode::from(rc_raw),
        parameters,
    })
}

/// Reads one framed TPM response from a device stream and parses it; any
/// returned response came from a well-formed buffer.
pub fn read_response<T: TpmTransport>(file: &mut T) -> (r: Result<Response, TpmError>)
    ensures
        r matches Err(e) ==> (e == TpmError::InvalidRead || e == TpmError::InvalidData),
        r matches Ok(resp) ==> exists|buf: Seq<u8>|
            #[trigger] response_wf(buf) && resp.tag == Tag::from_repr_spec(be16_of(buf[0], buf[1]))
                && resp.size as int == buf.len() && resp.rc == decode_spec(be32_at(buf, 6))
                && resp.parameters@ == buf.skip(TPM_HEADER_SIZE as int),
{
    let buf = match file.read_to_end() {
        Ok(b) => b,
        Err(_) => {
            return Err(TpmError::InvalidRead);
        },
    };
    let r = parse_response(buf.as_slice());
    proof {
        if r is Ok {
            assert(response_wf(buf@));
        }
    }
    r
}

/// The command frame for a tag, a command code and parameter bytes: the
/// 2-byte tag, the 4-byte computed total size, the 4-byte command code,
/// then the parameters in order; every field big-endian.
pub open spec fn command_frame_spec(tag: Tag, cc: Command, params: Seq<u8>) -> Seq<u8> {
    be16_bytes(tag.value_spec()) + be32_bytes((TPM_HEADER_SIZE + params.len()) as u32)
        + be32_bytes(cc.value_spec()) + params
}

/// Builds a command frame. A frame that would exceed the command-size
/// ceiling is a hard error.
pub fn build_command(tag: Tag, cc: Command, params: &[u8]) -> (r: Result<Vec<u8>, TpmError>)
    ensures
        r is Ok <==> TPM_HEADER_SIZE + params@.len() <= TPM_MAX_COMMAND_SIZE,
        r matches Ok(cmd) ==> cmd@ == command_frame_spec(tag, cc, params@),
        r matches Err(e) ==> e == TpmError::InvalidData,
{
    if params.len() > TPM_MAX_COMMAND_SIZE - TPM_HEADER_SIZE {
        return Err(TpmError::InvalidData);
    }
    let mut cmd: Vec<u8> = Vec::new();
    push_be16(&mut cmd, tag.value());
    push_be32(&mut cmd, (TPM_HEADER_SIZE + params.len()) as u32);
    push_be32(&mut cmd, cc.value());
    push_bytes(&mut cmd, params);
    proof {
        assert(cmd@ =~= command_frame_spec(tag, cc, params@));
    }
    Ok(cmd)
}

/// Capability-response parameter bytes are well-formed for a request of at
/// most `property_count` handles: at least the 9-byte prefix, a whole
/// number of 4-byte handles after it, and a declared count that matches
/// the handle bytes exactly and does not exceed the request.
pub open spec fn capability_params_wf(params: Seq<u8>, property_count: u32) -> bool {
    &&& params.len() >= 9
    &&& (params.len() - 9) % 4 == 0
    &&& be32_at(params, 5) as int == (params.len() - 9) / 4
    &&& be32_at(params, 5) <= property_count
}

/// The handle values carried after the 9-byte prefix, in device order.
pub open spec fn capability_handles(params: Seq<u8>) -> Seq<u32> {
    Seq::new((((params.len() - 9) / 4) as nat), |i: int| be32_at(params, 9 + 4 * i))
}

/// Validates the parameter block of a capability response against the
/// requested maximum and decodes the handles it carries, in device order.
pub fn parse_capability_handles(params: &[u8], property_count: u32) -> (r: Result<
    Vec<u32>,
    TpmError,
>)
    ensures
        r is Ok <==> capability_params_wf(params@, property_count),
        r matches Ok(handles) ==> handles@ == capability_handles(params@),
        r matches Err(e) ==> e == TpmError::InvalidData,
{
    if params.len() < 9 || (params.len() - 9) % 4 != 0 {
        return Err(TpmError::InvalidData);
    }
    let declared = read_be32(params[5], params[6], params[7], params[8]);
    let count = (params.len() - 9) / 4;
    if declared as usize != count {
        return Err(TpmError::InvalidData);
    }
    if declared > property_count {
        return Err(TpmError::InvalidData);
    }

    let mut handles: Vec<u32> = Vec::new();
    let mut i: usize = 0;
    while i < count
        invariant
            params@.len() >= 9,
            4 * count == params@.len() - 9,
            4 * count + 9 <= usize::MAX,
            i <= count,
            handles@ == capability_handles(params@).take(i as int),
        decreases count - i,
    {
        let j: usize = 9 + i * 4;
        let handle = read_be32(params[j], params[j + 1], params[j + 2], params[j + 3]);
        handles.push(handle);
        i = i + 1;
        proof {
            assert(handles@ =~= capability_handles(params@).take(i as int));
        }
    }
    proof {
        assert(handles@ =~= capability_handles(params@));
    }
    Ok(handles)
}

/// Queries the TPM for a window of object handles: encodes the fixed-shape
/// GetCapability command, writes it, reads the response and validates and
/// decodes its parameter block. Any returned handles came from a
/// well-formed parameter block and stay in device order.
pub fn get_capability<T: TpmTransport>(file: &mut T, property: u32, property_count: u32) -> (r:
    Result<Vec<u32>, TpmError>)
    ensures
        r matches Ok(handles) ==> exists|params: Seq<u8>|
            #[trigger] capability_params_wf(params, property_count) && handles@
                == capability_handles(params),
        r matches Ok(handles) ==> handles@.len() <= property_count,
        r matches Err(e) ==> (e == TpmError::InvalidData || e == TpmError::InvalidRead || e
            == TpmError::InvalidWrite),
{
    let mut body: Vec<u8> = Vec::new();
    push_be32(&mut body, Capability::Handles.value());
    push_be32(&mut body, property);
    push_be32(&mut body, property_count);
    let cmd = match build_command(Tag::NoSessions, Command::GetCapability, body.as_slice()) {
        Ok(c) => c,
        Err(_) => unreached(),
    };
    if file.write_all(cmd.as_slice()).is_err() {
        return Err(TpmError::InvalidWrite);
    }
    let response = match read_response(file) {
        Ok(resp) => resp,
        Err(e) => {
            return Err(e);
        },
    };
    let r = parse_capability_handles(response.parameters.as_slice(), property_count);
    proof {
        if r is Ok {
            assert(capability_params_wf(response.parameters@, property_count));
        }
    }
    r
}

/// The StartAuthSession command buffer: NULL bind and tpmKey handles, the
/// 16-byte caller nonce, no encrypted salt, the session type, the NULL
/// symmetric algorithm and the SHA-256 authorization hash.
pub open spec fn start_auth_session_command_spec(
    session_type: Session,
    nonce_caller: Seq<u8>,
) -> Seq<u8> {
    command_frame_spec(
        Tag::NoSessions,
        Command::StartAuthSession,
        be32_bytes(Handle::Null.value_spec()) + be32_bytes(Handle::Null.value_spec()) + be16_bytes(
            NONCE_SIZE,
        ) + nonce_caller + be16_bytes(0) + seq![session_type.value_spec()] + be16_bytes(
            Algorithm::Null.value_spec(),
        ) + be16_bytes(Algorithm::Sha256.value_spec()),
    )
}

/// Builds the StartAuthSession command for an unbound, unsalted session.
pub fn build_start_auth_session_command(session_type: Session, nonce_caller: &[u8; 16]) -> (r:
    Vec<u8>)
    ensures
        r@ == start_auth_session_command_spec(session_type, nonce_caller@),
{
    let mut body: Vec<u8> = Vec::new();
    push_be32(&mut body, Handle::Null.value());  // bind
    push_be32(&mut body, Handle::Null.value());  // tpmKey
    push_be16(&mut body, NONCE_SIZE);
    push_bytes(&mut body, nonce_caller.as_slice());
    push_be16(&mut body, 0);
    body.push(session_type.value());
    push_be16(&mut body, Algorithm::Null.value());
    push_be16(&mut body, Algorithm::Sha256.value());
    let cmd = match build_command(Tag::NoSessions, Command::StartAuthSession, body.as_slice()) {
        Ok(c) => c,
        Err(_) => unreached(),
    };
    proof {
        assert(cmd@ =~= start_auth_session_command_spec(session_type, nonce_caller@));
    }
    cmd
}

/// Starts an authorization session and returns the 16-byte TPM nonce, the
/// second half of the fixed 32-byte reply.
pub fn start_auth_session<T: TpmTransport>(
    file: &mut T,
    session_type: Session,
    nonce_caller: &[u8; 16],
) -> (r: Result<Vec<u8>, TpmError>)
    ensures
        r matches Ok(nonce_tpm) ==> nonce_tpm@.len() == 16 && exists|buf: Seq<u8>|
            buf.len() == 32 && nonce_tpm@ == #[trigger] buf.subrange(16, 32),
        r matches Err(e) ==> (e == TpmError::InvalidData || e == TpmError::InvalidRead || e
            == TpmError::InvalidWrite),
{
    let cmd = build_start_auth_session_command(session_type, nonce_caller);
    if file.write_all(cmd.as_slice()).is_err() {
        return Err(TpmError::InvalidWrite);
    }
    let buf = match file.read_to_end() {
        Ok(b) => b,
        Err(_) => {
            return Err(TpmError::InvalidRead);
        },
    };
    if buf.len() != 32 {
        return Err(TpmError::InvalidData);
    }
    let nonce_tpm = slice_to_vec(slice_subrange(buf.as_slice(), 16, 32));
    proof {
        assert(nonce_tpm@ == buf@.subrange(16, 32));
    }
    Ok(nonce_tpm)
}

} // verus!
