//! Client-side TPM 2.0 wire protocol: command framing, response parsing,
//! structured response-code decoding, and a byte-buffer stack of serialized
//! TPM objects.

mod attributes;
mod bytes;
mod cli;
mod codec;
mod constants;
mod error;
mod message;
mod rc;
mod stack;

pub use attributes::ObjectAttributes;
pub use attributes::OBJECT_ATTR_ADMIN_WITH_POLICY;
pub use attributes::OBJECT_ATTR_DECRYPT;
pub use attributes::OBJECT_ATTR_ENCRYPT;
pub use attributes::OBJECT_ATTR_ENCRYPTED_DUPLICATION;
pub use attributes::OBJECT_ATTR_FIXED_PARENT;
pub use attributes::OBJECT_ATTR_FIXED_TPM;
pub use attributes::OBJECT_ATTR_NOT_USED;
pub use attributes::OBJECT_ATTR_NO_DA;
pub use attributes::OBJECT_ATTR_RESTRICTED;
pub use attributes::OBJECT_ATTR_SENSITIVE_DATA_ORIGIN;
pub use attributes::OBJECT_ATTR_ST_CLEAR;
pub use attributes::OBJECT_ATTR_USER_WITH_AUTH;
pub use bytes::be16_bytes;
pub use bytes::be16_of;
pub use bytes::be32_at;
pub use bytes::be32_bytes;
pub use bytes::be32_of;
pub use constants::Algorithm;
pub use constants::Capability;
pub use constants::Class;
pub use constants::Command;
pub use constants::Handle;
pub use constants::Session;
pub use constants::Tag;
pub use constants::CAP_LAST;
pub use constants::CAP_VENDOR_PROPERTY;
pub use constants::CC_FIRST;
pub use constants::CC_LAST;
pub use cli::Cli;
pub use cli::Commands;
pub use codec::Tpm2b;
pub use codec::TpmCodec;
pub use error::TpmError;
pub use message::build_command;
pub use message::build_start_auth_session_command;
pub use message::capability_handles;
pub use message::capability_params_wf;
pub use message::command_frame_spec;
pub use message::get_capability;
pub use message::parse_capability_handles;
pub use message::parse_response;
pub use message::read_response;
pub use message::response_wf;
pub use message::start_auth_session;
pub use message::start_auth_session_command_spec;
pub use message::Response;
pub use message::TpmTransport;
pub use message::NONCE_SIZE;
pub use message::TPM_HEADER_SIZE;
pub use message::TPM_MAX_COMMAND_SIZE;
pub use stack::all_wf;
pub use stack::concat_encs;
pub use stack::is_concat_of;
pub use stack::lemma_push_pop_round_trip;
pub use stack::TpmStack;
pub use rc::decode_spec;
pub use rc::rc_mask;
pub use rc::rc_mask_spec;
pub use rc::ResponseCode;
pub use rc::RC_FMT1;
pub use rc::RC_VER1;
pub use rc::RC_WARN;
