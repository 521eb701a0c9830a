//! The response-code decoder: classifies a raw 32-bit code into one of
//! four TPM numbering spaces and resolves it to a symbolic value, total
//! over all of `u32` with a `NotUsed` fallback.

use vstd::prelude::*;

verus! {

/// Marker base of the version-1 numbering space.
pub const RC_VER1: u32 = 0x0100;

/// Marker base of the format-1 numbering space.
pub const RC_FMT1: u32 = 0x0080;

/// Marker base of the warning numbering space.
pub const RC_WARN: u32 = 0x0900;

/// Enumeration of the `TPM_RC` values.
///
/// The possible values for `TPM_RC` are described in the section 6.6 of the
/// TPM 2.0 Structures specification.
#[derive(Clone, Copy, Debug, PartialEq, Eq, Structural)]
pub enum ResponseCode {
    Success,
    BadTag,
    Initialize,
    Failure,
    Sequence,
    Private,
    Hmac,
    Disabled,
    Exclusive,
    AuthType,
    AuthMissing,
    Policy,
    Pcr,
    PcrChanged,
    Upgrade,
    TooManyContexts,
    AuthUnavailable,
    Reboot,
    Unbalanced,
    CommandSize,
    CommandCode,
    AuthSize,
    AuthContext,
    NvRange,
    NvSize,
    NvLocked,
    NvAuthorization,
    NvUninitialized,
    NvSpace,
    NvDefined,
    BadContext,
    CpHash,
    Parent,
    NeedsTest,
    NoResult,
    Sensitive,
    Asymmetric,
    Attributes,
    Hash,
    Value,
    Hierarchy,
    KeySize,
    Mgf,
    Mode,
    Type,
    Handle,
    Kdf,
    Range,
    AuthFail,
    Nonce,
    Pp,
    Scheme,
    Size,
    Symmetric,
    Tag,
    Selector,
    Insufficient,
    Signature,
    Key,
    PolicyFail,
    Integrity,
    Ticket,
    ReservedBits,
    BadAuth,
    Expired,
    PolicyCc,
    Binding,
    Curve,
    EccPoint,
    ContextGap,
    ObjectMemory,
    SessionMemory,
    Memory,
    SessionHandles,
    ObjectHandles,
    Locality,
    Yielded,
    Canceled,
    Testing,
    ReferenceH0,
    ReferenceH1,
    ReferenceH2,
    ReferenceH3,
    ReferenceH4,
    ReferenceH5,
    ReferenceH6,
    ReferenceS0,
    ReferenceS1,
    ReferenceS2,
    ReferenceS3,
    ReferenceS4,
    ReferenceS5,
    ReferenceS6,
    NvRate,
    Lockout,
    Retry,
    NvUnavailable,
    NotUsed,
}

impl ResponseCode {
    /// The wire value of the variant.
    pub open spec fn value_spec(&self) -> u32 {
        match self {
            ResponseCode::Success => 0x00,
            ResponseCode::BadTag => 0x1E,
            ResponseCode::Initialize => 0x0100,
            ResponseCode::Failure => 0x0101,
            ResponseCode::Sequence => 0x0103,
            ResponseCode::Private => 0x010B,
            ResponseCode::Hmac => 0x0119,
            ResponseCode::Disabled => 0x0120,
            ResponseCode::Exclusive => 0x0121,
            ResponseCode::AuthType => 0x0124,
            ResponseCode::AuthMissing => 0x0125,
            ResponseCode::Policy => 0x0126,
            ResponseCode::Pcr => 0x0127,
            ResponseCode::PcrChanged => 0x0128,
            ResponseCode::Upgrade => 0x012D,
            ResponseCode::TooManyContexts => 0x012E,
            ResponseCode::AuthUnavailable => 0x012F,
            ResponseCode::Reboot => 0x0130,
            ResponseCode::Unbalanced => 0x0131,
            ResponseCode::CommandSize => 0x0142,
            ResponseCode::CommandCode => 0x0143,
            ResponseCode::AuthSize => 0x0144,
            ResponseCode::AuthContext => 0x0145,
            ResponseCode::NvRange => 0x0146,
            ResponseCode::NvSize => 0x0147,
            ResponseCode::NvLocked => 0x0148,
            ResponseCode::NvAuthorization => 0x0149,
            ResponseCode::NvUninitialized => 0x014A,
            ResponseCode::NvSpace => 0x014B,
            ResponseCode::NvDefined => 0x014C,
            ResponseCode::BadContext => 0x0150,
            ResponseCode::CpHash => 0x0151,
            ResponseCode::Parent => 0x0152,
            ResponseCode::NeedsTest => 0x0153,
            ResponseCode::NoResult => 0x0154,
            ResponseCode::Sensitive => 0x0155,
            ResponseCode::Asymmetric => 0x81,
            ResponseCode::Attributes => 0x82,
            ResponseCode::Hash => 0x83,
            ResponseCode::Value => 0x84,
            ResponseCode::Hierarchy => 0x85,
            ResponseCode::KeySize => 0x87,
            ResponseCode::Mgf => 0x88,
            ResponseCode::Mode => 0x89,
            ResponseCode::Type => 0x8A,
            ResponseCode::Handle => 0x8B,
            ResponseCode::Kdf => 0x8C,
            ResponseCode::Range => 0x8D,
            ResponseCode::AuthFail => 0x8E,
            ResponseCode::Nonce => 0x8F,
            ResponseCode::Pp => 0x90,
            ResponseCode::Scheme => 0x92,
            ResponseCode::Size => 0x95,
            ResponseCode::Symmetric => 0x96,
            ResponseCode::Tag => 0x97,
            ResponseCode::Selector => 0x98,
            ResponseCode::Insufficient => 0x9A,
            ResponseCode::Signature => 0x9B,
            ResponseCode::Key => 0x9C,
            ResponseCode::PolicyFail => 0x9D,
            ResponseCode::Integrity => 0x9F,
            ResponseCode::Ticket => 0xA0,
            ResponseCode::ReservedBits => 0xA1,
            ResponseCode::BadAuth => 0xA2,
            ResponseCode::Expired => 0xA3,
            ResponseCode::PolicyCc => 0xA4,
            ResponseCode::Binding => 0xA5,
            ResponseCode::Curve => 0xA6,
            ResponseCode::EccPoint => 0xA7,
            ResponseCode::ContextGap => 0x0901,
            ResponseCode::ObjectMemory => 0x0902,
            ResponseCode::SessionMemory => 0x0903,
            ResponseCode::Memory => 0x0904,
            ResponseCode::SessionHandles => 0x0905,
            ResponseCode::ObjectHandles => 0x0906,
            ResponseCode::Locality => 0x0907,
            ResponseCode::Yielded => 0x0908,
            ResponseCode::Canceled => 0x0909,
            ResponseCode::Testing => 0x090A,
            ResponseCode::ReferenceH0 => 0x0910,
            ResponseCode::ReferenceH1 => 0x0911,
            ResponseCode::ReferenceH2 => 0x0912,
            ResponseCode::ReferenceH3 => 0x0913,
            ResponseCode::ReferenceH4 => 0x0914,
            ResponseCode::ReferenceH5 => 0x0915,
            ResponseCode::ReferenceH6 => 0x0916,
            ResponseCode::ReferenceS0 => 0x0918,
            ResponseCode::ReferenceS1 => 0x0919,
            ResponseCode::ReferenceS2 => 0x091A,
            ResponseCode::ReferenceS3 => 0x091B,
            ResponseCode::ReferenceS4 => 0x091C,
            ResponseCode::ReferenceS5 => 0x091D,
            ResponseCode::ReferenceS6 => 0x091E,
            ResponseCode::NvRate => 0x0920,
            ResponseCode::Lockout => 0x0921,
            ResponseCode::Retry => 0x0922,
            ResponseCode::NvUnavailable => 0x0923,
            ResponseCode::NotUsed => 0x097F,
        }
    }

    /// Returns the wire value of the variant.
    pub fn value(&self) -> (r: u32)
        ensures
            r == self.value_spec(),
    {
        match self {
            ResponseCode::Success => 0x00,
            ResponseCode::BadTag => 0x1E,
            ResponseCode::Initialize => 0x0100,
            ResponseCode::Failure => 0x0101,
            ResponseCode::Sequence => 0x0103,
            ResponseCode::Private => 0x010B,
            ResponseCode::Hmac => 0x0119,
            ResponseCode::Disabled => 0x0120,
            ResponseCode::Exclusive => 0x0121,
            ResponseCode::AuthType => 0x0124,
            ResponseCode::AuthMissing => 0x0125,
            ResponseCode::Policy => 0x0126,
            ResponseCode::Pcr => 0x0127,
            ResponseCode::PcrChanged => 0x0128,
            ResponseCode::Upgrade => 0x012D,
            ResponseCode::TooManyContexts => 0x012E,
            ResponseCode::AuthUnavailable => 0x012F,
            ResponseCode::Reboot => 0x0130,
            ResponseCode::Unbalanced => 0x0131,
            ResponseCode::CommandSize => 0x0142,
            ResponseCode::CommandCode => 0x0143,
            ResponseCode::AuthSize => 0x0144,
            ResponseCode::AuthContext => 0x0145,
            ResponseCode::NvRange => 0x0146,
            ResponseCode::NvSize => 0x0147,
            ResponseCode::NvLocked => 0x0148,
            ResponseCode::NvAuthorization => 0x0149,
            ResponseCode::NvUninitialized => 0x014A,
            ResponseCode::NvSpace => 0x014B,
            ResponseCode::NvDefined => 0x014C,
            ResponseCode::BadContext => 0x0150,
            ResponseCode::CpHash => 0x0151,
            ResponseCode::Parent => 0x0152,
            ResponseCode::NeedsTest => 0x0153,
            ResponseCode::NoResult => 0x0154,
            ResponseCode::Sensitive => 0x0155,
            ResponseCode::Asymmetric => 0x81,
            ResponseCode::Attributes => 0x82,
            ResponseCode::Hash => 0x83,
            ResponseCode::Value => 0x84,
            ResponseCode::Hierarchy => 0x85,
            ResponseCode::KeySize => 0x87,
            ResponseCode::Mgf => 0x88,
            ResponseCode::Mode => 0x89,
            ResponseCode::Type => 0x8A,
            ResponseCode::Handle => 0x8B,
            ResponseCode::Kdf => 0x8C,
            ResponseCode::Range => 0x8D,
            ResponseCode::AuthFail => 0x8E,
            ResponseCode::Nonce => 0x8F,
            ResponseCode::Pp => 0x90,
            ResponseCode::Scheme => 0x92,
            ResponseCode::Size => 0x95,
            ResponseCode::Symmetric => 0x96,
            ResponseCode::Tag => 0x97,
            ResponseCode::Selector => 0x98,
            ResponseCode::Insufficient => 0x9A,
            ResponseCode::Signature => 0x9B,
            ResponseCode::Key => 0x9C,
            ResponseCode::PolicyFail => 0x9D,
            ResponseCode::Integrity => 0x9F,
            ResponseCode::Ticket => 0xA0,
            ResponseCode::ReservedBits => 0xA1,
            ResponseCode::BadAuth => 0xA2,
            ResponseCode::Expired => 0xA3,
            ResponseCode::PolicyCc => 0xA4,
            ResponseCode::Binding => 0xA5,
            ResponseCode::Curve => 0xA6,
            ResponseCode::EccPoint => 0xA7,
            ResponseCode::ContextGap => 0x0901,
            ResponseCode::ObjectMemory => 0x0902,
            ResponseCode::SessionMemory => 0x0903,
            ResponseCode::Memory => 0x0904,
            ResponseCode::SessionHandles => 0x0905,
            ResponseCode::ObjectHandles => 0x0906,
            ResponseCode::Locality => 0x0907,
            ResponseCode::Yielded => 0x0908,
            ResponseCode::Canceled => 0x0909,
            ResponseCode::Testing => 0x090A,
            ResponseCode::ReferenceH0 => 0x0910,
            ResponseCode::ReferenceH1 => 0x0911,
            ResponseCode::ReferenceH2 => 0x0912,
            ResponseCode::ReferenceH3 => 0x0913,
            ResponseCode::ReferenceH4 => 0x0914,
            ResponseCode::ReferenceH5 => 0x0915,
            ResponseCode::ReferenceH6 => 0x0916,
            ResponseCode::ReferenceS0 => 0x0918,
            ResponseCode::ReferenceS1 => 0x0919,
            ResponseCode::ReferenceS2 => 0x091A,
            ResponseCode::ReferenceS3 => 0x091B,
            ResponseCode::ReferenceS4 => 0x091C,
            ResponseCode::ReferenceS5 => 0x091D,
            ResponseCode::ReferenceS6 => 0x091E,
            ResponseCode::NvRate => 0x0920,
            ResponseCode::Lockout => 0x0921,
            ResponseCode::Retry => 0x0922,
            ResponseCode::NvUnavailable => 0x0923,
            ResponseCode::NotUsed => 0x097F,
        }
    }

    /// The variant carrying a wire value, `None` where no variant has it.
    pub open spec fn from_repr_spec(value: u32) -> Option<ResponseCode> {
        if value == 0x00 {
            Some(ResponseCode::Success)
        } else if value == 0x1E {
            Some(ResponseCode::BadTag)
        } else if value == 0x0100 {
            Some(ResponseCode::Initialize)
        } else if value == 0x0101 {
            Some(ResponseCode::Failure)
        } else if value == 0x0103 {
            Some(ResponseCode::Sequence)
        } else if value == 0x010B {
            Some(ResponseCode::Private)
        } else if value == 0x0119 {
            Some(ResponseCode::Hmac)
        } else if value == 0x0120 {
            Some(ResponseCode::Disabled)
        } else if value == 0x0121 {
            Some(ResponseCode::Exclusive)
        } else if value == 0x0124 {
            Some(ResponseCode::AuthType)
        } else if value == 0x0125 {
            Some(ResponseCode::AuthMissing)
        } else if value == 0x0126 {
            Some(ResponseCode::Policy)
        } else if value == 0x0127 {
            Some(ResponseCode::Pcr)
        } else if value == 0x0128 {
            Some(ResponseCode::PcrChanged)
        } else if value == 0x012D {
            Some(ResponseCode::Upgrade)
        } else if value == 0x012E {
            Some(ResponseCode::TooManyContexts)
        } else if value == 0x012F {
            Some(ResponseCode::AuthUnavailable)
        } else if value == 0x0130 {
            Some(ResponseCode::Reboot)
        } else if value == 0x0131 {
            Some(ResponseCode::Unbalanced)
        } else if value == 0x0142 {
            Some(ResponseCode::CommandSize)
        } else if value == 0x0143 {
            Some(ResponseCode::CommandCode)
        } else if value == 0x0144 {
            Some(ResponseCode::AuthSize)
        } else if value == 0x0145 {
            Some(ResponseCode::AuthContext)
        } else if value == 0x0146 {
            Some(ResponseCode::NvRange)
        } else if value == 0x0147 {
            Some(ResponseCode::NvSize)
        } else if value == 0x0148 {
            Some(ResponseCode::NvLocked)
        } else if value == 0x0149 {
            Some(ResponseCode::NvAuthorization)
        } else if value == 0x014A {
            Some(ResponseCode::NvUninitialized)
        } else if value == 0x014B {
            Some(ResponseCode::NvSpace)
        } else if value == 0x014C {
            Some(ResponseCode::NvDefined)
        } else if value == 0x0150 {
            Some(ResponseCode::BadContext)
        } else if value == 0x0151 {
            Some(ResponseCode::CpHash)
        } else if value == 0x0152 {
            Some(ResponseCode::Parent)
        } else if value == 0x0153 {
            Some(ResponseCode::NeedsTest)
        } else if value == 0x0154 {
            Some(ResponseCode::NoResult)
        } else if value == 0x0155 {
            Some(ResponseCode::Sensitive)
        } else if value == 0x81 {
            Some(ResponseCode::Asymmetric)
        } else if value == 0x82 {
            Some(ResponseCode::Attributes)
        } else if value == 0x83 {
            Some(ResponseCode::Hash)
        } else if value == 0x84 {
            Some(ResponseCode::Value)
        } else if value == 0x85 {
            Some(ResponseCode::Hierarchy)
        } else if value == 0x87 {
            Some(ResponseCode::KeySize)
        } else if value == 0x88 {
            Some(ResponseCode::Mgf)
        } else if value == 0x89 {
            Some(ResponseCode::Mode)
        } else if value == 0x8A {
            Some(ResponseCode::Type)
        } else if value == 0x8B {
            Some(ResponseCode::Handle)
        } else if value == 0x8C {
            Some(ResponseCode::Kdf)
        } else if value == 0x8D {
            Some(ResponseCode::Range)
        } else if value == 0x8E {
            Some(ResponseCode::AuthFail)
        } else if value == 0x8F {
            Some(ResponseCode::Nonce)
        } else if value == 0x90 {
            Some(ResponseCode::Pp)
        } else if value == 0x92 {
            Some(ResponseCode::Scheme)
        } else if value == 0x95 {
            Some(ResponseCode::Size)
        } else if value == 0x96 {
            Some(ResponseCode::Symmetric)
        } else if value == 0x97 {
            Some(ResponseCode::Tag)
        } else if value == 0x98 {
            Some(ResponseCode::Selector)
        } else if value == 0x9A {
            Some(ResponseCode::Insufficient)
        } else if value == 0x9B {
            Some(ResponseCode::Signature)
        } else if value == 0x9C {
            Some(ResponseCode::Key)
        } else if value == 0x9D {
            Some(ResponseCode::PolicyFail)
        } else if value == 0x9F {
            Some(ResponseCode::Integrity)
        } else if value == 0xA0 {
            Some(ResponseCode::Ticket)
        } else if value == 0xA1 {
            Some(ResponseCode::ReservedBits)
        } else if value == 0xA2 {
            Some(ResponseCode::BadAuth)
        } else if value == 0xA3 {
            Some(ResponseCode::Expired)
        } else if value == 0xA4 {
            Some(ResponseCode::PolicyCc)
        } else if value == 0xA5 {
            Some(ResponseCode::Binding)
        } else if value == 0xA6 {
            Some(ResponseCode::Curve)
        } else if value == 0xA7 {
            Some(ResponseCode::EccPoint)
        } else if value == 0x0901 {
            Some(ResponseCode::ContextGap)
        } else if value == 0x0902 {
            Some(ResponseCode::ObjectMemory)
        } else if value == 0x0903 {
            Some(ResponseCode::SessionMemory)
        } else if value == 0x0904 {
            Some(ResponseCode::Memory)
        } else if value == 0x0905 {
            Some(ResponseCode::SessionHandles)
        } else if value == 0x0906 {
            Some(ResponseCode::ObjectHandles)
        } else if value == 0x0907 {
            Some(ResponseCode::Locality)
        } else if value == 0x0908 {
            Some(ResponseCode::Yielded)
        } else if value == 0x0909 {
            Some(ResponseCode::Canceled)
        } else if value == 0x090A {
            Some(ResponseCode::Testing)
        } else if value == 0x0910 {
            Some(ResponseCode::ReferenceH0)
        } else if value == 0x0911 {
            Some(ResponseCode::ReferenceH1)
        } else if value == 0x0912 {
            Some(ResponseCode::ReferenceH2)
        } else if value == 0x0913 {
            Some(ResponseCode::ReferenceH3)
        } else if value == 0x0914 {
            Some(ResponseCode::ReferenceH4)
        } else if value == 0x0915 {
            Some(ResponseCode::ReferenceH5)
        } else if value == 0x0916 {
            Some(ResponseCode::ReferenceH6)
        } else if value == 0x0918 {
            Some(ResponseCode::ReferenceS0)
        } else if value == 0x0919 {
            Some(ResponseCode::ReferenceS1)
        } else if value == 0x091A {
            Some(ResponseCode::ReferenceS2)
        } else if value == 0x091B {
            Some(ResponseCode::ReferenceS3)
        } else if value == 0x091C {
            Some(ResponseCode::ReferenceS4)
        } else if value == 0x091D {
            Some(ResponseCode::ReferenceS5)
        } else if value == 0x091E {
            Some(ResponseCode::ReferenceS6)
        } else if value == 0x0920 {
            Some(ResponseCode::NvRate)
        } else if value == 0x0921 {
            Some(ResponseCode::Lockout)
        } else if value == 0x0922 {
            Some(ResponseCode::Retry)
        } else if value == 0x0923 {
            Some(ResponseCode::NvUnavailable)
        } else if value == 0x097F {
            Some(ResponseCode::NotUsed)
        } else {
            None
        }
    }

    /// Looks up the variant carrying a wire value.
    pub fn from_repr(value: u32) -> (r: Option<ResponseCode>)
        ensures
            r == Self::from_repr_spec(value),
    {
        if value == 0x00 {
            Some(ResponseCode::Success)
        } else if value == 0x1E {
            Some(ResponseCode::BadTag)
        } else if value == 0x0100 {
            Some(ResponseCode::Initialize)
        } else if value == 0x0101 {
            Some(ResponseCode::Failure)
        } else if value == 0x0103 {
            Some(ResponseCode::Sequence)
        } else if value == 0x010B {
            Some(ResponseCode::Private)
        } else if value == 0x0119 {
            Some(ResponseCode::Hmac)
        } else if value == 0x0120 {
            Some(ResponseCode::Disabled)
        } else if value == 0x0121 {
            Some(ResponseCode::Exclusive)
        } else if value == 0x0124 {
            Some(ResponseCode::AuthType)
        } else if value == 0x0125 {
            Some(ResponseCode::AuthMissing)
        } else if value == 0x0126 {
            Some(ResponseCode::Policy)
        } else if value == 0x0127 {
            Some(ResponseCode::Pcr)
        } else if value == 0x0128 {
            Some(ResponseCode::PcrChanged)
        } else if value == 0x012D {
            Some(ResponseCode::Upgrade)
        } else if value == 0x012E {
            Some(ResponseCode::TooManyContexts)
        } else if value == 0x012F {
            Some(ResponseCode::AuthUnavailable)
        } else if value == 0x0130 {
            Some(ResponseCode::Reboot)
        } else if value == 0x0131 {
            Some(ResponseCode::Unbalanced)
        } else if value == 0x0142 {
            Some(ResponseCode::CommandSize)
        } else if value == 0x0143 {
            Some(ResponseCode::CommandCode)
        } else if value == 0x0144 {
            Some(ResponseCode::AuthSize)
        } else if value == 0x0145 {
            Some(ResponseCode::AuthContext)
        } else if value == 0x0146 {
            Some(ResponseCode::NvRange)
        } else if value == 0x0147 {
            Some(ResponseCode::NvSize)
        } else if value == 0x0148 {
            Some(ResponseCode::NvLocked)
        } else if value == 0x0149 {
            Some(ResponseCode::NvAuthorization)
        } else if value == 0x014A {
            Some(ResponseCode::NvUninitialized)
        } else if value == 0x014B {
            Some(ResponseCode::NvSpace)
        } else if value == 0x014C {
            Some(ResponseCode::NvDefined)
        } else if value == 0x0150 {
            Some(ResponseCode::BadContext)
        } else if value == 0x0151 {
            Some(ResponseCode::CpHash)
        } else if value == 0x0152 {
            Some(ResponseCode::Parent)
        } else if value == 0x0153 {
            Some(ResponseCode::NeedsTest)
        } else if value == 0x0154 {
            Some(ResponseCode::NoResult)
        } else if value == 0x0155 {
            Some(ResponseCode::Sensitive)
        } else if value == 0x81 {
            Some(ResponseCode::Asymmetric)
        } else if value == 0x82 {
            Some(ResponseCode::Attributes)
        } else if value == 0x83 {
            Some(ResponseCode::Hash)
        } else if value == 0x84 {
            Some(ResponseCode::Value)
        } else if value == 0x85 {
            Some(ResponseCode::Hierarchy)
        } else if value == 0x87 {
            Some(ResponseCode::KeySize)
        } else if value == 0x88 {
            Some(ResponseCode::Mgf)
        } else if value == 0x89 {
            Some(ResponseCode::Mode)
        } else if value == 0x8A {
            Some(ResponseCode::Type)
        } else if value == 0x8B {
            Some(ResponseCode::Handle)
        } else if value == 0x8C {
            Some(ResponseCode::Kdf)
        } else if value == 0x8D {
            Some(ResponseCode::Range)
        } else if value == 0x8E {
            Some(ResponseCode::AuthFail)
        } else if value == 0x8F {
            Some(ResponseCode::Nonce)
        } else if value == 0x90 {
            Some(ResponseCode::Pp)
        } else if value == 0x92 {
            Some(ResponseCode::Scheme)
        } else if value == 0x95 {
            Some(ResponseCode::Size)
        } else if value == 0x96 {
            Some(ResponseCode::Symmetric)
        } else if value == 0x97 {
            Some(ResponseCode::Tag)
        } else if value == 0x98 {
            Some(ResponseCode::Selector)
        } else if value == 0x9A {
            Some(ResponseCode::Insufficient)
        } else if value == 0x9B {
            Some(ResponseCode::Signature)
        } else if value == 0x9C {
            Some(ResponseCode::Key)
        } else if value == 0x9D {
            Some(ResponseCode::PolicyFail)
        } else if value == 0x9F {
            Some(ResponseCode::Integrity)
        } else if value == 0xA0 {
            Some(ResponseCode::Ticket)
        } else if value == 0xA1 {
            Some(ResponseCode::ReservedBits)
        } else if value == 0xA2 {
            Some(ResponseCode::BadAuth)
        } else if value == 0xA3 {
            Some(ResponseCode::Expired)
        } else if value == 0xA4 {
            Some(ResponseCode::PolicyCc)
        } else if value == 0xA5 {
            Some(ResponseCode::Binding)
        } else if value == 0xA6 {
            Some(ResponseCode::Curve)
        } else if value == 0xA7 {
            Some(ResponseCode::EccPoint)
        } else if value == 0x0901 {
            Some(ResponseCode::ContextGap)
        } else if value == 0x0902 {
            Some(ResponseCode::ObjectMemory)
        } else if value == 0x0903 {
            Some(ResponseCode::SessionMemory)
        } else if value == 0x0904 {
            Some(ResponseCode::Memory)
        } else if value == 0x0905 {
            Some(ResponseCode::SessionHandles)
        } else if value == 0x0906 {
            Some(ResponseCode::ObjectHandles)
        } else if value == 0x0907 {
            Some(ResponseCode::Locality)
        } else if value == 0x0908 {
            Some(ResponseCode::Yielded)
        } else if value == 0x0909 {
            Some(ResponseCode::Canceled)
        } else if value == 0x090A {
            Some(ResponseCode::Testing)
        } else if value == 0x0910 {
            Some(ResponseCode::ReferenceH0)
        } else if value == 0x0911 {
            Some(ResponseCode::ReferenceH1)
        } else if value == 0x0912 {
            Some(ResponseCode::ReferenceH2)
        } else if value == 0x0913 {
            Some(ResponseCode::ReferenceH3)
        } else if value == 0x0914 {
            Some(ResponseCode::ReferenceH4)
        } else if value == 0x0915 {
            Some(ResponseCode::ReferenceH5)
        } else if value == 0x0916 {
            Some(ResponseCode::ReferenceH6)
        } else if value == 0x0918 {
            Some(ResponseCode::ReferenceS0)
        } else if value == 0x0919 {
            Some(ResponseCode::ReferenceS1)
        } else if value == 0x091A {
            Some(ResponseCode::ReferenceS2)
        } else if value == 0x091B {
            Some(ResponseCode::ReferenceS3)
        } else if value == 0x091C {
            Some(ResponseCode::ReferenceS4)
        } else if value == 0x091D {
            Some(ResponseCode::ReferenceS5)
        } else if value == 0x091E {
            Some(ResponseCode::ReferenceS6)
        } else if value == 0x0920 {
            Some(ResponseCode::NvRate)
        } else if value == 0x0921 {
            Some(ResponseCode::Lockout)
        } else if value == 0x0922 {
            Some(ResponseCode::Retry)
        } else if value == 0x0923 {
            Some(ResponseCode::NvUnavailable)
        } else if value == 0x097F {
            Some(ResponseCode::NotUsed)
        } else {
            None
        }
    }
}

impl ResponseCode {
    /// The canonical symbolic string of the variant, for display.
    pub open spec fn name_spec(&self) -> Seq<char> {
        match self {
            ResponseCode::Success => "TPM_RC_SUCCESS"@,
            ResponseCode::BadTag => "TPM_RC_BAD_TAG"@,
            ResponseCode::Initialize => "TPM_RC_INITIALIZE"@,
            ResponseCode::Failure => "TPM_RC_FAILURE"@,
            ResponseCode::Sequence => "TPM_RC_SEQUENCE"@,
            ResponseCode::Private => "TPM_RC_PRIVATE"@,
            ResponseCode::Hmac => "TPM_RC_HMAC"@,
            ResponseCode::Disabled => "TPM_RC_DISABLED"@,
            ResponseCode::Exclusive => "TPM_RC_EXCLUSIVE"@,
            ResponseCode::AuthType => "TPM_RC_AUTH_TYPE"@,
            ResponseCode::AuthMissing => "TPM_RC_AUTH_MISSING"@,
            ResponseCode::Policy => "TPM_RC_POLICY"@,
            ResponseCode::Pcr => "TPM_RC_PCR"@,
            ResponseCode::PcrChanged => "TPM_RC_PCR_CHANGED"@,
            ResponseCode::Upgrade => "TPM_RC_UPGRADE"@,
            ResponseCode::TooManyContexts => "TPM_RC_TOO_MANY_CONTEXTS"@,
            ResponseCode::AuthUnavailable => "TPM_RC_AUTH_UNAVAILABLE"@,
            ResponseCode::Reboot => "TPM_RC_REBOOT"@,
            ResponseCode::Unbalanced => "TPM_RC_UNBALANCED"@,
            ResponseCode::CommandSize => "TPM_RC_COMMAND_SIZE"@,
            ResponseCode::CommandCode => "TPM_RC_COMMAND_CODE"@,
            ResponseCode::AuthSize => "TPM_RC_AUTHSIZE"@,
            ResponseCode::AuthContext => "TPM_RC_AUTH_CONTEXT"@,
            ResponseCode::NvRange => "TPM_RC_NV_RANGE"@,
            ResponseCode::NvSize => "TPM_RC_NV_SIZE"@,
            ResponseCode::NvLocked => "TPM_RC_NV_LOCKED"@,
            ResponseCode::NvAuthorization => "TPM_RC_NV_AUTHORIZATION"@,
            ResponseCode::NvUninitialized => "TPM_RC_NV_UNINITIALIZED"@,
            ResponseCode::NvSpace => "TPM_RC_NV_SPACE"@,
            ResponseCode::NvDefined => "TPM_RC_NV_DEFINED"@,
            ResponseCode::BadContext => "TPM_RC_BAD_CONTEXT"@,
            ResponseCode::CpHash => "TPM_RC_CPHASH"@,
            ResponseCode::Parent => "TPM_RC_PARENT"@,
            ResponseCode::NeedsTest => "TPM_RC_NEEDS_TEST"@,
            ResponseCode::NoResult => "TPM_RC_NO_RESULT"@,
            ResponseCode::Sensitive => "TPM_RC_SENSITIVE"@,
            ResponseCode::Asymmetric => "TPM_RC_ASYMMETRIC"@,
            ResponseCode::Attributes => "TPM_RC_ATTRIBUTES"@,
            ResponseCode::Hash => "TPM_RC_HASH"@,
            ResponseCode::Value => "TPM_RC_VALUE"@,
            ResponseCode::Hierarchy => "TPM_RC_HIERARCHY"@,
            ResponseCode::KeySize => "TPM_RC_KEY_SIZE"@,
            ResponseCode::Mgf => "TPM_RC_MGF"@,
            ResponseCode::Mode => "TPM_RC_MODE"@,
            ResponseCode::Type => "TPM_RC_TYPE"@,
            ResponseCode::Handle => "TPM_RC_HANDLE"@,
            ResponseCode::Kdf => "TPM_RC_KDF"@,
            ResponseCode::Range => "TPM_RC_RANGE"@,
            ResponseCode::AuthFail => "TPM_RC_AUTH_FAIL"@,
            ResponseCode::Nonce => "TPM_RC_NONCE"@,
            ResponseCode::Pp => "TPM_RC_PP"@,
            ResponseCode::Scheme => "TPM_RC_SCHEME"@,
            ResponseCode::Size => "TPM_RC_SIZE"@,
            ResponseCode::Symmetric => "TPM_RC_SYMMETRIC"@,
            ResponseCode::Tag => "TPM_RC_TAG"@,
            ResponseCode::Selector => "TPM_RC_SELECTOR"@,
            ResponseCode::Insufficient => "TPM_RC_INSUFFICIENT"@,
            ResponseCode::Signature => "TPM_RC_SIGNATURE"@,
            ResponseCode::Key => "TPM_RC_KEY"@,
            ResponseCode::PolicyFail => "TPM_RC_POLICY_FAIL"@,
            ResponseCode::Integrity => "TPM_RC_INTEGRITY"@,
            ResponseCode::Ticket => "TPM_RC_TICKET"@,
            ResponseCode::ReservedBits => "TPM_RC_RESERVED_BITS"@,
            ResponseCode::BadAuth => "TPM_RC_BAD_AUTH"@,
            ResponseCode::Expired => "TPM_RC_EXPIRED"@,
            ResponseCode::PolicyCc => "TPM_RC_POLICY_CC"@,
            ResponseCode::Binding => "TPM_RC_BINDING"@,
            ResponseCode::Curve => "TPM_RC_CURVE"@,
            ResponseCode::EccPoint => "TPM_RC_ECC_POINT"@,
            ResponseCode::ContextGap => "TPM_RC_CONTEXT_GAP"@,
            ResponseCode::ObjectMemory => "TPM_RC_OBJECT_MEMORY"@,
            ResponseCode::SessionMemory => "TPM_RC_SESSION_MEMORY"@,
            ResponseCode::Memory => "TPM_RC_MEMORY"@,
            ResponseCode::SessionHandles => "TPM_RC_SESSION_HANDLES"@,
            ResponseCode::ObjectHandles => "TPM_RC_OBJECT_HANDLES"@,
            ResponseCode::Locality => "TPM_RC_LOCALITY"@,
            ResponseCode::Yielded => "TPM_RC_YIELDED"@,
            ResponseCode::Canceled => "TPM_RC_CANCELED"@,
            ResponseCode::Testing => "TPM_RC_TESTING"@,
            ResponseCode::ReferenceH0 => "TPM_RC_REFERENCE_H0"@,
            ResponseCode::ReferenceH1 => "TPM_RC_REFERENCE_H1"@,
            ResponseCode::ReferenceH2 => "TPM_RC_REFERENCE_H2"@,
            ResponseCode::ReferenceH3 => "TPM_RC_REFERENCE_H3"@,
            ResponseCode::ReferenceH4 => "TPM_RC_REFERENCE_H4"@,
            ResponseCode::ReferenceH5 => "TPM_RC_REFERENCE_H5"@,
            ResponseCode::ReferenceH6 => "TPM_RC_REFERENCE_H6"@,
            ResponseCode::ReferenceS0 => "TPM_RC_REFERENCE_S0"@,
            ResponseCode::ReferenceS1 => "TPM_RC_REFERENCE_S1"@,
            ResponseCode::ReferenceS2 => "TPM_RC_REFERENCE_S2"@,
            ResponseCode::ReferenceS3 => "TPM_RC_REFERENCE_S3"@,
            ResponseCode::ReferenceS4 => "TPM_RC_REFERENCE_S4"@,
            ResponseCode::ReferenceS5 => "TPM_RC_REFERENCE_S5"@,
            ResponseCode::ReferenceS6 => "TPM_RC_REFERENCE_S6"@,
            ResponseCode::NvRate => "TPM_RC_NV_RATE"@,
            ResponseCode::Lockout => "TPM_RC_LOCKOUT"@,
            ResponseCode::Retry => "TPM_RC_RETRY"@,
            ResponseCode::NvUnavailable => "TPM_RC_NV_UNAVAILABLE"@,
            ResponseCode::NotUsed => "TPM_RC_NOT_USED"@,
        }
    }

    /// Returns the canonical symbolic string of the variant.
    pub fn name(&self) -> (r: &'static str)
        ensures
            r@ == self.name_spec(),
    {
        match self {
            ResponseCode::Success => "TPM_RC_SUCCESS",
            ResponseCode::BadTag => "TPM_RC_BAD_TAG",
            ResponseCode::Initialize => "TPM_RC_INITIALIZE",
            ResponseCode::Failure => "TPM_RC_FAILURE",
            ResponseCode::Sequence => "TPM_RC_SEQUENCE",
            ResponseCode::Private => "TPM_RC_PRIVATE",
            ResponseCode::Hmac => "TPM_RC_HMAC",
            ResponseCode::Disabled => "TPM_RC_DISABLED",
            ResponseCode::Exclusive => "TPM_RC_EXCLUSIVE",
            ResponseCode::AuthType => "TPM_RC_AUTH_TYPE",
            ResponseCode::AuthMissing => "TPM_RC_AUTH_MISSING",
            ResponseCode::Policy => "TPM_RC_POLICY",
            ResponseCode::Pcr => "TPM_RC_PCR",
            ResponseCode::PcrChanged => "TPM_RC_PCR_CHANGED",
            ResponseCode::Upgrade => "TPM_RC_UPGRADE",
            ResponseCode::TooManyContexts => "TPM_RC_TOO_MANY_CONTEXTS",
            ResponseCode::AuthUnavailable => "TPM_RC_AUTH_UNAVAILABLE",
            ResponseCode::Reboot => "TPM_RC_REBOOT",
            ResponseCode::Unbalanced => "TPM_RC_UNBALANCED",
            ResponseCode::CommandSize => "TPM_RC_COMMAND_SIZE",
            ResponseCode::CommandCode => "TPM_RC_COMMAND_CODE",
            ResponseCode::AuthSize => "TPM_RC_AUTHSIZE",
            ResponseCode::AuthContext => "TPM_RC_AUTH_CONTEXT",
            ResponseCode::NvRange => "TPM_RC_NV_RANGE",
            ResponseCode::NvSize => "TPM_RC_NV_SIZE",
            ResponseCode::NvLocked => "TPM_RC_NV_LOCKED",
            ResponseCode::NvAuthorization => "TPM_RC_NV_AUTHORIZATION",
            ResponseCode::NvUninitialized => "TPM_RC_NV_UNINITIALIZED",
            ResponseCode::NvSpace => "TPM_RC_NV_SPACE",
            ResponseCode::NvDefined => "TPM_RC_NV_DEFINED",
            ResponseCode::BadContext => "TPM_RC_BAD_CONTEXT",
            ResponseCode::CpHash => "TPM_RC_CPHASH",
            ResponseCode::Parent => "TPM_RC_PARENT",
            ResponseCode::NeedsTest => "TPM_RC_NEEDS_TEST",
            ResponseCode::NoResult => "TPM_RC_NO_RESULT",
            ResponseCode::Sensitive => "TPM_RC_SENSITIVE",
            ResponseCode::Asymmetric => "TPM_RC_ASYMMETRIC",
            ResponseCode::Attributes => "TPM_RC_ATTRIBUTES",
            ResponseCode::Hash => "TPM_RC_HASH",
            ResponseCode::Value => "TPM_RC_VALUE",
            ResponseCode::Hierarchy => "TPM_RC_HIERARCHY",
            ResponseCode::KeySize => "TPM_RC_KEY_SIZE",
            ResponseCode::Mgf => "TPM_RC_MGF",
            ResponseCode::Mode => "TPM_RC_MODE",
            ResponseCode::Type => "TPM_RC_TYPE",
            ResponseCode::Handle => "TPM_RC_HANDLE",
            ResponseCode::Kdf => "TPM_RC_KDF",
            ResponseCode::Range => "TPM_RC_RANGE",
            ResponseCode::AuthFail => "TPM_RC_AUTH_FAIL",
            ResponseCode::Nonce => "TPM_RC_NONCE",
            ResponseCode::Pp => "TPM_RC_PP",
            ResponseCode::Scheme => "TPM_RC_SCHEME",
            ResponseCode::Size => "TPM_RC_SIZE",
            ResponseCode::Symmetric => "TPM_RC_SYMMETRIC",
            ResponseCode::Tag => "TPM_RC_TAG",
            ResponseCode::Selector => "TPM_RC_SELECTOR",
            ResponseCode::Insufficient => "TPM_RC_INSUFFICIENT",
            ResponseCode::Signature => "TPM_RC_SIGNATURE",
            ResponseCode::Key => "TPM_RC_KEY",
            ResponseCode::PolicyFail => "TPM_RC_POLICY_FAIL",
            ResponseCode::Integrity => "TPM_RC_INTEGRITY",
            ResponseCode::Ticket => "TPM_RC_TICKET",
            ResponseCode::ReservedBits => "TPM_RC_RESERVED_BITS",
            ResponseCode::BadAuth => "TPM_RC_BAD_AUTH",
            ResponseCode::Expired => "TPM_RC_EXPIRED",
            ResponseCode::PolicyCc => "TPM_RC_POLICY_CC",
            ResponseCode::Binding => "TPM_RC_BINDING",
            ResponseCode::Curve => "TPM_RC_CURVE",
            ResponseCode::EccPoint => "TPM_RC_ECC_POINT",
            ResponseCode::ContextGap => "TPM_RC_CONTEXT_GAP",
            ResponseCode::ObjectMemory => "TPM_RC_OBJECT_MEMORY",
            ResponseCode::SessionMemory => "TPM_RC_SESSION_MEMORY",
            ResponseCode::Memory => "TPM_RC_MEMORY",
            ResponseCode::SessionHandles => "TPM_RC_SESSION_HANDLES",
            ResponseCode::ObjectHandles => "TPM_RC_OBJECT_HANDLES",
            ResponseCode::Locality => "TPM_RC_LOCALITY",
            ResponseCode::Yielded => "TPM_RC_YIELDED",
            ResponseCode::Canceled => "TPM_RC_CANCELED",
            ResponseCode::Testing => "TPM_RC_TESTING",
            ResponseCode::ReferenceH0 => "TPM_RC_REFERENCE_H0",
            ResponseCode::ReferenceH1 => "TPM_RC_REFERENCE_H1",
            ResponseCode::ReferenceH2 => "TPM_RC_REFERENCE_H2",
            ResponseCode::ReferenceH3 => "TPM_RC_REFERENCE_H3",
            ResponseCode::ReferenceH4 => "TPM_RC_REFERENCE_H4",
            ResponseCode::ReferenceH5 => "TPM_RC_REFERENCE_H5",
            ResponseCode::ReferenceH6 => "TPM_RC_REFERENCE_H6",
            ResponseCode::ReferenceS0 => "TPM_RC_REFERENCE_S0",
            ResponseCode::ReferenceS1 => "TPM_RC_REFERENCE_S1",
            ResponseCode::ReferenceS2 => "TPM_RC_REFERENCE_S2",
            ResponseCode::ReferenceS3 => "TPM_RC_REFERENCE_S3",
            ResponseCode::ReferenceS4 => "TPM_RC_REFERENCE_S4",
            ResponseCode::ReferenceS5 => "TPM_RC_REFERENCE_S5",
            ResponseCode::ReferenceS6 => "TPM_RC_REFERENCE_S6",
            ResponseCode::NvRate => "TPM_RC_NV_RATE",
            ResponseCode::Lockout => "TPM_RC_LOCKOUT",
            ResponseCode::Retry => "TPM_RC_RETRY",
            ResponseCode::NvUnavailable => "TPM_RC_NV_UNAVAILABLE",
            ResponseCode::NotUsed => "TPM_RC_NOT_USED",
        }
    }
}

/// The masked lookup key of a raw response code. The numbering space is
/// chosen by marker bits, in priority order format-1, warning, version-1,
/// and legacy version-0; the space's low bits are kept for the lookup.
pub open spec fn rc_mask_spec(value: u32) -> u32 {
    if value & RC_FMT1 != 0 {
        value & ((0x3F + RC_FMT1) as u32)
    } else if value & RC_WARN != 0 {
        value & ((0x7F + RC_WARN) as u32)
    } else if value & RC_VER1 != 0 {
        value & ((0x7F + RC_VER1) as u32)
    } else {
        value & 0x7F
    }
}

/// Computes the masked lookup key of a raw response code.
pub fn rc_mask(value: u32) -> (r: u32)
    ensures
        r == rc_mask_spec(value),
{
    if value & RC_FMT1 != 0 {
        value & (0x3F + RC_FMT1)
    } else if value & RC_WARN != 0 {
        value & (0x7F + RC_WARN)
    } else if value & RC_VER1 != 0 {
        value & (0x7F + RC_VER1)
    } else {
        value & 0x7F
    }
}

/// The decoded response code of a raw value: the masked key looked up in
/// the table, with the `NotUsed` sentinel where no variant carries it.
pub open spec fn decode_spec(value: u32) -> ResponseCode {
    match ResponseCode::from_repr_spec(rc_mask_spec(value)) {
        Some(rc) => rc,
        None => ResponseCode::NotUsed,
    }
}

impl From<u32> for ResponseCode {
    /// Decodes a raw response code, total over all of `u32`. An
    /// unrecognized code resolves to `ResponseCode::NotUsed`, since a
    /// compliant device never legitimately returns an undefined code.
    fn from(value: u32) -> (r: ResponseCode)
        ensures
            r == decode_spec(value),
    {
        match ResponseCode::from_repr(rc_mask(value)) {
            Some(rc) => rc,
            None => ResponseCode::NotUsed,
        }
    }
}

impl vstd::std_specs::convert::FromSpecImpl<u32> for ResponseCode {
    open spec fn obeys_from_spec() -> bool {
        true
    }

    open spec fn from_spec(v: u32) -> ResponseCode {
        decode_spec(v)
    }
}

} // verus!
