//! Constant tables of the TPM wire protocol: fixed mappings between
//! numeric wire values and symbolic identifiers.

use vstd::prelude::*;

verus! {

/// `TPM_CC_FIRST`
pub const CC_FIRST: u32 = 0x0000_011F;

/// `TPM_CC_LAST`
pub const CC_LAST: u32 = 0x0000_0193;

/// `TPM_CAP_LAST`
pub const CAP_LAST: u32 = 0x0000_0009;

/// `TPM_CAP_VENDOR_PROPERTY`: manufacturer-specific
pub const CAP_VENDOR_PROPERTY: u32 = 0x0000_0100;

/// Enumeration of the `TPM_ALG_ID` values.
///
/// The possible values for `TPM_ALG_ID` are described in the section 6.3 of
/// the TPM 2.0 Structures specification.
#[derive(Clone, Copy, Debug, PartialEq, Eq, Structural)]
pub enum Algorithm {
    /// `TPM_ALG_ERROR`
    Error,
    /// `TPM_ALG_RSA`
    Rsa,
    /// `TPM_ALG_SHA1`
    Sha1,
    /// `TPM_ALG_HMAC`
    Hmac,
    /// `TPM_ALG_AES`
    Aes,
    /// `TPM_ALG_MGF1`
    Mgf1,
    /// `TPM_ALG_KEYEDHASH`
    KeyedHash,
    /// `TPM_ALG_XOR`
    Xor,
    /// `TPM_ALG_SHA256`
    Sha256,
    /// `TPM_ALG_SHA384`
    Sha384,
    /// `TPM_ALG_SHA512`
    Sha512,
    /// `TPM_ALG_NULL`
    Null,
    /// `TPM_ALG_SM3_256`
    Sm3,
    /// `TPM_ALG_SM4`
    Sm4,
    /// `TPM_ALG_RSASSA`
    Rsassa,
    /// `TPM_ALG_RSAES`
    Rsaes,
    /// `TPM_ALG_RSAPSS`
    Rsapss,
    /// `TPM_ALG_OAEP`
    Oaep,
    /// `TPM_ALG_ECDSA`
    Ecdsa,
    /// `TPM_ALG_ECDH`
    Ecdh,
    /// `TPM_ALG_ECDAA`
    Ecdaa,
    /// `TPM_ALG_SM2`
    Sm2,
    /// `TPM_ALG_ECSCHNORR`
    Eschnorr,
    /// `TPM_ALG_ECMQV`
    Ecmqv,
    /// `TPM_ALG_KDF1_SP800_56A`
    Kdf1Sp800_56A,
    /// `TPM_ALG_KDF2`
    Kdf,
    /// `TPM_ALG_KDF1_SP800_108`
    Kdf1Sp800_180,
    /// `TPM_ALG_ECC`
    Ecc,
    /// `TPM_ALG_SYMCIPHER`
    SymCipher,
    /// `TPM_ALG_CAMELLIA`
    Camellia,
    /// `TPM_ALG_CTR`
    Ctr,
    /// `TPM_ALG_OFB`
    Ofb,
    /// `TPM_ALG_CBC`
    Cbc,
    /// `TPM_ALG_CFB`
    Cfb,
    /// `TPM_ALG_ECB`
    Ecb,
}

impl Algorithm {
    /// The wire value of the variant.
    pub open spec fn value_spec(&self) -> u16 {
        match self {
            Algorithm::Error => 0x00,
            Algorithm::Rsa => 0x01,
            Algorithm::Sha1 => 0x04,
            Algorithm::Hmac => 0x05,
            Algorithm::Aes => 0x06,
            Algorithm::Mgf1 => 0x07,
            Algorithm::KeyedHash => 0x08,
            Algorithm::Xor => 0x0A,
            Algorithm::Sha256 => 0x0B,
            Algorithm::Sha384 => 0x0C,
            Algorithm::Sha512 => 0x0D,
            Algorithm::Null => 0x10,
            Algorithm::Sm3 => 0x12,
            Algorithm::Sm4 => 0x13,
            Algorithm::Rsassa => 0x14,
            Algorithm::Rsaes => 0x15,
            Algorithm::Rsapss => 0x16,
            Algorithm::Oaep => 0x17,
            Algorithm::Ecdsa => 0x18,
            Algorithm::Ecdh => 0x19,
            Algorithm::Ecdaa => 0x1A,
            Algorithm::Sm2 => 0x1B,
            Algorithm::Eschnorr => 0x1C,
            Algorithm::Ecmqv => 0x1D,
            Algorithm::Kdf1Sp800_56A => 0x20,
            Algorithm::Kdf => 0x21,
            Algorithm::Kdf1Sp800_180 => 0x22,
            Algorithm::Ecc => 0x23,
            Algorithm::SymCipher => 0x25,
            Algorithm::Camellia => 0x26,
            Algorithm::Ctr => 0x40,
            Algorithm::Ofb => 0x41,
            Algorithm::Cbc => 0x42,
            Algorithm::Cfb => 0x43,
            Algorithm::Ecb => 0x44,
        }
    }

    /// Returns the wire value of the variant.
    pub fn value(&self) -> (r: u16)
        ensures
            r == self.value_spec(),
    {
        match self {
            Algorithm::Error => 0x00,
            Algorithm::Rsa => 0x01,
            Algorithm::Sha1 => 0x04,
            Algorithm::Hmac => 0x05,
            Algorithm::Aes => 0x06,
            Algorithm::Mgf1 => 0x07,
            Algorithm::KeyedHash => 0x08,
            Algorithm::Xor => 0x0A,
            Algorithm::Sha256 => 0x0B,
            Algorithm::Sha384 => 0x0C,
            Algorithm::Sha512 => 0x0D,
            Algorithm::Null => 0x10,
            Algorithm::Sm3 => 0x12,
            Algorithm::Sm4 => 0x13,
            Algorithm::Rsassa => 0x14,
            Algorithm::Rsaes => 0x15,
            Algorithm::Rsapss => 0x16,
            Algorithm::Oaep => 0x17,
            Algorithm::Ecdsa => 0x18,
            Algorithm::Ecdh => 0x19,
            Algorithm::Ecdaa => 0x1A,
            Algorithm::Sm2 => 0x1B,
            Algorithm::Eschnorr => 0x1C,
            Algorithm::Ecmqv => 0x1D,
            Algorithm::Kdf1Sp800_56A => 0x20,
            Algorithm::Kdf => 0x21,
            Algorithm::Kdf1Sp800_180 => 0x22,
            Algorithm::Ecc => 0x23,
            Algorithm::SymCipher => 0x25,
            Algorithm::Camellia => 0x26,
            Algorithm::Ctr => 0x40,
            Algorithm::Ofb => 0x41,
            Algorithm::Cbc => 0x42,
            Algorithm::Cfb => 0x43,
            Algorithm::Ecb => 0x44,
        }
    }

    /// The variant carrying a wire value, `None` where no variant has it.
    pub open spec fn from_repr_spec(value: u16) -> Option<Algorithm> {
        if value == 0x00 {
            Some(Algorithm::Error)
        } else if value == 0x01 {
            Some(Algorithm::Rsa)
        } else if value == 0x04 {
            Some(Algorithm::Sha1)
        } else if value == 0x05 {
            Some(Algorithm::Hmac)
        } else if value == 0x06 {
            Some(Algorithm::Aes)
        } else if value == 0x07 {
            Some(Algorithm::Mgf1)
        } else if value == 0x08 {
            Some(Algorithm::KeyedHash)
        } else if value == 0x0A {
            Some(Algorithm::Xor)
        } else if value == 0x0B {
            Some(Algorithm::Sha256)
        } else if value == 0x0C {
            Some(Algorithm::Sha384)
        } else if value == 0x0D {
            Some(Algorithm::Sha512)
        } else if value == 0x10 {
            Some(Algorithm::Null)
        } else if value == 0x12 {
            Some(Algorithm::Sm3)
        } else if value == 0x13 {
            Some(Algorithm::Sm4)
        } else if value == 0x14 {
            Some(Algorithm::Rsassa)
        } else if value == 0x15 {
            Some(Algorithm::Rsaes)
        } else if value == 0x16 {
            Some(Algorithm::Rsapss)
        } else if value == 0x17 {
            Some(Algorithm::Oaep)
        } else if value == 0x18 {
            Some(Algorithm::Ecdsa)
        } else if value == 0x19 {
            Some(Algorithm::Ecdh)
        } else if value == 0x1A {
            Some(Algorithm::Ecdaa)
        } else if value == 0x1B {
            Some(Algorithm::Sm2)
        } else if value == 0x1C {
            Some(Algorithm::Eschnorr)
        } else if value == 0x1D {
            Some(Algorithm::Ecmqv)
        } else if value == 0x20 {
            Some(Algorithm::Kdf1Sp800_56A)
        } else if value == 0x21 {
            Some(Algorithm::Kdf)
        } else if value == 0x22 {
            Some(Algorithm::Kdf1Sp800_180)
        } else if value == 0x23 {
            Some(Algorithm::Ecc)
        } else if value == 0x25 {
            Some(Algorithm::SymCipher)
        } else if value == 0x26 {
            Some(Algorithm::Camellia)
        } else if value == 0x40 {
            Some(Algorithm::Ctr)
        } else if value == 0x41 {
            Some(Algorithm::Ofb)
        } else if value == 0x42 {
            Some(Algorithm::Cbc)
        } else if value == 0x43 {
            Some(Algorithm::Cfb)
        } else if value == 0x44 {
            Some(Algorithm::Ecb)
        } else {
            None
        }
    }

    /// Looks up the variant carrying a wire value.
    pub fn from_repr(value: u16) -> (r: Option<Algorithm>)
        ensures
            r == Self::from_repr_spec(value),
    {
        if value == 0x00 {
            Some(Algorithm::Error)
        } else if value == 0x01 {
            Some(Algorithm::Rsa)
        } else if value == 0x04 {
            Some(Algorithm::Sha1)
        } else if value == 0x05 {
            Some(Algorithm::Hmac)
        } else if value == 0x06 {
            Some(Algorithm::Aes)
        } else if value == 0x07 {
            Some(Algorithm::Mgf1)
        } else if value == 0x08 {
            Some(Algorithm::KeyedHash)
        } else if value == 0x0A {
            Some(Algorithm::Xor)
        } else if value == 0x0B {
            Some(Algorithm::Sha256)
        } else if value == 0x0C {
            Some(Algorithm::Sha384)
        } else if value == 0x0D {
            Some(Algorithm::Sha512)
        } else if value == 0x10 {
            Some(Algorithm::Null)
        } else if value == 0x12 {
            Some(Algorithm::Sm3)
        } else if value == 0x13 {
            Some(Algorithm::Sm4)
        } else if value == 0x14 {
            Some(Algorithm::Rsassa)
        } else if value == 0x15 {
            Some(Algorithm::Rsaes)
        } else if value == 0x16 {
            Some(Algorithm::Rsapss)
        } else if value == 0x17 {
            Some(Algorithm::Oaep)
        } else if value == 0x18 {
            Some(Algorithm::Ecdsa)
        } else if value == 0x19 {
            Some(Algorithm::Ecdh)
        } else if value == 0x1A {
            Some(Algorithm::Ecdaa)
        } else if value == 0x1B {
            Some(Algorithm::Sm2)
        } else if value == 0x1C {
            Some(Algorithm::Eschnorr)
        } else if value == 0x1D {
            Some(Algorithm::Ecmqv)
        } else if value == 0x20 {
            Some(Algorithm::Kdf1Sp800_56A)
        } else if value == 0x21 {
            Some(Algorithm::Kdf)
        } else if value == 0x22 {
            Some(Algorithm::Kdf1Sp800_180)
        } else if value == 0x23 {
            Some(Algorithm::Ecc)
        } else if value == 0x25 {
            Some(Algorithm::SymCipher)
        } else if value == 0x26 {
            Some(Algorithm::Camellia)
        } else if value == 0x40 {
            Some(Algorithm::Ctr)
        } else if value == 0x41 {
            Some(Algorithm::Ofb)
        } else if value == 0x42 {
            Some(Algorithm::Cbc)
        } else if value == 0x43 {
            Some(Algorithm::Cfb)
        } else if value == 0x44 {
            Some(Algorithm::Ecb)
        } else {
            None
        }
    }
}

/// Enumeration of the `TPM_CC` values.
///
/// The possible values for `TPM_CC` are described in the section 6.5.2 of the
/// TPM 2.0 Structures specification.
#[derive(Clone, Copy, Debug, PartialEq, Eq, Structural)]
pub enum Command {
    /// `TPM_CC_NV_UndefineSpaceSpecial`
    NvUndefineSpaceSpecial,
    /// `TPM_CC_EvictControl`
    EvictControl,
    /// `TPM_CC_HierarchyControl`
    HierarchyControl,
    /// `TPM_CC_NV_UndefineSpace`
    NvUndefineSpace,
    /// `TPM_CC_ChangeEPS`
    ChangeEps,
    /// `TPM_CC_ChangePPS`
    ChangePps,
    /// `TPM_CC_Clear`
    Clear,
    /// `TPM_CC_ClearControl`
    ClearControl,
    /// `TPM_CC_ClockSet`
    ClockSet,
    /// `TPM_CC_HierarchyChangeAuth`
    HierarchyChangeAuth,
    /// `TPM_CC_NV_DefineSpace`
    NvDefineSpace,
    /// `TPM_CC_CreatePrimary`
    CreatePrimary,
    /// `TPM_CC_NV_GlobalWriteLock`
    NvGlobalWriteLock,
    /// `TPM_CC_GetCommandAuditDigest`
    GetCommandAuditDigest,
    /// `TPM_CC_NV_Increment`
    NvIncrement,
    /// `TPM_CC_NV_SetBits`
    NvSetBits,
    /// `TPM_CC_NV_Extend`
    NvExtend,
    /// `TPM_CC_NV_Write`
    NvWrite,
    /// `TPM_CC_NV_WriteLock`
    NvWriteLock,
    /// `TPM_CC_DictionaryAttackLockReset`
    DictionaryAttackLockReset,
    /// `TPM_CC_DictionaryAttackParameters`
    DictionaryAttackParameters,
    /// `TPM_CC_NV_ChangeAuth`
    NvChangeAuth,
    /// `TPM_CC_PCR_Event`
    PcrEvent,
    /// `TPM_CC_PCR_Reset`
    PcrReset,
    /// `TPM_CC_SequenceComplete`
    SequenceComplete,
    /// `TPM_CC_SetAlgorithmSet`
    SetAlgorithmSet,
    /// `TPM_CC_SetCommandCodeAuditStatus`
    SetCommandCodeAuditStatus,
    /// `TPM_CC_FieldUpgradeData`
    FieldUpgradeData,
    /// `TPM_CC_IncrementalSelfTest`
    IncrementalSelfTest,
    /// `TPM_CC_SelfTest`
    SelfTest,
    /// `TPM_CC_Startup`
    Startup,
    /// `TPM_CC_Shutdown`
    Shutdown,
    /// `TPM_CC_StirRandom`
    StirRandom,
    /// `TPM_CC_ActivateCredential`
    ActivateCredential,
    /// `TPM_CC_Certify`
    Certify,
    /// `TPM_CC_PolicyNV`
    PolicyNv,
    /// `TPM_CC_CertifyCreation`
    CertifyCreation,
    /// `TPM_CC_Duplicate`
    Duplicate,
    /// `TPM_CC_GetTime`
    GetTime,
    /// `TPM_CC_GetSessionAuditDigest`
    GetSessionAuditDigest,
    /// `TPM_CC_NV_Read`
    NvRead,
    /// `TPM_CC_NV_ReadLock`
    NvReadLock,
    /// `TPM_CC_ObjectChangeAuth`
    ObjectChangeAuth,
    /// `TPM_CC_PolicySecret`
    PolicySecret,
    /// `TPM_CC_Rewrap`
    Rewrap,
    /// `TPM_CC_Create`
    Create,
    /// `TPM_CC_ECDH_ZGen`
    EcdhZGen,
    /// `TPM_CC_HMAC`
    Hmac,
    /// `TPM_CC_Import`
    Import,
    /// `TPM_CC_Load`
    Load,
    /// `TPM_CC_Quote`
    Quote,
    /// `TPM_CC_RSA_Decrypt`
    RsaDecrypt,
    /// `TPM_CC_HMAC_Start`
    HmacStart,
    /// `TPM_CC_SequenceUpdate`
    SequenceUpdate,
    /// `TPM_CC_Sign`
    Sign,
    /// `TPM_CC_Unseal`
    Unseal,
    /// `TPM_CC_PolicySigned`
    PolicySigned,
    /// `TPM_CC_ContextLoad`
    ContextLoad,
    /// `TPM_CC_ContextSave`
    ContextSave,
    /// `TPM_CC_ECDH_KeyGen`
    EcdhKeygen,
    /// `TPM_CC_EncryptDecrypt`
    EncryptDecrypt,
    /// `TPM_CC_FlushContext`
    FlushContext,
    /// `TPM_CC_LoadExternal`
    LoadExternal,
    /// `TPM_CC_MakeCredential`
    MakeCredential,
    /// `TPM_CC_NV_ReadPublic`
    NvReadPublic,
    /// `TPM_CC_PolicyAuthorize`
    PolicyAuthorize,
    /// `TPM_CC_PolicyAuthValue`
    PolicyAuthValue,
    /// `TPM_CC_PolicyCommandCode`
    PolicyCommandCode,
    /// `TPM_CC_PolicyCounterTimer`
    PolicyCounterTimer,
    /// `TPM_CC_PolicyCpHash`
    PolicyCpHash,
    /// `TPM_CC_PolicyLocality`
    PolicyLocality,
    /// `TPM_CC_PolicyNameHash`
    PolicyNameHash,
    /// `TPM_CC_PolicyOR`
    PolicyOR,
    /// `TPM_CC_PolicyTicket`
    PolicyTicket,
    /// `TPM_CC_ReadPublic`
    ReadPublic,
    /// `TPM_CC_RSA_Encrypt`
    RsaEncrypt,
    /// `TPM_CC_StartAuthSession`
    StartAuthSession,
    /// `TPM_CC_VerifySignature`
    VerifySignature,
    /// `TPM_CC_ECC_Parameters`
    EccParameters,
    /// `TPM_CC_FirmwareRead`
    FirmwareRead,
    /// `TPM_CC_GetCapability`
    GetCapability,
    /// `TPM_CC_GetRandom`
    GetRandom,
    /// `TPM_CC_GetTestResult`
    GetTestResult,
    /// `TPM_CC_Hash`
    Hash,
    /// `TPM_CC_PCR_Read`
    PcrRead,
    /// `TPM_CC_PolicyPCR`
    PolicyPcr,
    /// `TPM_CC_PolicyRestart`
    PolicyRestart,
    /// `TPM_CC_ReadClock`
    ReadClock,
    /// `TPM_CC_PCR_Extend`
    PcrExtend,
    /// `TPM_CC_PCR_SetAuthValue`
    PcrSetAuthValue,
    /// `TPM_CC_NV_Certify`
    NvCertify,
    /// `TPM_CC_EventSequenceComplete`
    EventSequenceComplete,
    /// `TPM_CC_HashSequenceStart`
    HashSequenceStart,
    /// `TPM_CC_PolicyPhysicalPresence`
    PolicyPhysicalPresence,
    /// `TPM_CC_PolicyDuplicationSelect`
    PolicyDuplicationSelect,
    /// `TPM_CC_PolicyGetDigest`
    PolicyGetDigest,
    /// `TPM_CC_TestParms`
    TestParms,
    /// `TPM_CC_Commit`
    Commit,
    /// `TPM_CC_PolicyPassword`
    PolicyPassword,
    /// `TPM_CC_ZGen_2Phase`
    ZGen2Phase,
    /// `TPM_CC_EC_Ephemeral`
    EcEphemeral,
    /// `TPM_CC_PolicyNvWritten`
    PolicyNvWritten,
    /// `TPM_CC_PolicyTemplate`
    PolicyTemplate,
    /// `TPM_CC_CreateLoaded`
    CreateLoaded,
    /// `TPM_CC_PolicyAuthorizeNV`
    PolicyAuthorizeNv,
    /// `TPM_CC_EncryptDecrypt2`
    EncryptDecrypt2,
    /// `TPM_CC_AC_GetCapability`
    AcGetCapability,
    /// `TPM_CC_AC_Send`
    AcSend,
    /// `TPM_CC_Policy_AC_SendSelect`
    PolicyAcSendSelect,
    /// `TPM_CC_CertifyX509`
    CertifyX509,
    /// `TPM_CC_ACT_SetTimeout`
    ActSetTimeout,
    /// `TPM_CC_ECC_Encrypt`
    EccEncrypt,
    /// `TPM_CC_ECC_Decrypt`
    EccDecrypt,
    /// `TPM_CC_PolicyCapability`
    PolicyCapability,
    /// `TPM_CC_PolicyParameters`
    PolicyParameters,
    /// `TPM_CC_NV_DefineSpace2`
    NvDefineSpace2,
    /// `TPM_CC_NV_ReadPublic2`
    NvReadPublic2,
    /// `TPM_CC_SetCapability`
    SetCapability,
}

impl Command {
    /// The wire value of the variant.
    pub open spec fn value_spec(&self) -> u32 {
        match self {
            Command::NvUndefineSpaceSpecial => 0x011F,
            Command::EvictControl => 0x0120,
            Command::HierarchyControl => 0x0121,
            Command::NvUndefineSpace => 0x0122,
            Command::ChangeEps => 0x0124,
            Command::ChangePps => 0x0125,
            Command::Clear => 0x0126,
            Command::ClearControl => 0x0127,
            Command::ClockSet => 0x0128,
            Command::HierarchyChangeAuth => 0x0129,
            Command::NvDefineSpace => 0x0130,
            Command::CreatePrimary => 0x0131,
            Command::NvGlobalWriteLock => 0x0132,
            Command::GetCommandAuditDigest => 0x0133,
            Command::NvIncrement => 0x0134,
            Command::NvSetBits => 0x0135,
            Command::NvExtend => 0x0136,
            Command::NvWrite => 0x0137,
            Command::NvWriteLock => 0x0138,
            Command::DictionaryAttackLockReset => 0x0139,
            Command::DictionaryAttackParameters => 0x013A,
            Command::NvChangeAuth => 0x013B,
            Command::PcrEvent => 0x013C,
            Command::PcrReset => 0x013D,
            Command::SequenceComplete => 0x013E,
            Command::SetAlgorithmSet => 0x013F,
            Command::SetCommandCodeAuditStatus => 0x0140,
            Command::FieldUpgradeData => 0x0141,
            Command::IncrementalSelfTest => 0x0142,
            Command::SelfTest => 0x0143,
            Command::Startup => 0x0144,
            Command::Shutdown => 0x0145,
            Command::StirRandom => 0x0146,
            Command::ActivateCredential => 0x0147,
            Command::Certify => 0x0148,
            Command::PolicyNv => 0x0149,
            Command::CertifyCreation => 0x014A,
            Command::Duplicate => 0x014B,
            Command::GetTime => 0x014C,
            Command::GetSessionAuditDigest => 0x014D,
            Command::NvRead => 0x014E,
            Command::NvReadLock => 0x014F,
            Command::ObjectChangeAuth => 0x0150,
            Command::PolicySecret => 0x0151,
            Command::Rewrap => 0x0152,
            Command::Create => 0x0153,
            Command::EcdhZGen => 0x0154,
            Command::Hmac => 0x0155,
            Command::Import => 0x0156,
            Command::Load => 0x0157,
            Command::Quote => 0x0158,
            Command::RsaDecrypt => 0x0159,
            Command::HmacStart => 0x015B,
            Command::SequenceUpdate => 0x015C,
            Command::Sign => 0x015D,
            Command::Unseal => 0x015E,
            Command::PolicySigned => 0x0160,
            Command::ContextLoad => 0x0161,
            Command::ContextSave => 0x0162,
            Command::EcdhKeygen => 0x0163,
            Command::EncryptDecrypt => 0x0164,
            Command::FlushContext => 0x0165,
            Command::LoadExternal => 0x0167,
            Command::MakeCredential => 0x0168,
            Command::NvReadPublic => 0x0169,
            Command::PolicyAuthorize => 0x016A,
            Command::PolicyAuthValue => 0x016B,
            Command::PolicyCommandCode => 0x016C,
            Command::PolicyCounterTimer => 0x016D,
            Command::PolicyCpHash => 0x016E,
            Command::PolicyLocality => 0x016F,
            Command::PolicyNameHash => 0x0170,
            Command::PolicyOR => 0x0171,
            Command::PolicyTicket => 0x0172,
            Command::ReadPublic => 0x0173,
            Command::RsaEncrypt => 0x0174,
            Command::StartAuthSession => 0x0176,
            Command::VerifySignature => 0x0177,
            Command::EccParameters => 0x0178,
            Command::FirmwareRead => 0x0179,
            Command::GetCapability => 0x017A,
            Command::GetRandom => 0x017B,
            Command::GetTestResult => 0x017C,
            Command::Hash => 0x017D,
            Command::PcrRead => 0x017E,
            Command::PolicyPcr => 0x017F,
            Command::PolicyRestart => 0x0180,
            Command::ReadClock => 0x0181,
            Command::PcrExtend => 0x0182,
            Command::PcrSetAuthValue => 0x0183,
            Command::NvCertify => 0x0184,
            Command::EventSequenceComplete => 0x0185,
            Command::HashSequenceStart => 0x0186,
            Command::PolicyPhysicalPresence => 0x0187,
            Command::PolicyDuplicationSelect => 0x0188,
            Command::PolicyGetDigest => 0x0189,
            Command::TestParms => 0x018A,
            Command::Commit => 0x018B,
            Command::PolicyPassword => 0x018C,
            Command::ZGen2Phase => 0x018D,
            Command::EcEphemeral => 0x018E,
            Command::PolicyNvWritten => 0x018F,
            Command::PolicyTemplate => 0x0190,
            Command::CreateLoaded => 0x0191,
            Command::PolicyAuthorizeNv => 0x0192,
            Command::EncryptDecrypt2 => 0x0193,
            Command::AcGetCapability => 0x0194,
            Command::AcSend => 0x0195,
            Command::PolicyAcSendSelect => 0x0196,
            Command::CertifyX509 => 0x0197,
            Command::ActSetTimeout => 0x0198,
            Command::EccEncrypt => 0x0199,
            Command::EccDecrypt => 0x019A,
            Command::PolicyCapability => 0x019B,
            Command::PolicyParameters => 0x019C,
            Command::NvDefineSpace2 => 0x019D,
            Command::NvReadPublic2 => 0x019E,
            Command::SetCapability => 0x019F,
        }
    }

    /// Returns the wire value of the variant.
    pub fn value(&self) -> (r: u32)
        ensures
            r == self.value_spec(),
    {
        match self {
            Command::NvUndefineSpaceSpecial => 0x011F,
            Command::EvictControl => 0x0120,
            Command::HierarchyControl => 0x0121,
            Command::NvUndefineSpace => 0x0122,
            Command::ChangeEps => 0x0124,
            Command::ChangePps => 0x0125,
            Command::Clear => 0x0126,
            Command::ClearControl => 0x0127,
            Command::ClockSet => 0x0128,
            Command::HierarchyChangeAuth => 0x0129,
            Command::NvDefineSpace => 0x0130,
            Command::CreatePrimary => 0x0131,
            Command::NvGlobalWriteLock => 0x0132,
            Command::GetCommandAuditDigest => 0x0133,
            Command::NvIncrement => 0x0134,
            Command::NvSetBits => 0x0135,
            Command::NvExtend => 0x0136,
            Command::NvWrite => 0x0137,
            Command::NvWriteLock => 0x0138,
            Command::DictionaryAttackLockReset => 0x0139,
            Command::DictionaryAttackParameters => 0x013A,
            Command::NvChangeAuth => 0x013B,
            Command::PcrEvent => 0x013C,
            Command::PcrReset => 0x013D,
            Command::SequenceComplete => 0x013E,
            Command::SetAlgorithmSet => 0x013F,
            Command::SetCommandCodeAuditStatus => 0x0140,
            Command::FieldUpgradeData => 0x0141,
            Command::IncrementalSelfTest => 0x0142,
            Command::SelfTest => 0x0143,
            Command::Startup => 0x0144,
            Command::Shutdown => 0x0145,
            Command::StirRandom => 0x0146,
            Command::ActivateCredential => 0x0147,
            Command::Certify => 0x0148,
            Command::PolicyNv => 0x0149,
            Command::CertifyCreation => 0x014A,
            Command::Duplicate => 0x014B,
            Command::GetTime => 0x014C,
            Command::GetSessionAuditDigest => 0x014D,
            Command::NvRead => 0x014E,
            Command::NvReadLock => 0x014F,
            Command::ObjectChangeAuth => 0x0150,
            Command::PolicySecret => 0x0151,
            Command::Rewrap => 0x0152,
            Command::Create => 0x0153,
            Command::EcdhZGen => 0x0154,
            Command::Hmac => 0x0155,
            Command::Import => 0x0156,
            Command::Load => 0x0157,
            Command::Quote => 0x0158,
            Command::RsaDecrypt => 0x0159,
            Command::HmacStart => 0x015B,
            Command::SequenceUpdate => 0x015C,
            Command::Sign => 0x015D,
            Command::Unseal => 0x015E,
            Command::PolicySigned => 0x0160,
            Command::ContextLoad => 0x0161,
            Command::ContextSave => 0x0162,
            Command::EcdhKeygen => 0x0163,
            Command::EncryptDecrypt => 0x0164,
            Command::FlushContext => 0x0165,
            Command::LoadExternal => 0x0167,
            Command::MakeCredential => 0x0168,
            Command::NvReadPublic => 0x0169,
            Command::PolicyAuthorize => 0x016A,
            Command::PolicyAuthValue => 0x016B,
            Command::PolicyCommandCode => 0x016C,
            Command::PolicyCounterTimer => 0x016D,
            Command::PolicyCpHash => 0x016E,
            Command::PolicyLocality => 0x016F,
            Command::PolicyNameHash => 0x0170,
            Command::PolicyOR => 0x0171,
            Command::PolicyTicket => 0x0172,
            Command::ReadPublic => 0x0173,
            Command::RsaEncrypt => 0x0174,
            Command::StartAuthSession => 0x0176,
            Command::VerifySignature => 0x0177,
            Command::EccParameters => 0x0178,
            Command::FirmwareRead => 0x0179,
            Command::GetCapability => 0x017A,
            Command::GetRandom => 0x017B,
            Command::GetTestResult => 0x017C,
            Command::Hash => 0x017D,
            Command::PcrRead => 0x017E,
            Command::PolicyPcr => 0x017F,
            Command::PolicyRestart => 0x0180,
            Command::ReadClock => 0x0181,
            Command::PcrExtend => 0x0182,
            Command::PcrSetAuthValue => 0x0183,
            Command::NvCertify => 0x0184,
            Command::EventSequenceComplete => 0x0185,
            Command::HashSequenceStart => 0x0186,
            Command::PolicyPhysicalPresence => 0x0187,
            Command::PolicyDuplicationSelect => 0x0188,
            Command::PolicyGetDigest => 0x0189,
            Command::TestParms => 0x018A,
            Command::Commit => 0x018B,
            Command::PolicyPassword => 0x018C,
            Command::ZGen2Phase => 0x018D,
            Command::EcEphemeral => 0x018E,
            Command::PolicyNvWritten => 0x018F,
            Command::PolicyTemplate => 0x0190,
            Command::CreateLoaded => 0x0191,
            Command::PolicyAuthorizeNv => 0x0192,
            Command::EncryptDecrypt2 => 0x0193,
            Command::AcGetCapability => 0x0194,
            Command::AcSend => 0x0195,
            Command::PolicyAcSendSelect => 0x0196,
            Command::CertifyX509 => 0x0197,
            Command::ActSetTimeout => 0x0198,
            Command::EccEncrypt => 0x0199,
            Command::EccDecrypt => 0x019A,
            Command::PolicyCapability => 0x019B,
            Command::PolicyParameters => 0x019C,
            Command::NvDefineSpace2 => 0x019D,
            Command::NvReadPublic2 => 0x019E,
            Command::SetCapability => 0x019F,
        }
    }

    /// The variant carrying a wire value, `None` where no variant has it.
    pub open spec fn from_repr_spec(value: u32) -> Option<Command> {
        if value == 0x011F {
            Some(Command::NvUndefineSpaceSpecial)
        } else if value == 0x0120 {
            Some(Command::EvictControl)
        } else if value == 0x0121 {
            Some(Command::HierarchyControl)
        } else if value == 0x0122 {
            Some(Command::NvUndefineSpace)
        } else if value == 0x0124 {
            Some(Command::ChangeEps)
        } else if value == 0x0125 {
            Some(Command::ChangePps)
        } else if value == 0x0126 {
            Some(Command::Clear)
        } else if value == 0x0127 {
            Some(Command::ClearControl)
        } else if value == 0x0128 {
            Some(Command::ClockSet)
        } else if value == 0x0129 {
            Some(Command::HierarchyChangeAuth)
        } else if value == 0x0130 {
            Some(Command::NvDefineSpace)
        } else if value == 0x0131 {
            Some(Command::CreatePrimary)
        } else if value == 0x0132 {
            Some(Command::NvGlobalWriteLock)
        } else if value == 0x0133 {
            Some(Command::GetCommandAuditDigest)
        } else if value == 0x0134 {
            Some(Command::NvIncrement)
        } else if value == 0x0135 {
            Some(Command::NvSetBits)
        } else if value == 0x0136 {
            Some(Command::NvExtend)
        } else if value == 0x0137 {
            Some(Command::NvWrite)
        } else if value == 0x0138 {
            Some(Command::NvWriteLock)
        } else if value == 0x0139 {
            Some(Command::DictionaryAttackLockReset)
        } else if value == 0x013A {
            Some(Command::DictionaryAttackParameters)
        } else if value == 0x013B {
            Some(Command::NvChangeAuth)
        } else if value == 0x013C {
            Some(Command::PcrEvent)
        } else if value == 0x013D {
            Some(Command::PcrReset)
        } else if value == 0x013E {
            Some(Command::SequenceComplete)
        } else if value == 0x013F {
            Some(Command::SetAlgorithmSet)
        } else if value == 0x0140 {
            Some(Command::SetCommandCodeAuditStatus)
        } else if value == 0x0141 {
            Some(Command::FieldUpgradeData)
        } else if value == 0x0142 {
            Some(Command::IncrementalSelfTest)
        } else if value == 0x0143 {
            Some(Command::SelfTest)
        } else if value == 0x0144 {
            Some(Command::Startup)
        } else if value == 0x0145 {
            Some(Command::Shutdown)
        } else if value == 0x0146 {
            Some(Command::StirRandom)
        } else if value == 0x0147 {
            Some(Command::ActivateCredential)
        } else if value == 0x0148 {
            Some(Command::Certify)
        } else if value == 0x0149 {
            Some(Command::PolicyNv)
        } else if value == 0x014A {
            Some(Command::CertifyCreation)
        } else if value == 0x014B {
            Some(Command::Duplicate)
        } else if value == 0x014C {
            Some(Command::GetTime)
        } else if value == 0x014D {
            Some(Command::GetSessionAuditDigest)
        } else if value == 0x014E {
            Some(Command::NvRead)
        } else if value == 0x014F {
            Some(Command::NvReadLock)
        } else if value == 0x0150 {
            Some(Command::ObjectChangeAuth)
        } else if value == 0x0151 {
            Some(Command::PolicySecret)
        } else if value == 0x0152 {
            Some(Command::Rewrap)
        } else if value == 0x0153 {
            Some(Command::Create)
        } else if value == 0x0154 {
            Some(Command::EcdhZGen)
        } else if value == 0x0155 {
            Some(Command::Hmac)
        } else if value == 0x0156 {
            Some(Command::Import)
        } else if value == 0x0157 {
            Some(Command::Load)
        } else if value == 0x0158 {
            Some(Command::Quote)
        } else if value == 0x0159 {
            Some(Command::RsaDecrypt)
        } else if value == 0x015B {
            Some(Command::HmacStart)
        } else if value == 0x015C {
            Some(Command::SequenceUpdate)
        } else if value == 0x015D {
            Some(Command::Sign)
        } else if value == 0x015E {
            Some(Command::Unseal)
        } else if value == 0x0160 {
            Some(Command::PolicySigned)
        } else if value == 0x0161 {
            Some(Command::ContextLoad)
        } else if value == 0x0162 {
            Some(Command::ContextSave)
        } else if value == 0x0163 {
            Some(Command::EcdhKeygen)
        } else if value == 0x0164 {
            Some(Command::EncryptDecrypt)
        } else if value == 0x0165 {
            Some(Command::FlushContext)
        } else if value == 0x0167 {
            Some(Command::LoadExternal)
        } else if value == 0x0168 {
            Some(Command::MakeCredential)
        } else if value == 0x0169 {
            Some(Command::NvReadPublic)
        } else if value == 0x016A {
            Some(Command::PolicyAuthorize)
        } else if value == 0x016B {
            Some(Command::PolicyAuthValue)
        } else if value == 0x016C {
            Some(Command::PolicyCommandCode)
        } else if value == 0x016D {
            Some(Command::PolicyCounterTimer)
        } else if value == 0x016E {
            Some(Command::PolicyCpHash)
        } else if value == 0x016F {
            Some(Command::PolicyLocality)
        } else if value == 0x0170 {
            Some(Command::PolicyNameHash)
        } else if value == 0x0171 {
            Some(Command::PolicyOR)
        } else if value == 0x0172 {
            Some(Command::PolicyTicket)
        } else if value == 0x0173 {
            Some(Command::ReadPublic)
        } else if value == 0x0174 {
            Some(Command::RsaEncrypt)
        } else if value == 0x0176 {
            Some(Command::StartAuthSession)
        } else if value == 0x0177 {
            Some(Command::VerifySignature)
        } else if value == 0x0178 {
            Some(Command::EccParameters)
        } else if value == 0x0179 {
            Some(Command::FirmwareRead)
        } else if value == 0x017A {
            Some(Command::GetCapability)
        } else if value == 0x017B {
            Some(Command::GetRandom)
        } else if value == 0x017C {
            Some(Command::GetTestResult)
        } else if value == 0x017D {
            Some(Command::Hash)
        } else if value == 0x017E {
            Some(Command::PcrRead)
        } else if value == 0x017F {
            Some(Command::PolicyPcr)
        } else if value == 0x0180 {
            Some(Command::PolicyRestart)
        } else if value == 0x0181 {
            Some(Command::ReadClock)
        } else if value == 0x0182 {
            Some(Command::PcrExtend)
        } else if value == 0x0183 {
            Some(Command::PcrSetAuthValue)
        } else if value == 0x0184 {
            Some(Command::NvCertify)
        } else if value == 0x0185 {
            Some(Command::EventSequenceComplete)
        } else if value == 0x0186 {
            Some(Command::HashSequenceStart)
        } else if value == 0x0187 {
            Some(Command::PolicyPhysicalPresence)
        } else if value == 0x0188 {
            Some(Command::PolicyDuplicationSelect)
        } else if value == 0x0189 {
            Some(Command::PolicyGetDigest)
        } else if value == 0x018A {
            Some(Command::TestParms)
        } else if value == 0x018B {
            Some(Command::Commit)
        } else if value == 0x018C {
            Some(Command::PolicyPassword)
        } else if value == 0x018D {
            Some(Command::ZGen2Phase)
        } else if value == 0x018E {
            Some(Command::EcEphemeral)
        } else if value == 0x018F {
            Some(Command::PolicyNvWritten)
        } else if value == 0x0190 {
            Some(Command::PolicyTemplate)
        } else if value == 0x0191 {
            Some(Command::CreateLoaded)
        } else if value == 0x0192 {
            Some(Command::PolicyAuthorizeNv)
        } else if value == 0x0193 {
            Some(Command::EncryptDecrypt2)
        } else if value == 0x0194 {
            Some(Command::AcGetCapability)
        } else if value == 0x0195 {
            Some(Command::AcSend)
        } else if value == 0x0196 {
            Some(Command::PolicyAcSendSelect)
        } else if value == 0x0197 {
            Some(Command::CertifyX509)
        } else if value == 0x0198 {
            Some(Command::ActSetTimeout)
        } else if value == 0x0199 {
            Some(Command::EccEncrypt)
        } else if value == 0x019A {
            Some(Command::EccDecrypt)
        } else if value == 0x019B {
            Some(Command::PolicyCapability)
        } else if value == 0x019C {
            Some(Command::PolicyParameters)
        } else if value == 0x019D {
            Some(Command::NvDefineSpace2)
        } else if value == 0x019E {
            Some(Command::NvReadPublic2)
        } else if value == 0x019F {
            Some(Command::SetCapability)
        } else {
            None
        }
    }

    /// Looks up the variant carrying a wire value.
    pub fn from_repr(value: u32) -> (r: Option<Command>)
        ensures
            r == Self::from_repr_spec(value),
    {
        if value == 0x011F {
            Some(Command::NvUndefineSpaceSpecial)
        } else if value == 0x0120 {
            Some(Command::EvictControl)
        } else if value == 0x0121 {
            Some(Command::HierarchyControl)
        } else if value == 0x0122 {
            Some(Command::NvUndefineSpace)
        } else if value == 0x0124 {
            Some(Command::ChangeEps)
        } else if value == 0x0125 {
            Some(Command::ChangePps)
        } else if value == 0x0126 {
            Some(Command::Clear)
        } else if value == 0x0127 {
            Some(Command::ClearControl)
        } else if value == 0x0128 {
            Some(Command::ClockSet)
        } else if value == 0x0129 {
            Some(Command::HierarchyChangeAuth)
        } else if value == 0x0130 {
            Some(Command::NvDefineSpace)
        } else if value == 0x0131 {
            Some(Command::CreatePrimary)
        } else if value == 0x0132 {
            Some(Command::NvGlobalWriteLock)
        } else if value == 0x0133 {
            Some(Command::GetCommandAuditDigest)
        } else if value == 0x0134 {
            Some(Command::NvIncrement)
        } else if value == 0x0135 {
            Some(Command::NvSetBits)
        } else if value == 0x0136 {
            Some(Command::NvExtend)
        } else if value == 0x0137 {
            Some(Command::NvWrite)
        } else if value == 0x0138 {
            Some(Command::NvWriteLock)
        } else if value == 0x0139 {
            Some(Command::DictionaryAttackLockReset)
        } else if value == 0x013A {
            Some(Command::DictionaryAttackParameters)
        } else if value == 0x013B {
            Some(Command::NvChangeAuth)
        } else if value == 0x013C {
            Some(Command::PcrEvent)
        } else if value == 0x013D {
            Some(Command::PcrReset)
        } else if value == 0x013E {
            Some(Command::SequenceComplete)
        } else if value == 0x013F {
            Some(Command::SetAlgorithmSet)
        } else if value == 0x0140 {
            Some(Command::SetCommandCodeAuditStatus)
        } else if value == 0x0141 {
            Some(Command::FieldUpgradeData)
        } else if value == 0x0142 {
            Some(Command::IncrementalSelfTest)
        } else if value == 0x0143 {
            Some(Command::SelfTest)
        } else if value == 0x0144 {
            Some(Command::Startup)
        } else if value == 0x0145 {
            Some(Command::Shutdown)
        } else if value == 0x0146 {
            Some(Command::StirRandom)
        } else if value == 0x0147 {
            Some(Command::ActivateCredential)
        } else if value == 0x0148 {
            Some(Command::Certify)
        } else if value == 0x0149 {
            Some(Command::PolicyNv)
        } else if value == 0x014A {
            Some(Command::CertifyCreation)
        } else if value == 0x014B {
            Some(Command::Duplicate)
        } else if value == 0x014C {
            Some(Command::GetTime)
        } else if value == 0x014D {
            Some(Command::GetSessionAuditDigest)
        } else if value == 0x014E {
            Some(Command::NvRead)
        } else if value == 0x014F {
            Some(Command::NvReadLock)
        } else if value == 0x0150 {
            Some(Command::ObjectChangeAuth)
        } else if value == 0x0151 {
            Some(Command::PolicySecret)
        } else if value == 0x0152 {
            Some(Command::Rewrap)
        } else if value == 0x0153 {
            Some(Command::Create)
        } else if value == 0x0154 {
            Some(Command::EcdhZGen)
        } else if value == 0x0155 {
            Some(Command::Hmac)
        } else if value == 0x0156 {
            Some(Command::Import)
        } else if value == 0x0157 {
            Some(Command::Load)
        } else if value == 0x0158 {
            Some(Command::Quote)
        } else if value == 0x0159 {
            Some(Command::RsaDecrypt)
        } else if value == 0x015B {
            Some(Command::HmacStart)
        } else if value == 0x015C {
            Some(Command::SequenceUpdate)
        } else if value == 0x015D {
            Some(Command::Sign)
        } else if value == 0x015E {
            Some(Command::Unseal)
        } else if value == 0x0160 {
            Some(Command::PolicySigned)
        } else if value == 0x0161 {
            Some(Command::ContextLoad)
        } else if value == 0x0162 {
            Some(Command::ContextSave)
        } else if value == 0x0163 {
            Some(Command::EcdhKeygen)
        } else if value == 0x0164 {
            Some(Command::EncryptDecrypt)
        } else if value == 0x0165 {
            Some(Command::FlushContext)
        } else if value == 0x0167 {
            Some(Command::LoadExternal)
        } else if value == 0x0168 {
            Some(Command::MakeCredential)
        } else if value == 0x0169 {
            Some(Command::NvReadPublic)
        } else if value == 0x016A {
            Some(Command::PolicyAuthorize)
        } else if value == 0x016B {
            Some(Command::PolicyAuthValue)
        } else if value == 0x016C {
            Some(Command::PolicyCommandCode)
        } else if value == 0x016D {
            Some(Command::PolicyCounterTimer)
        } else if value == 0x016E {
            Some(Command::PolicyCpHash)
        } else if value == 0x016F {
            Some(Command::PolicyLocality)
        } else if value == 0x0170 {
            Some(Command::PolicyNameHash)
        } else if value == 0x0171 {
            Some(Command::PolicyOR)
        } else if value == 0x0172 {
            Some(Command::PolicyTicket)
        } else if value == 0x0173 {
            Some(Command::ReadPublic)
        } else if value == 0x0174 {
            Some(Command::RsaEncrypt)
        } else if value == 0x0176 {
            Some(Command::StartAuthSession)
        } else if value == 0x0177 {
            Some(Command::VerifySignature)
        } else if value == 0x0178 {
            Some(Command::EccParameters)
        } else if value == 0x0179 {
            Some(Command::FirmwareRead)
        } else if value == 0x017A {
            Some(Command::GetCapability)
        } else if value == 0x017B {
            Some(Command::GetRandom)
        } else if value == 0x017C {
            Some(Command::GetTestResult)
        } else if value == 0x017D {
            Some(Command::Hash)
        } else if value == 0x017E {
            Some(Command::PcrRead)
        } else if value == 0x017F {
            Some(Command::PolicyPcr)
        } else if value == 0x0180 {
            Some(Command::PolicyRestart)
        } else if value == 0x0181 {
            Some(Command::ReadClock)
        } else if value == 0x0182 {
            Some(Command::PcrExtend)
        } else if value == 0x0183 {
            Some(Command::PcrSetAuthValue)
        } else if value == 0x0184 {
            Some(Command::NvCertify)
        } else if value == 0x0185 {
            Some(Command::EventSequenceComplete)
        } else if value == 0x0186 {
            Some(Command::HashSequenceStart)
        } else if value == 0x0187 {
            Some(Command::PolicyPhysicalPresence)
        } else if value == 0x0188 {
            Some(Command::PolicyDuplicationSelect)
        } else if value == 0x0189 {
            Some(Command::PolicyGetDigest)
        } else if value == 0x018A {
            Some(Command::TestParms)
        } else if value == 0x018B {
            Some(Command::Commit)
        } else if value == 0x018C {
            Some(Command::PolicyPassword)
        } else if value == 0x018D {
            Some(Command::ZGen2Phase)
        } else if value == 0x018E {
            Some(Command::EcEphemeral)
        } else if value == 0x018F {
            Some(Command::PolicyNvWritten)
        } else if value == 0x0190 {
            Some(Command::PolicyTemplate)
        } else if value == 0x0191 {
            Some(Command::CreateLoaded)
        } else if value == 0x0192 {
            Some(Command::PolicyAuthorizeNv)
        } else if value == 0x0193 {
            Some(Command::EncryptDecrypt2)
        } else if value == 0x0194 {
            Some(Command::AcGetCapability)
        } else if value == 0x0195 {
            Some(Command::AcSend)
        } else if value == 0x0196 {
            Some(Command::PolicyAcSendSelect)
        } else if value == 0x0197 {
            Some(Command::CertifyX509)
        } else if value == 0x0198 {
            Some(Command::ActSetTimeout)
        } else if value == 0x0199 {
            Some(Command::EccEncrypt)
        } else if value == 0x019A {
            Some(Command::EccDecrypt)
        } else if value == 0x019B {
            Some(Command::PolicyCapability)
        } else if value == 0x019C {
            Some(Command::PolicyParameters)
        } else if value == 0x019D {
            Some(Command::NvDefineSpace2)
        } else if value == 0x019E {
            Some(Command::NvReadPublic2)
        } else if value == 0x019F {
            Some(Command::SetCapability)
        } else {
            None
        }
    }
}

/// `TPM_ST`
#[derive(Clone, Copy, Debug, PartialEq, Eq, Structural)]
pub enum Tag {
    /// `TPM_ST_RSP_COMMAND`
    RspCommand,
    /// `TPM_ST_NULL`
    Null,
    /// `TPM_ST_NO_SESSIONS`
    NoSessions,
    /// `TPM_ST_SESSIONS`
    Sessions,
    /// `TPM_ST_ATTEST_NV`
    AttestNv,
    /// `TPM_ST_ATTEST_COMMAND_AUDIT`
    AttestCommandAudit,
    /// `TPM_ST_ATTEST_SESSION_AUDIT`
    AttestSessionAudit,
    /// `TPM_ST_ATTEST_CERTIFY`
    AttesCertify,
    /// `TPM_ST_ATTEST_QUOTE`
    AttestQuote,
    /// `TPM_ST_ATTEST_TIME`
    AttestTime,
    /// `TPM_ST_ATTEST_CREATION`
    AttestCreation,
    /// `TPM_ST_CREATION`
    Creation,
    /// `TPM_ST_VERIFIED`
    Verified,
    /// `TPM_ST_AUTH_SECRET`
    AuthSecret,
    /// `TPM_ST_HASHCHECK`
    HashCheck,
    /// `TPM_ST_AUTH_SIGNED`
    AuthSigned,
    /// `TPM_ST_FU_MANIFEST`: a structure describing a Field Upgrade Policy
    FuManifest,
}

impl Tag {
    /// The wire value of the variant.
    pub open spec fn value_spec(&self) -> u16 {
        match self {
            Tag::RspCommand => 0xC4,
            Tag::Null => 0x8000,
            Tag::NoSessions => 0x8001,
            Tag::Sessions => 0x8002,
            Tag::AttestNv => 0x8014,
            Tag::AttestCommandAudit => 0x8015,
            Tag::AttestSessionAudit => 0x8016,
            Tag::AttesCertify => 0x8017,
            Tag::AttestQuote => 0x8018,
            Tag::AttestTime => 0x8019,
            Tag::AttestCreation => 0x801A,
            Tag::Creation => 0x8021,
            Tag::Verified => 0x8022,
            Tag::AuthSecret => 0x8023,
            Tag::HashCheck => 0x24,
            Tag::AuthSigned => 0x25,
            Tag::FuManifest => 0x29,
        }
    }

    /// Returns the wire value of the variant.
    pub fn value(&self) -> (r: u16)
        ensures
            r == self.value_spec(),
    {
        match self {
            Tag::RspCommand => 0xC4,
            Tag::Null => 0x8000,
            Tag::NoSessions => 0x8001,
            Tag::Sessions => 0x8002,
            Tag::AttestNv => 0x8014,
            Tag::AttestCommandAudit => 0x8015,
            Tag::AttestSessionAudit => 0x8016,
            Tag::AttesCertify => 0x8017,
            Tag::AttestQuote => 0x8018,
            Tag::AttestTime => 0x8019,
            Tag::AttestCreation => 0x801A,
            Tag::Creation => 0x8021,
            Tag::Verified => 0x8022,
            Tag::AuthSecret => 0x8023,
            Tag::HashCheck => 0x24,
            Tag::AuthSigned => 0x25,
            Tag::FuManifest => 0x29,
        }
    }

    /// The variant carrying a wire value, `None` where no variant has it.
    pub open spec fn from_repr_spec(value: u16) -> Option<Tag> {
        if value == 0xC4 {
            Some(Tag::RspCommand)
        } else if value == 0x8000 {
            Some(Tag::Null)
        } else if value == 0x8001 {
            Some(Tag::NoSessions)
        } else if value == 0x8002 {
            Some(Tag::Sessions)
        } else if value == 0x8014 {
            Some(Tag::AttestNv)
        } else if value == 0x8015 {
            Some(Tag::AttestCommandAudit)
        } else if value == 0x8016 {
            Some(Tag::AttestSessionAudit)
        } else if value == 0x8017 {
            Some(Tag::AttesCertify)
        } else if value == 0x8018 {
            Some(Tag::AttestQuote)
        } else if value == 0x8019 {
            Some(Tag::AttestTime)
        } else if value == 0x801A {
            Some(Tag::AttestCreation)
        } else if value == 0x8021 {
            Some(Tag::Creation)
        } else if value == 0x8022 {
            Some(Tag::Verified)
        } else if value == 0x8023 {
            Some(Tag::AuthSecret)
        } else if value == 0x24 {
            Some(Tag::HashCheck)
        } else if value == 0x25 {
            Some(Tag::AuthSigned)
        } else if value == 0x29 {
            Some(Tag::FuManifest)
        } else {
            None
        }
    }

    /// Looks up the variant carrying a wire value.
    pub fn from_repr(value: u16) -> (r: Option<Tag>)
        ensures
            r == Self::from_repr_spec(value),
    {
        if value == 0xC4 {
            Some(Tag::RspCommand)
        } else if value == 0x8000 {
            Some(Tag::Null)
        } else if value == 0x8001 {
            Some(Tag::NoSessions)
        } else if value == 0x8002 {
            Some(Tag::Sessions)
        } else if value == 0x8014 {
            Some(Tag::AttestNv)
        } else if value == 0x8015 {
            Some(Tag::AttestCommandAudit)
        } else if value == 0x8016 {
            Some(Tag::AttestSessionAudit)
        } else if value == 0x8017 {
            Some(Tag::AttesCertify)
        } else if value == 0x8018 {
            Some(Tag::AttestQuote)
        } else if value == 0x8019 {
            Some(Tag::AttestTime)
        } else if value == 0x801A {
            Some(Tag::AttestCreation)
        } else if value == 0x8021 {
            Some(Tag::Creation)
        } else if value == 0x8022 {
            Some(Tag::Verified)
        } else if value == 0x8023 {
            Some(Tag::AuthSecret)
        } else if value == 0x24 {
            Some(Tag::HashCheck)
        } else if value == 0x25 {
            Some(Tag::AuthSigned)
        } else if value == 0x29 {
            Some(Tag::FuManifest)
        } else {
            None
        }
    }
}

/// `TPM_SE`
#[derive(Clone, Copy, Debug, PartialEq, Eq, Structural)]
pub enum Session {
    /// `TPM_SE_HMAC`
    Hmac,
    /// `TPM_SE_POLICY`
    Policy,
    /// `TPM_SE_TRIAL`
    Trial,
}

impl Session {
    /// The wire value of the variant.
    pub open spec fn value_spec(&self) -> u8 {
        match self {
            Session::Hmac => 0x00,
            Session::Policy => 0x01,
            Session::Trial => 0x03,
        }
    }

    /// Returns the wire value of the variant.
    pub fn value(&self) -> (r: u8)
        ensures
            r == self.value_spec(),
    {
        match self {
            Session::Hmac => 0x00,
            Session::Policy => 0x01,
            Session::Trial => 0x03,
        }
    }

    /// The variant carrying a wire value, `None` where no variant has it.
    pub open spec fn from_repr_spec(value: u8) -> Option<Session> {
        if value == 0x00 {
            Some(Session::Hmac)
        } else if value == 0x01 {
            Some(Session::Policy)
        } else if value == 0x03 {
            Some(Session::Trial)
        } else {
            None
        }
    }

    /// Looks up the variant carrying a wire value.
    pub fn from_repr(value: u8) -> (r: Option<Session>)
        ensures
            r == Self::from_repr_spec(value),
    {
        if value == 0x00 {
            Some(Session::Hmac)
        } else if value == 0x01 {
            Some(Session::Policy)
        } else if value == 0x03 {
            Some(Session::Trial)
        } else {
            None
        }
    }
}

/// `TPM_CAP`
#[derive(Clone, Copy, Debug, PartialEq, Eq, Structural)]
pub enum Capability {
    /// `TPM_CAP_ALGS`
    Algs,
    /// `TPM_CAP_HANDLES`
    Handles,
    /// `TPM_CAP_COMMANDS`
    Commands,
    /// `TPM_CAP_PP_COMMANDS`
    PpCommands,
    /// `TPM_CAP_AUDIT_COMMANDS`
    AuditCommands,
    /// `TPM_CAP_PCRS`
    Pcrs,
    /// `TPM_CAP_TPM_PROPERTIES`
    TpmProperties,
    /// `TPM_CAP_PCR_PROPERTIES`
    PcrProperties,
    /// `TPM_CAP_ECC_CURVES`
    EccCurves,
    /// `TPM_CAP_AUTH_POLICIES`
    AuthPolicies,
}

impl Capability {
    /// The wire value of the variant.
    pub open spec fn value_spec(&self) -> u32 {
        match self {
            Capability::Algs => 0x00,
            Capability::Handles => 0x01,
            Capability::Commands => 0x02,
            Capability::PpCommands => 0x03,
            Capability::AuditCommands => 0x04,
            Capability::Pcrs => 0x05,
            Capability::TpmProperties => 0x06,
            Capability::PcrProperties => 0x07,
            Capability::EccCurves => 0x08,
            Capability::AuthPolicies => 0x09,
        }
    }

    /// Returns the wire value of the variant.
    pub fn value(&self) -> (r: u32)
        ensures
            r == self.value_spec(),
    {
        match self {
            Capability::Algs => 0x00,
            Capability::Handles => 0x01,
            Capability::Commands => 0x02,
            Capability::PpCommands => 0x03,
            Capability::AuditCommands => 0x04,
            Capability::Pcrs => 0x05,
            Capability::TpmProperties => 0x06,
            Capability::PcrProperties => 0x07,
            Capability::EccCurves => 0x08,
            Capability::AuthPolicies => 0x09,
        }
    }

    /// The variant carrying a wire value, `None` where no variant has it.
    pub open spec fn from_repr_spec(value: u32) -> Option<Capability> {
        if value == 0x00 {
            Some(Capability::Algs)
        } else if value == 0x01 {
            Some(Capability::Handles)
        } else if value == 0x02 {
            Some(Capability::Commands)
        } else if value == 0x03 {
            Some(Capability::PpCommands)
        } else if value == 0x04 {
            Some(Capability::AuditCommands)
        } else if value == 0x05 {
            Some(Capability::Pcrs)
        } else if value == 0x06 {
            Some(Capability::TpmProperties)
        } else if value == 0x07 {
            Some(Capability::PcrProperties)
        } else if value == 0x08 {
            Some(Capability::EccCurves)
        } else if value == 0x09 {
            Some(Capability::AuthPolicies)
        } else {
            None
        }
    }

    /// Looks up the variant carrying a wire value.
    pub fn from_repr(value: u32) -> (r: Option<Capability>)
        ensures
            r == Self::from_repr_spec(value),
    {
        if value == 0x00 {
            Some(Capability::Algs)
        } else if value == 0x01 {
            Some(Capability::Handles)
        } else if value == 0x02 {
            Some(Capability::Commands)
        } else if value == 0x03 {
            Some(Capability::PpCommands)
        } else if value == 0x04 {
            Some(Capability::AuditCommands)
        } else if value == 0x05 {
            Some(Capability::Pcrs)
        } else if value == 0x06 {
            Some(Capability::TpmProperties)
        } else if value == 0x07 {
            Some(Capability::PcrProperties)
        } else if value == 0x08 {
            Some(Capability::EccCurves)
        } else if value == 0x09 {
            Some(Capability::AuthPolicies)
        } else {
            None
        }
    }
}

/// `TPM_HT`
#[derive(Clone, Copy, Debug, PartialEq, Eq, Structural)]
pub enum Class {
    /// `TPM_HT_PCR`
    Pcr,
    /// `TPM_HT_NV_INDEX`
    NvIndex,
    /// `TPM_HT_HMAC_SESSION` and `TPM_HT_LOADED_SESSION`
    HmacSession,
    /// `TPM_HT_POLICY_SESSION` and `TPM_HT_SAVED_SESSION`
    PolicySession,
    /// `TPM_HT_PERMANENT`
    Permanent,
    /// `TPM_HT_TRANSIENT`
    Transient,
    /// `TPM_HT_PERSISTENT`
    Persistent,
}

impl Class {
    /// The wire value of the variant.
    pub open spec fn value_spec(&self) -> u8 {
        match self {
            Class::Pcr => 0x00,
            Class::NvIndex => 0x01,
            Class::HmacSession => 0x02,
            Class::PolicySession => 0x03,
            Class::Permanent => 0x40,
            Class::Transient => 0x80,
            Class::Persistent => 0x81,
        }
    }

    /// Returns the wire value of the variant.
    pub fn value(&self) -> (r: u8)
        ensures
            r == self.value_spec(),
    {
        match self {
            Class::Pcr => 0x00,
            Class::NvIndex => 0x01,
            Class::HmacSession => 0x02,
            Class::PolicySession => 0x03,
            Class::Permanent => 0x40,
            Class::Transient => 0x80,
            Class::Persistent => 0x81,
        }
    }

    /// The variant carrying a wire value, `None` where no variant has it.
    pub open spec fn from_repr_spec(value: u8) -> Option<Class> {
        if value == 0x00 {
            Some(Class::Pcr)
        } else if value == 0x01 {
            Some(Class::NvIndex)
        } else if value == 0x02 {
            Some(Class::HmacSession)
        } else if value == 0x03 {
            Some(Class::PolicySession)
        } else if value == 0x40 {
            Some(Class::Permanent)
        } else if value == 0x80 {
            Some(Class::Transient)
        } else if value == 0x81 {
            Some(Class::Persistent)
        } else {
            None
        }
    }

    /// Looks up the variant carrying a wire value.
    pub fn from_repr(value: u8) -> (r: Option<Class>)
        ensures
            r == Self::from_repr_spec(value),
    {
        if value == 0x00 {
            Some(Class::Pcr)
        } else if value == 0x01 {
            Some(Class::NvIndex)
        } else if value == 0x02 {
            Some(Class::HmacSession)
        } else if value == 0x03 {
            Some(Class::PolicySession)
        } else if value == 0x40 {
            Some(Class::Permanent)
        } else if value == 0x80 {
            Some(Class::Transient)
        } else if value == 0x81 {
            Some(Class::Persistent)
        } else {
            None
        }
    }
}

/// `TPM_RH` and the first handle of each numbered range
#[derive(Clone, Copy, Debug, PartialEq, Eq, Structural)]
pub enum Handle {
    /// `TPM_RH_FIRST`
    NotUsed,
    /// `TPM_RH_OWNER`
    Owner,
    /// `TPM_RH_NULL`
    Null,
    /// `TPM_RH_UNASSIGNED`
    Unassigned,
    /// `TPM_RS_PW`
    Password,
    /// `TPM_RH_LOCKOUT`
    Lockout,
    /// `TPM_RH_ENDORSEMENT`
    Endorsement,
    /// `TPM_RH_PLATFORM`
    Platform,
    /// `TPM_RH_PLATFORM_NV`
    PlatformNv,
    /// `TPM_RH_AUTH_00`
    Auth00,
    /// `TPM_RH_AUTH_FF`
    AuthFF,
    /// The first transient handle
    Transient,
    /// The first persistent handle
    Persistent,
}

impl Handle {
    /// The wire value of the variant.
    pub open spec fn value_spec(&self) -> u32 {
        match self {
            Handle::NotUsed => 0x4000_0000,
            Handle::Owner => 0x4000_0001,
            Handle::Null => 0x4000_0007,
            Handle::Unassigned => 0x4000_0008,
            Handle::Password => 0x4000_0009,
            Handle::Lockout => 0x4000_000A,
            Handle::Endorsement => 0x4000_000B,
            Handle::Platform => 0x4000_000C,
            Handle::PlatformNv => 0x4000_000D,
            Handle::Auth00 => 0x4000_0010,
            Handle::AuthFF => 0x4000_010F,
            Handle::Transient => 0x8000_0000,
            Handle::Persistent => 0x8100_0000,
        }
    }

    /// Returns the wire value of the variant.
    pub fn value(&self) -> (r: u32)
        ensures
            r == self.value_spec(),
    {
        match self {
            Handle::NotUsed => 0x4000_0000,
            Handle::Owner => 0x4000_0001,
            Handle::Null => 0x4000_0007,
            Handle::Unassigned => 0x4000_0008,
            Handle::Password => 0x4000_0009,
            Handle::Lockout => 0x4000_000A,
            Handle::Endorsement => 0x4000_000B,
            Handle::Platform => 0x4000_000C,
            Handle::PlatformNv => 0x4000_000D,
            Handle::Auth00 => 0x4000_0010,
            Handle::AuthFF => 0x4000_010F,
            Handle::Transient => 0x8000_0000,
            Handle::Persistent => 0x8100_0000,
        }
    }

    /// The variant carrying a wire value, `None` where no variant has it.
    pub open spec fn from_repr_spec(value: u32) -> Option<Handle> {
        if value == 0x4000_0000 {
            Some(Handle::NotUsed)
        } else if value == 0x4000_0001 {
            Some(Handle::Owner)
        } else if value == 0x4000_0007 {
            Some(Handle::Null)
        } else if value == 0x4000_0008 {
            Some(Handle::Unassigned)
        } else if value == 0x4000_0009 {
            Some(Handle::Password)
        } else if value == 0x4000_000A {
            Some(Handle::Lockout)
        } else if value == 0x4000_000B {
            Some(Handle::Endorsement)
        } else if value == 0x4000_000C {
            Some(Handle::Platform)
        } else if value == 0x4000_000D {
            Some(Handle::PlatformNv)
        } else if value == 0x4000_0010 {
            Some(Handle::Auth00)
        } else if value == 0x4000_010F {
            Some(Handle::AuthFF)
        } else if value == 0x8000_0000 {
            Some(Handle::Transient)
        } else if value == 0x8100_0000 {
            Some(Handle::Persistent)
        } else {
            None
        }
    }

    /// Looks up the variant carrying a wire value.
    pub fn from_repr(value: u32) -> (r: Option<Handle>)
        ensures
            r == Self::from_repr_spec(value),
    {
        if value == 0x4000_0000 {
            Some(Handle::NotUsed)
        } else if value == 0x4000_0001 {
            Some(Handle::Owner)
        } else if value == 0x4000_0007 {
            Some(Handle::Null)
        } else if value == 0x4000_0008 {
            Some(Handle::Unassigned)
        } else if value == 0x4000_0009 {
            Some(Handle::Password)
        } else if value == 0x4000_000A {
            Some(Handle::Lockout)
        } else if value == 0x4000_000B {
            Some(Handle::Endorsement)
        } else if value == 0x4000_000C {
            Some(Handle::Platform)
        } else if value == 0x4000_000D {
            Some(Handle::PlatformNv)
        } else if value == 0x4000_0010 {
            Some(Handle::Auth00)
        } else if value == 0x4000_010F {
            Some(Handle::AuthFF)
        } else if value == 0x8000_0000 {
            Some(Handle::Transient)
        } else if value == 0x8100_0000 {
            Some(Handle::Persistent)
        } else {
            None
        }
    }
}

} // verus!
