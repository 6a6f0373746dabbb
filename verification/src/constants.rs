//! Numeric identifiers of the TPM 2.0 library that this crate refers to.
use vstd::prelude::*;

verus! {

/// Identifier of an algorithm (`TPM2_ALG_ID`).
pub const TPM2_ALG_ERROR: u16 = 0x0000;
pub const TPM2_ALG_RSA: u16 = 0x0001;
pub const TPM2_ALG_SHA1: u16 = 0x0004;
pub const TPM2_ALG_HMAC: u16 = 0x0005;
pub const TPM2_ALG_AES: u16 = 0x0006;
pub const TPM2_ALG_MGF1: u16 = 0x0007;
pub const TPM2_ALG_KEYEDHASH: u16 = 0x0008;
pub const TPM2_ALG_XOR: u16 = 0x000A;
pub const TPM2_ALG_SHA256: u16 = 0x000B;
pub const TPM2_ALG_SHA384: u16 = 0x000C;
pub const TPM2_ALG_SHA512: u16 = 0x000D;
pub const TPM2_ALG_NULL: u16 = 0x0010;
pub const TPM2_ALG_SM3_256: u16 = 0x0012;
pub const TPM2_ALG_SM4: u16 = 0x0013;
pub const TPM2_ALG_RSASSA: u16 = 0x0014;
pub const TPM2_ALG_RSAES: u16 = 0x0015;
pub const TPM2_ALG_RSAPSS: u16 = 0x0016;
pub const TPM2_ALG_OAEP: u16 = 0x0017;
pub const TPM2_ALG_ECDSA: u16 = 0x0018;
pub const TPM2_ALG_ECDH: u16 = 0x0019;
pub const TPM2_ALG_ECDAA: u16 = 0x001A;
pub const TPM2_ALG_SM2: u16 = 0x001B;
pub const TPM2_ALG_ECSCHNORR: u16 = 0x001C;
pub const TPM2_ALG_ECMQV: u16 = 0x001D;
pub const TPM2_ALG_ECC: u16 = 0x0023;
pub const TPM2_ALG_SYMCIPHER: u16 = 0x0025;
pub const TPM2_ALG_CAMELLIA: u16 = 0x0026;
pub const TPM2_ALG_SHA3_256: u16 = 0x0027;
pub const TPM2_ALG_SHA3_384: u16 = 0x0028;
pub const TPM2_ALG_SHA3_512: u16 = 0x0029;
pub const TPM2_ALG_CTR: u16 = 0x0040;
pub const TPM2_ALG_OFB: u16 = 0x0041;
pub const TPM2_ALG_CBC: u16 = 0x0042;
pub const TPM2_ALG_CFB: u16 = 0x0043;
pub const TPM2_ALG_ECB: u16 = 0x0044;

/// Permanent handles of the device (`TPM2_RH`).
pub const TPM2_RH_OWNER: u32 = 0x4000_0001;
pub const TPM2_RH_NULL: u32 = 0x4000_0007;
pub const TPM2_RH_ENDORSEMENT: u32 = 0x4000_000B;
pub const TPM2_RH_PLATFORM: u32 = 0x4000_000C;

/// Resource handles of the command interface (`ESYS_TR`).
pub const ESYS_TR_PASSWORD: u32 = 0x0ff;
pub const ESYS_TR_RH_OWNER: u32 = 0x101;
pub const ESYS_TR_RH_NULL: u32 = 0x107;
pub const ESYS_TR_RH_ENDORSEMENT: u32 = 0x10B;
pub const ESYS_TR_RH_PLATFORM: u32 = 0x10C;
pub const ESYS_TR_NONE: u32 = 0xfff;

/// Structure tag of a verification ticket (`TPM2_ST`).
pub const TPM2_ST_VERIFIED: u16 = 0x8022;

/// Bits of the session attributes (`TPMA_SESSION`).
pub const TPMA_SESSION_CONTINUESESSION: u8 = 0x01;
pub const TPMA_SESSION_AUDITEXCLUSIVE: u8 = 0x02;
pub const TPMA_SESSION_AUDITRESET: u8 = 0x04;
pub const TPMA_SESSION_DECRYPT: u8 = 0x20;
pub const TPMA_SESSION_ENCRYPT: u8 = 0x40;
pub const TPMA_SESSION_AUDIT: u8 = 0x80;

/// Capability selector for the properties of the device (`TPM2_CAP`).
pub const TPM2_CAP_TPM_PROPERTIES: u32 = 0x0000_0006;

/// First tag of each group of properties (`TPM2_PT`).
pub const TPM2_PT_FIXED: u32 = 0x100;
pub const TPM2_PT_VAR: u32 = 0x200;

} // verus!
