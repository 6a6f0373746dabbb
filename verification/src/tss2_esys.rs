//! The structures that the device exchanges with its callers.
//!
//! Names and members are those of the TPM 2.0 library. Where the library
//! overlays several members in one storage area and picks one by a selector,
//! the structure here is an `enum`, so that a member can only be read as what
//! it was written as.
#![allow(non_camel_case_types)]
#![allow(non_snake_case)]

use vstd::array::spec_array_fill_for_copy_type;
use vstd::prelude::*;

verus! {

/// Octets that the public area of an object occupies in the fixed layout of the device.
pub const TPMT_PUBLIC_SIZE: u16 = 612;

/// A digest of at most 64 octets, of which the first `size` count.
#[derive(Clone, Copy, Debug, PartialEq, Eq)]
pub struct TPM2B_DIGEST {
    pub size: u16,
    pub buffer: [u8; 64],
}

impl TPM2B_DIGEST {
    /// The empty digest: no octet counts and the buffer holds zeros.
    pub open spec fn empty() -> Self {
        TPM2B_DIGEST { size: 0, buffer: spec_array_fill_for_copy_type::<u8, 64>(0u8) }
    }
}

impl Default for TPM2B_DIGEST {
    fn default() -> (d: Self)
        ensures
            d == Self::empty(),
    {
        TPM2B_DIGEST { size: 0, buffer: [0u8; 64] }
    }
}

/// The modulus of an RSA key, or an RSA signature: at most 512 octets.
#[derive(Clone, Copy, Debug, PartialEq, Eq)]
pub struct TPM2B_PUBLIC_KEY_RSA {
    pub size: u16,
    pub buffer: [u8; 512],
}

impl TPM2B_PUBLIC_KEY_RSA {
    /// The empty value: no octet counts and the buffer holds zeros.
    pub open spec fn empty() -> Self {
        TPM2B_PUBLIC_KEY_RSA { size: 0, buffer: spec_array_fill_for_copy_type::<u8, 512>(0u8) }
    }
}

impl Default for TPM2B_PUBLIC_KEY_RSA {
    fn default() -> (k: Self)
        ensures
            k == Self::empty(),
    {
        TPM2B_PUBLIC_KEY_RSA { size: 0, buffer: [0u8; 512] }
    }
}

/// One coordinate of a point on an elliptic curve: at most 128 octets.
#[derive(Clone, Copy, Debug, PartialEq, Eq)]
pub struct TPM2B_ECC_PARAMETER {
    pub size: u16,
    pub buffer: [u8; 128],
}

/// A point on an elliptic curve.
#[derive(Clone, Copy, Debug, PartialEq, Eq)]
pub struct TPMS_ECC_POINT {
    pub x: TPM2B_ECC_PARAMETER,
    pub y: TPM2B_ECC_PARAMETER,
}

/// A scheme that is determined by a hash algorithm alone.
#[derive(Clone, Copy, Debug, PartialEq, Eq)]
pub struct TPMS_SCHEME_HASH {
    pub hashAlg: u16,
}

/// The anonymous-attestation scheme: a hash algorithm and a counter.
#[derive(Clone, Copy, Debug, PartialEq, Eq)]
pub struct TPMS_SCHEME_ECDAA {
    pub hashAlg: u16,
    pub count: u16,
}

/// The keyed-hash scheme that masks by exclusive-or.
#[derive(Clone, Copy, Debug, PartialEq, Eq)]
pub struct TPMS_SCHEME_XOR {
    pub hashAlg: u16,
    pub kdf: u16,
}

/// A structure without members.
#[derive(Clone, Copy, Debug, PartialEq, Eq)]
pub struct TPMS_EMPTY {
}

/// The details of an asymmetric scheme, one member per scheme.
#[derive(Clone, Copy, Debug, PartialEq, Eq)]
pub enum TPMU_ASYM_SCHEME {
    Ecdh(TPMS_SCHEME_HASH),
    Ecmqv(TPMS_SCHEME_HASH),
    Rsassa(TPMS_SCHEME_HASH),
    Rsapss(TPMS_SCHEME_HASH),
    Ecdsa(TPMS_SCHEME_HASH),
    Ecdaa(TPMS_SCHEME_ECDAA),
    Sm2(TPMS_SCHEME_HASH),
    Ecschnorr(TPMS_SCHEME_HASH),
    Rsaes(TPMS_EMPTY),
    Oaep(TPMS_SCHEME_HASH),
    AnySig(TPMS_SCHEME_HASH),
}

/// The scheme of an RSA key: its identifier and the matching details.
#[derive(Clone, Copy, Debug, PartialEq, Eq)]
pub struct TPMT_RSA_SCHEME {
    pub scheme: u16,
    pub details: TPMU_ASYM_SCHEME,
}

/// The scheme of an elliptic-curve key.
#[derive(Clone, Copy, Debug, PartialEq, Eq)]
pub struct TPMT_ECC_SCHEME {
    pub scheme: u16,
    pub details: TPMU_ASYM_SCHEME,
}

/// The scheme of any asymmetric key.
#[derive(Clone, Copy, Debug, PartialEq, Eq)]
pub struct TPMT_ASYM_SCHEME {
    pub scheme: u16,
    pub details: TPMU_ASYM_SCHEME,
}

/// A key derivation function and the hash algorithm it runs on.
#[derive(Clone, Copy, Debug, PartialEq, Eq)]
pub struct TPMT_KDF_SCHEME {
    pub scheme: u16,
    pub hashAlg: u16,
}

/// The key width of a symmetric algorithm, or for exclusive-or the hash algorithm
/// that stands in its place. `Null` is the member of the algorithm "none".
#[derive(Clone, Copy, Debug, PartialEq, Eq)]
pub enum TPMU_SYM_KEY_BITS {
    Aes(u16),
    Sm4(u16),
    Camellia(u16),
    Sym(u16),
    ExclusiveOr(u16),
    Null,
}

impl Default for TPMU_SYM_KEY_BITS {
    fn default() -> (k: Self)
        ensures
            k == TPMU_SYM_KEY_BITS::Null,
    {
        TPMU_SYM_KEY_BITS::Null
    }
}

/// The mode of operation of a block cipher. `Null` is the member of the
/// algorithms that have no mode.
#[derive(Clone, Copy, Debug, PartialEq, Eq)]
pub enum TPMU_SYM_MODE {
    Aes(u16),
    Sm4(u16),
    Camellia(u16),
    Sym(u16),
    Null,
}

impl Default for TPMU_SYM_MODE {
    fn default() -> (m: Self)
        ensures
            m == TPMU_SYM_MODE::Null,
    {
        TPMU_SYM_MODE::Null
    }
}

/// A symmetric algorithm as a session uses it.
#[derive(Clone, Copy, Debug, PartialEq, Eq)]
pub struct TPMT_SYM_DEF {
    pub algorithm: u16,
    pub keyBits: TPMU_SYM_KEY_BITS,
    pub mode: TPMU_SYM_MODE,
}

/// A symmetric algorithm as an object uses it.
#[derive(Clone, Copy, Debug, PartialEq, Eq)]
pub struct TPMT_SYM_DEF_OBJECT {
    pub algorithm: u16,
    pub keyBits: TPMU_SYM_KEY_BITS,
    pub mode: TPMU_SYM_MODE,
}

/// The parameters of an RSA key.
#[derive(Clone, Copy, Debug, PartialEq, Eq)]
pub struct TPMS_RSA_PARMS {
    pub symmetric: TPMT_SYM_DEF_OBJECT,
    pub scheme: TPMT_RSA_SCHEME,
    pub keyBits: u16,
    pub exponent: u32,
}

/// The details of a keyed-hash scheme.
#[derive(Clone, Copy, Debug, PartialEq, Eq)]
pub enum TPMU_SCHEME_KEYEDHASH {
    Hmac(TPMS_SCHEME_HASH),
    ExclusiveOr(TPMS_SCHEME_XOR),
    Null,
}

/// The scheme of a keyed-hash object.
#[derive(Clone, Copy, Debug, PartialEq, Eq)]
pub struct TPMT_KEYEDHASH_SCHEME {
    pub scheme: u16,
    pub details: TPMU_SCHEME_KEYEDHASH,
}

/// The parameters of a keyed-hash object.
#[derive(Clone, Copy, Debug, PartialEq, Eq)]
pub struct TPMS_KEYEDHASH_PARMS {
    pub scheme: TPMT_KEYEDHASH_SCHEME,
}

/// The parameters of a symmetric block cipher object.
#[derive(Clone, Copy, Debug, PartialEq, Eq)]
pub struct TPMS_SYMCIPHER_PARMS {
    pub sym: TPMT_SYM_DEF_OBJECT,
}

/// The parameters of an elliptic-curve key.
#[derive(Clone, Copy, Debug, PartialEq, Eq)]
pub struct TPMS_ECC_PARMS {
    pub symmetric: TPMT_SYM_DEF_OBJECT,
    pub scheme: TPMT_ECC_SCHEME,
    pub curveID: u16,
    pub kdf: TPMT_KDF_SCHEME,
}

/// The parameters that every asymmetric key has.
#[derive(Clone, Copy, Debug, PartialEq, Eq)]
pub struct TPMS_ASYM_PARMS {
    pub symmetric: TPMT_SYM_DEF_OBJECT,
    pub scheme: TPMT_ASYM_SCHEME,
}

/// The parameter block of a public area, one member per kind of object.
#[derive(Clone, Copy, Debug, PartialEq, Eq)]
pub enum TPMU_PUBLIC_PARMS {
    KeyedHashDetail(TPMS_KEYEDHASH_PARMS),
    SymDetail(TPMS_SYMCIPHER_PARMS),
    RsaDetail(TPMS_RSA_PARMS),
    EccDetail(TPMS_ECC_PARMS),
    AsymDetail(TPMS_ASYM_PARMS),
}

/// The value that tells one object from another, one member per kind of object.
#[derive(Clone, Copy, Debug, PartialEq, Eq)]
pub enum TPMU_PUBLIC_ID {
    KeyedHash(TPM2B_DIGEST),
    Sym(TPM2B_DIGEST),
    Rsa(TPM2B_PUBLIC_KEY_RSA),
    Ecc(TPMS_ECC_POINT),
}

/// The public area of an object.
#[derive(Clone, Copy, Debug, PartialEq, Eq)]
pub struct TPMT_PUBLIC {
    pub type_: u16,
    pub nameAlg: u16,
    pub objectAttributes: u32,
    pub authPolicy: TPM2B_DIGEST,
    pub parameters: TPMU_PUBLIC_PARMS,
    pub unique: TPMU_PUBLIC_ID,
}

/// A public area with its size in front, as the commands that create or load an
/// object take it.
#[derive(Clone, Copy, Debug, PartialEq, Eq)]
pub struct TPM2B_PUBLIC {
    pub size: u16,
    pub publicArea: TPMT_PUBLIC,
}

/// An RSA signature and the hash algorithm it was made with.
#[derive(Clone, Copy, Debug, PartialEq, Eq)]
pub struct TPMS_SIGNATURE_RSA {
    pub hash: u16,
    pub sig: TPM2B_PUBLIC_KEY_RSA,
}

/// An elliptic-curve signature and the hash algorithm it was made with.
#[derive(Clone, Copy, Debug, PartialEq, Eq)]
pub struct TPMS_SIGNATURE_ECC {
    pub hash: u16,
    pub signatureR: TPM2B_ECC_PARAMETER,
    pub signatureS: TPM2B_ECC_PARAMETER,
}

/// The payload of a signature, one member per signature scheme.
#[derive(Clone, Copy, Debug, PartialEq, Eq)]
pub enum TPMU_SIGNATURE {
    Rsassa(TPMS_SIGNATURE_RSA),
    Rsapss(TPMS_SIGNATURE_RSA),
    Ecdsa(TPMS_SIGNATURE_ECC),
    Ecdaa(TPMS_SIGNATURE_ECC),
    Sm2(TPMS_SIGNATURE_ECC),
    Ecschnorr(TPMS_SIGNATURE_ECC),
    Any(TPMS_SCHEME_HASH),
}

/// A signature: the identifier of its scheme and the payload.
#[derive(Clone, Copy, Debug, PartialEq, Eq)]
pub struct TPMT_SIGNATURE {
    pub sigAlg: u16,
    pub signature: TPMU_SIGNATURE,
}

/// The protected blob of a saved context: at most 5188 octets.
#[derive(Clone, Copy, Debug, PartialEq, Eq)]
pub struct TPM2B_CONTEXT_DATA {
    pub size: u16,
    pub buffer: [u8; 5188],
}

/// The context of an object or session as the device saves it.
#[derive(Clone, Copy, Debug, PartialEq, Eq)]
pub struct TPMS_CONTEXT {
    pub sequence: u64,
    pub savedHandle: u32,
    pub hierarchy: u32,
    pub contextBlob: TPM2B_CONTEXT_DATA,
}

/// The ticket that the device hands out when it has verified a signature.
#[derive(Clone, Copy, Debug, PartialEq, Eq)]
pub struct TPMT_TK_VERIFIED {
    pub tag: u16,
    pub hierarchy: u32,
    pub digest: TPM2B_DIGEST,
}

/// The selection of PCR slots in one bank: the hash algorithm of the bank, the
/// number of octets of the mask that count, and the mask.
#[derive(Clone, Copy, Debug, PartialEq, Eq)]
pub struct TPMS_PCR_SELECTION {
    pub hash: u16,
    pub sizeofSelect: u8,
    pub pcrSelect: [u8; 4],
}

impl TPMS_PCR_SELECTION {
    /// The selection that no command has filled in: all members are zero.
    pub open spec fn zeroed() -> Self {
        TPMS_PCR_SELECTION {
            hash: 0,
            sizeofSelect: 0,
            pcrSelect: spec_array_fill_for_copy_type::<u8, 4>(0u8),
        }
    }
}

impl Default for TPMS_PCR_SELECTION {
    fn default() -> (s: Self)
        ensures
            s == Self::zeroed(),
    {
        TPMS_PCR_SELECTION { hash: 0, sizeofSelect: 0, pcrSelect: [0u8; 4] }
    }
}

/// A list of PCR selections: the first `count` of the sixteen entries count.
#[derive(Clone, Copy, Debug, PartialEq, Eq)]
pub struct TPML_PCR_SELECTION {
    pub count: u32,
    pub pcrSelections: [TPMS_PCR_SELECTION; 16],
}

impl TPML_PCR_SELECTION {
    /// The list without banks: `count` is zero and every entry is zeroed.
    pub open spec fn empty() -> Self {
        TPML_PCR_SELECTION {
            count: 0,
            pcrSelections: spec_array_fill_for_copy_type::<TPMS_PCR_SELECTION, 16>(
                TPMS_PCR_SELECTION::zeroed(),
            ),
        }
    }
}

impl Default for TPML_PCR_SELECTION {
    fn default() -> (l: Self)
        ensures
            l == Self::empty(),
    {
        TPML_PCR_SELECTION { count: 0, pcrSelections: [TPMS_PCR_SELECTION::default(); 16] }
    }
}

} // verus!
