//! Hash algorithms and symmetric ciphers by name.
use vstd::prelude::*;
use vstd::std_specs::convert::FromSpecImpl;
use vstd::std_specs::convert::TryFromSpecImpl;
use crate::constants::{
    TPM2_ALG_AES, TPM2_ALG_CAMELLIA, TPM2_ALG_CBC, TPM2_ALG_CFB, TPM2_ALG_CTR, TPM2_ALG_ECB,
    TPM2_ALG_OFB, TPM2_ALG_SHA1, TPM2_ALG_SHA256, TPM2_ALG_SHA384, TPM2_ALG_SHA3_256,
    TPM2_ALG_SHA3_384, TPM2_ALG_SHA3_512, TPM2_ALG_SHA512, TPM2_ALG_SM3_256, TPM2_ALG_SM4,
    TPM2_ALG_SYMCIPHER, TPM2_ALG_XOR,
};
use crate::tss2_esys::{
    TPMS_SYMCIPHER_PARMS, TPMT_SYM_DEF, TPMT_SYM_DEF_OBJECT, TPMU_SYM_KEY_BITS, TPMU_SYM_MODE,
};
use crate::error::{Error, WrapperErrorKind};

verus! {

/// The hash algorithms that a PCR bank or an object name can be computed with.
#[derive(Clone, Copy, Debug, PartialEq, Eq, Hash, Structural)]
pub enum HashingAlgorithm {
    Sha1,
    Sha256,
    Sha384,
    Sha512,
    Sm3_256,
    Sha3_256,
    Sha3_384,
    Sha3_512,
}

impl HashingAlgorithm {
    /// The identifier that the device knows the algorithm by.
    pub open spec fn alg_id(self) -> u16 {
        match self {
            HashingAlgorithm::Sha1 => TPM2_ALG_SHA1,
            HashingAlgorithm::Sha256 => TPM2_ALG_SHA256,
            HashingAlgorithm::Sha384 => TPM2_ALG_SHA384,
            HashingAlgorithm::Sha512 => TPM2_ALG_SHA512,
            HashingAlgorithm::Sm3_256 => TPM2_ALG_SM3_256,
            HashingAlgorithm::Sha3_256 => TPM2_ALG_SHA3_256,
            HashingAlgorithm::Sha3_384 => TPM2_ALG_SHA3_384,
            HashingAlgorithm::Sha3_512 => TPM2_ALG_SHA3_512,
        }
    }

    /// The algorithm with the identifier `id`, where there is one.
    pub open spec fn from_alg_id(id: u16) -> Option<HashingAlgorithm> {
        if id == TPM2_ALG_SHA1 {
            Some(HashingAlgorithm::Sha1)
        } else if id == TPM2_ALG_SHA256 {
            Some(HashingAlgorithm::Sha256)
        } else if id == TPM2_ALG_SHA384 {
            Some(HashingAlgorithm::Sha384)
        } else if id == TPM2_ALG_SHA512 {
            Some(HashingAlgorithm::Sha512)
        } else if id == TPM2_ALG_SM3_256 {
            Some(HashingAlgorithm::Sm3_256)
        } else if id == TPM2_ALG_SHA3_256 {
            Some(HashingAlgorithm::Sha3_256)
        } else if id == TPM2_ALG_SHA3_384 {
            Some(HashingAlgorithm::Sha3_384)
        } else if id == TPM2_ALG_SHA3_512 {
            Some(HashingAlgorithm::Sha3_512)
        } else {
            None
        }
    }

    /// `from_alg_id` inverts `alg_id`: it finds the algorithm of every
    /// identifier that `alg_id` gives, and no other.
    pub proof fn lemma_alg_id_round_trip()
        ensures
            forall|h: HashingAlgorithm| #[trigger] Self::from_alg_id(h.alg_id()) == Some(h),
            forall|id: u16| #[trigger]
                Self::from_alg_id(id) matches Some(h) ==> h.alg_id() == id,
    {
    }
}

impl From<HashingAlgorithm> for u16 {
    fn from(algorithm: HashingAlgorithm) -> (id: u16) {
        match algorithm {
            HashingAlgorithm::Sha1 => TPM2_ALG_SHA1,
            HashingAlgorithm::Sha256 => TPM2_ALG_SHA256,
            HashingAlgorithm::Sha384 => TPM2_ALG_SHA384,
            HashingAlgorithm::Sha512 => TPM2_ALG_SHA512,
            HashingAlgorithm::Sm3_256 => TPM2_ALG_SM3_256,
            HashingAlgorithm::Sha3_256 => TPM2_ALG_SHA3_256,
            HashingAlgorithm::Sha3_384 => TPM2_ALG_SHA3_384,
            HashingAlgorithm::Sha3_512 => TPM2_ALG_SHA3_512,
        }
    }
}

impl FromSpecImpl<HashingAlgorithm> for u16 {
    open spec fn obeys_from_spec() -> bool {
        true
    }

    open spec fn from_spec(algorithm: HashingAlgorithm) -> u16 {
        algorithm.alg_id()
    }
}

impl TryFrom<u16> for HashingAlgorithm {
    type Error = Error;

    fn try_from(id: u16) -> (r: Result<HashingAlgorithm, Error>) {
        if id == TPM2_ALG_SHA1 {
            Ok(HashingAlgorithm::Sha1)
        } else if id == TPM2_ALG_SHA256 {
            Ok(HashingAlgorithm::Sha256)
        } else if id == TPM2_ALG_SHA384 {
            Ok(HashingAlgorithm::Sha384)
        } else if id == TPM2_ALG_SHA512 {
            Ok(HashingAlgorithm::Sha512)
        } else if id == TPM2_ALG_SM3_256 {
            Ok(HashingAlgorithm::Sm3_256)
        } else if id == TPM2_ALG_SHA3_256 {
            Ok(HashingAlgorithm::Sha3_256)
        } else if id == TPM2_ALG_SHA3_384 {
            Ok(HashingAlgorithm::Sha3_384)
        } else if id == TPM2_ALG_SHA3_512 {
            Ok(HashingAlgorithm::Sha3_512)
        } else {
            Err(Error::local_error(WrapperErrorKind::InvalidParam))
        }
    }
}

impl TryFromSpecImpl<u16> for HashingAlgorithm {
    open spec fn obeys_try_from_spec() -> bool {
        true
    }

    open spec fn try_from_spec(id: u16) -> Result<HashingAlgorithm, Error> {
        match Self::from_alg_id(id) {
            Some(h) => Ok(h),
            None => Err(Error::WrapperError(WrapperErrorKind::InvalidParam)),
        }
    }
}

/// The modes of operation of a block cipher.
#[derive(Clone, Copy, Debug, PartialEq, Eq, Hash, Structural)]
pub enum CipherMode {
    Ctr,
    Ofb,
    Cbc,
    Cfb,
    Ecb,
}

impl CipherMode {
    /// The identifier that the device knows the mode by.
    pub open spec fn alg_id(self) -> u16 {
        match self {
            CipherMode::Ctr => TPM2_ALG_CTR,
            CipherMode::Ofb => TPM2_ALG_OFB,
            CipherMode::Cbc => TPM2_ALG_CBC,
            CipherMode::Cfb => TPM2_ALG_CFB,
            CipherMode::Ecb => TPM2_ALG_ECB,
        }
    }
}

impl From<CipherMode> for u16 {
    fn from(mode: CipherMode) -> (id: u16) {
        match mode {
            CipherMode::Ctr => TPM2_ALG_CTR,
            CipherMode::Ofb => TPM2_ALG_OFB,
            CipherMode::Cbc => TPM2_ALG_CBC,
            CipherMode::Cfb => TPM2_ALG_CFB,
            CipherMode::Ecb => TPM2_ALG_ECB,
        }
    }
}

impl FromSpecImpl<CipherMode> for u16 {
    open spec fn obeys_from_spec() -> bool {
        true
    }

    open spec fn from_spec(mode: CipherMode) -> u16 {
        mode.alg_id()
    }
}

/// A symmetric cipher with the parameters that its family needs: a block cipher
/// with its mode and key width, or the exclusive-or obfuscation with the hash
/// algorithm that drives it.
#[derive(Clone, Copy, Debug, PartialEq, Eq, Hash, Structural)]
pub enum Cipher {
    Aes(CipherMode, u16),
    Camellia(CipherMode, u16),
    Sm4(CipherMode),
    Xor(HashingAlgorithm),
}

impl Cipher {
    /// Whether a key of `key_bits` bits is one of the widths of AES and Camellia.
    pub open spec fn is_key_width(key_bits: u16) -> bool {
        key_bits == 128 || key_bits == 192 || key_bits == 256
    }

    /// A value is well formed when its key width is one that its family has.
    pub open spec fn wf(self) -> bool {
        match self {
            Cipher::Aes(_, key_bits) => Self::is_key_width(key_bits),
            Cipher::Camellia(_, key_bits) => Self::is_key_width(key_bits),
            Cipher::Sm4(_) => true,
            Cipher::Xor(_) => true,
        }
    }

    /// AES in the given mode. The key width must be 128, 192 or 256 bits;
    /// any other is refused with `InvalidParam`.
    pub fn aes(mode: CipherMode, key_bits: u16) -> (r: Result<Cipher, Error>)
        ensures
            Self::is_key_width(key_bits) ==> r == Ok::<Cipher, Error>(Cipher::Aes(mode, key_bits)),
            !Self::is_key_width(key_bits) ==> r == Err::<Cipher, Error>(
                Error::WrapperError(WrapperErrorKind::InvalidParam),
            ),
    {
        if key_bits == 128 || key_bits == 192 || key_bits == 256 {
            Ok(Cipher::Aes(mode, key_bits))
        } else {
            Err(Error::local_error(WrapperErrorKind::InvalidParam))
        }
    }

    /// Camellia in the given mode. The key width must be 128, 192 or 256 bits;
    /// any other is refused with `InvalidParam`.
    pub fn camellia(mode: CipherMode, key_bits: u16) -> (r: Result<Cipher, Error>)
        ensures
            Self::is_key_width(key_bits) ==> r == Ok::<Cipher, Error>(
                Cipher::Camellia(mode, key_bits),
            ),
            !Self::is_key_width(key_bits) ==> r == Err::<Cipher, Error>(
                Error::WrapperError(WrapperErrorKind::InvalidParam),
            ),
    {
        if key_bits == 128 || key_bits == 192 || key_bits == 256 {
            Ok(Cipher::Camellia(mode, key_bits))
        } else {
            Err(Error::local_error(WrapperErrorKind::InvalidParam))
        }
    }

    /// SM4 in the given mode; its keys are always 128 bits wide.
    pub fn sm4(mode: CipherMode) -> (c: Cipher)
        ensures
            c == Cipher::Sm4(mode),
    {
        Cipher::Sm4(mode)
    }

    /// The exclusive-or obfuscation driven by the given hash algorithm.
    pub fn xor(hash: HashingAlgorithm) -> (c: Cipher)
        ensures
            c == Cipher::Xor(hash),
    {
        Cipher::Xor(hash)
    }

    /// AES with 128-bit keys in CFB mode.
    pub fn aes_128_cfb() -> (c: Cipher)
        ensures
            c == Cipher::Aes(CipherMode::Cfb, 128),
            c.wf(),
    {
        Cipher::Aes(CipherMode::Cfb, 128)
    }

    /// AES with 256-bit keys in CFB mode.
    pub fn aes_256_cfb() -> (c: Cipher)
        ensures
            c == Cipher::Aes(CipherMode::Cfb, 256),
            c.wf(),
    {
        Cipher::Aes(CipherMode::Cfb, 256)
    }

    /// The kind of object that holds a key of a symmetric cipher.
    pub fn object_type() -> (id: u16)
        ensures
            id == TPM2_ALG_SYMCIPHER,
    {
        TPM2_ALG_SYMCIPHER
    }

    /// The identifier of the cipher's family.
    pub open spec fn spec_algorithm_id(self) -> u16 {
        match self {
            Cipher::Aes(..) => TPM2_ALG_AES,
            Cipher::Camellia(..) => TPM2_ALG_CAMELLIA,
            Cipher::Sm4(..) => TPM2_ALG_SM4,
            Cipher::Xor(..) => TPM2_ALG_XOR,
        }
    }

    /// The identifier of the cipher's family.
    #[verifier::when_used_as_spec(spec_algorithm_id)]
    pub fn algorithm_id(self) -> (id: u16)
        ensures
            id == self.spec_algorithm_id(),
    {
        match self {
            Cipher::Aes(..) => TPM2_ALG_AES,
            Cipher::Camellia(..) => TPM2_ALG_CAMELLIA,
            Cipher::Sm4(..) => TPM2_ALG_SM4,
            Cipher::Xor(..) => TPM2_ALG_XOR,
        }
    }

    /// The key-width member that the device reads for this cipher: the width in
    /// bits for a block cipher, the hash algorithm for exclusive-or.
    pub open spec fn key_bits_member(self) -> TPMU_SYM_KEY_BITS {
        match self {
            Cipher::Aes(_, key_bits) => TPMU_SYM_KEY_BITS::Aes(key_bits),
            Cipher::Camellia(_, key_bits) => TPMU_SYM_KEY_BITS::Camellia(key_bits),
            Cipher::Sm4(_) => TPMU_SYM_KEY_BITS::Sm4(128),
            Cipher::Xor(hash) => TPMU_SYM_KEY_BITS::ExclusiveOr(hash.alg_id()),
        }
    }

    /// The mode member that the device reads for this cipher; exclusive-or has none.
    pub open spec fn mode_member(self) -> TPMU_SYM_MODE {
        match self {
            Cipher::Aes(mode, _) => TPMU_SYM_MODE::Aes(mode.alg_id()),
            Cipher::Camellia(mode, _) => TPMU_SYM_MODE::Camellia(mode.alg_id()),
            Cipher::Sm4(mode) => TPMU_SYM_MODE::Sm4(mode.alg_id()),
            Cipher::Xor(_) => TPMU_SYM_MODE::Null,
        }
    }

    /// The cipher as a session is given it.
    pub open spec fn sym_def(self) -> TPMT_SYM_DEF {
        TPMT_SYM_DEF {
            algorithm: self.algorithm_id(),
            keyBits: self.key_bits_member(),
            mode: self.mode_member(),
        }
    }

    /// The cipher as an object is given it.
    pub open spec fn sym_def_object(self) -> TPMT_SYM_DEF_OBJECT {
        TPMT_SYM_DEF_OBJECT {
            algorithm: self.algorithm_id(),
            keyBits: self.key_bits_member(),
            mode: self.mode_member(),
        }
    }

    /// The two members that the device reads for this cipher.
    fn members(self) -> (m: (TPMU_SYM_KEY_BITS, TPMU_SYM_MODE))
        ensures
            m.0 == self.key_bits_member(),
            m.1 == self.mode_member(),
    {
        match self {
            Cipher::Aes(mode, key_bits) => (
                TPMU_SYM_KEY_BITS::Aes(key_bits),
                TPMU_SYM_MODE::Aes(mode.into()),
            ),
            Cipher::Camellia(mode, key_bits) => (
                TPMU_SYM_KEY_BITS::Camellia(key_bits),
                TPMU_SYM_MODE::Camellia(mode.into()),
            ),
            Cipher::Sm4(mode) => (TPMU_SYM_KEY_BITS::Sm4(128), TPMU_SYM_MODE::Sm4(mode.into())),
            Cipher::Xor(hash) => (TPMU_SYM_KEY_BITS::ExclusiveOr(hash.into()), TPMU_SYM_MODE::Null),
        }
    }
}

impl From<Cipher> for TPMT_SYM_DEF {
    fn from(cipher: Cipher) -> (d: TPMT_SYM_DEF) {
        let (key_bits, mode) = cipher.members();
        TPMT_SYM_DEF { algorithm: cipher.algorithm_id(), keyBits: key_bits, mode }
    }
}

impl FromSpecImpl<Cipher> for TPMT_SYM_DEF {
    open spec fn obeys_from_spec() -> bool {
        true
    }

    open spec fn from_spec(cipher: Cipher) -> TPMT_SYM_DEF {
        cipher.sym_def()
    }
}

impl From<Cipher> for TPMT_SYM_DEF_OBJECT {
    fn from(cipher: Cipher) -> (d: TPMT_SYM_DEF_OBJECT) {
        let (key_bits, mode) = cipher.members();
        TPMT_SYM_DEF_OBJECT { algorithm: cipher.algorithm_id(), keyBits: key_bits, mode }
    }
}

impl FromSpecImpl<Cipher> for TPMT_SYM_DEF_OBJECT {
    open spec fn obeys_from_spec() -> bool {
        true
    }

    open spec fn from_spec(cipher: Cipher) -> TPMT_SYM_DEF_OBJECT {
        cipher.sym_def_object()
    }
}

impl From<Cipher> for TPMS_SYMCIPHER_PARMS {
    fn from(cipher: Cipher) -> (p: TPMS_SYMCIPHER_PARMS) {
        TPMS_SYMCIPHER_PARMS { sym: cipher.into() }
    }
}

impl FromSpecImpl<Cipher> for TPMS_SYMCIPHER_PARMS {
    open spec fn obeys_from_spec() -> bool {
        true
    }

    open spec fn from_spec(cipher: Cipher) -> TPMS_SYMCIPHER_PARMS {
        TPMS_SYMCIPHER_PARMS { sym: cipher.sym_def_object() }
    }
}

} // verus!
