//! Builder for the definition of a symmetric algorithm.
use vstd::prelude::*;
use crate::constants::{
    TPM2_ALG_AES, TPM2_ALG_CAMELLIA, TPM2_ALG_CFB, TPM2_ALG_NULL, TPM2_ALG_SM4, TPM2_ALG_XOR,
};
use crate::error::{Error, WrapperErrorKind};
use crate::tss2_esys::{TPMT_SYM_DEF, TPMT_SYM_DEF_OBJECT, TPMU_SYM_KEY_BITS, TPMU_SYM_MODE};

verus! {

/// Collects the algorithm, key width and mode of a symmetric definition.
///
/// For the exclusive-or obfuscation the place of the key width is taken by a
/// hash algorithm, which `with_hash` sets.
#[derive(Clone, Copy, Debug, PartialEq, Eq, Hash, Structural)]
pub struct TpmtSymDefBuilder {
    pub algorithm: Option<u16>,
    pub key_bits: u16,
    pub mode: u16,
}

impl TpmtSymDefBuilder {
    /// A builder without an algorithm, with key width zero and the mode "none".
    pub fn new() -> (builder: Self)
        ensures
            builder == (TpmtSymDefBuilder { algorithm: None, key_bits: 0, mode: TPM2_ALG_NULL }),
    {
        TpmtSymDefBuilder { algorithm: None, key_bits: 0, mode: TPM2_ALG_NULL }
    }

    /// Sets the symmetric algorithm.
    pub fn with_algorithm(self, algorithm: u16) -> (builder: Self)
        ensures
            builder == (TpmtSymDefBuilder { algorithm: Some(algorithm), ..self }),
    {
        TpmtSymDefBuilder { algorithm: Some(algorithm), ..self }
    }

    /// Sets the key width in bits.
    pub fn with_key_bits(self, key_bits: u16) -> (builder: Self)
        ensures
            builder == (TpmtSymDefBuilder { key_bits, ..self }),
    {
        TpmtSymDefBuilder { key_bits, ..self }
    }

    /// Sets the hash algorithm of the exclusive-or obfuscation. It takes the
    /// place of the key width.
    pub fn with_hash(self, hash: u16) -> (builder: Self)
        ensures
            builder == (TpmtSymDefBuilder { key_bits: hash, ..self }),
    {
        TpmtSymDefBuilder { key_bits: hash, ..self }
    }

    /// Sets the mode of operation.
    pub fn with_mode(self, mode: u16) -> (builder: Self)
        ensures
            builder == (TpmtSymDefBuilder { mode, ..self }),
    {
        TpmtSymDefBuilder { mode, ..self }
    }

    /// Why the builder cannot build, if it cannot: no algorithm was set, or the
    /// one that was set is not a symmetric algorithm that this layer knows.
    pub open spec fn build_error(self) -> Option<WrapperErrorKind> {
        match self.algorithm {
            None => Some(WrapperErrorKind::ParamsMissing),
            Some(algorithm) => if algorithm == TPM2_ALG_XOR || algorithm == TPM2_ALG_AES
                || algorithm == TPM2_ALG_SM4 || algorithm == TPM2_ALG_CAMELLIA || algorithm
                == TPM2_ALG_NULL {
                None
            } else {
                Some(WrapperErrorKind::UnsupportedParam)
            },
        }
    }

    /// The key-width member that the algorithm selects: the hash algorithm for
    /// exclusive-or, the key width for a block cipher, nothing for "none".
    pub open spec fn key_bits_member(self) -> TPMU_SYM_KEY_BITS {
        let algorithm = self.algorithm->0;
        if algorithm == TPM2_ALG_XOR {
            TPMU_SYM_KEY_BITS::ExclusiveOr(self.key_bits)
        } else if algorithm == TPM2_ALG_AES {
            TPMU_SYM_KEY_BITS::Aes(self.key_bits)
        } else if algorithm == TPM2_ALG_SM4 {
            TPMU_SYM_KEY_BITS::Sm4(self.key_bits)
        } else if algorithm == TPM2_ALG_CAMELLIA {
            TPMU_SYM_KEY_BITS::Camellia(self.key_bits)
        } else {
            TPMU_SYM_KEY_BITS::Null
        }
    }

    /// The mode member that the algorithm selects: the mode for a block cipher,
    /// nothing for exclusive-or and for "none".
    pub open spec fn mode_member(self) -> TPMU_SYM_MODE {
        let algorithm = self.algorithm->0;
        if algorithm == TPM2_ALG_AES {
            TPMU_SYM_MODE::Aes(self.mode)
        } else if algorithm == TPM2_ALG_SM4 {
            TPMU_SYM_MODE::Sm4(self.mode)
        } else if algorithm == TPM2_ALG_CAMELLIA {
            TPMU_SYM_MODE::Camellia(self.mode)
        } else {
            TPMU_SYM_MODE::Null
        }
    }

    /// Builds the definition as a session takes it.
    ///
    /// Fails with `ParamsMissing` if no algorithm was set, and with
    /// `UnsupportedParam` if the algorithm is not one of exclusive-or, AES, SM4,
    /// Camellia and "none".
    pub fn build(self) -> (r: Result<TPMT_SYM_DEF, Error>)
        ensures
            match r {
                Ok(def) => self.build_error() is None && def == (TPMT_SYM_DEF {
                    algorithm: self.algorithm->0,
                    keyBits: self.key_bits_member(),
                    mode: self.mode_member(),
                }),
                Err(e) => self.build_error() == Some(e->WrapperError_0) && e is WrapperError,
            },
    {
        match self.bits_and_mode() {
            Ok((key_bits, mode)) => {
                let algorithm: u16 = match self.algorithm {
                    Some(algorithm) => algorithm,
                    None => TPM2_ALG_NULL,
                };
                Ok(TPMT_SYM_DEF { algorithm, keyBits: key_bits, mode })
            },
            Err(e) => Err(e),
        }
    }

    /// Builds the definition as an object takes it. Fails as `build` does.
    pub fn build_object(self) -> (r: Result<TPMT_SYM_DEF_OBJECT, Error>)
        ensures
            match r {
                Ok(def) => self.build_error() is None && def == (TPMT_SYM_DEF_OBJECT {
                    algorithm: self.algorithm->0,
                    keyBits: self.key_bits_member(),
                    mode: self.mode_member(),
                }),
                Err(e) => self.build_error() == Some(e->WrapperError_0) && e is WrapperError,
            },
    {
        match self.bits_and_mode() {
            Ok((key_bits, mode)) => {
                let algorithm: u16 = match self.algorithm {
                    Some(algorithm) => algorithm,
                    None => TPM2_ALG_NULL,
                };
                Ok(TPMT_SYM_DEF_OBJECT { algorithm, keyBits: key_bits, mode })
            },
            Err(e) => Err(e),
        }
    }

    /// The two members that the algorithm selects, or the reason why there are none.
    pub fn bits_and_mode(self) -> (r: Result<(TPMU_SYM_KEY_BITS, TPMU_SYM_MODE), Error>)
        ensures
            match r {
                Ok((key_bits, mode)) => self.build_error() is None && key_bits
                    == self.key_bits_member() && mode == self.mode_member(),
                Err(e) => self.build_error() == Some(e->WrapperError_0) && e is WrapperError,
            },
    {
        match self.algorithm {
            None => Err(Error::local_error(WrapperErrorKind::ParamsMissing)),
            Some(algorithm) => {
                if algorithm == TPM2_ALG_XOR {
                    Ok((TPMU_SYM_KEY_BITS::ExclusiveOr(self.key_bits), TPMU_SYM_MODE::Null))
                } else if algorithm == TPM2_ALG_AES {
                    Ok((TPMU_SYM_KEY_BITS::Aes(self.key_bits), TPMU_SYM_MODE::Aes(self.mode)))
                } else if algorithm == TPM2_ALG_SM4 {
                    Ok((TPMU_SYM_KEY_BITS::Sm4(self.key_bits), TPMU_SYM_MODE::Sm4(self.mode)))
                } else if algorithm == TPM2_ALG_CAMELLIA {
                    Ok(
                        (
                            TPMU_SYM_KEY_BITS::Camellia(self.key_bits),
                            TPMU_SYM_MODE::Camellia(self.mode),
                        ),
                    )
                } else if algorithm == TPM2_ALG_NULL {
                    Ok((TPMU_SYM_KEY_BITS::Null, TPMU_SYM_MODE::Null))
                } else {
                    Err(Error::local_error(WrapperErrorKind::UnsupportedParam))
                }
            },
        }
    }

    /// AES with 256-bit keys in CFB mode, as a session takes it.
    pub fn aes_256_cfb() -> (def: TPMT_SYM_DEF)
        ensures
            def == (TPMT_SYM_DEF {
                algorithm: TPM2_ALG_AES,
                keyBits: TPMU_SYM_KEY_BITS::Aes(256),
                mode: TPMU_SYM_MODE::Aes(TPM2_ALG_CFB),
            }),
    {
        TPMT_SYM_DEF {
            algorithm: TPM2_ALG_AES,
            keyBits: TPMU_SYM_KEY_BITS::Aes(256),
            mode: TPMU_SYM_MODE::Aes(TPM2_ALG_CFB),
        }
    }

    /// AES with 256-bit keys in CFB mode, as an object takes it.
    pub fn aes_256_cfb_object() -> (def: TPMT_SYM_DEF_OBJECT)
        ensures
            def == (TPMT_SYM_DEF_OBJECT {
                algorithm: TPM2_ALG_AES,
                keyBits: TPMU_SYM_KEY_BITS::Aes(256),
                mode: TPMU_SYM_MODE::Aes(TPM2_ALG_CFB),
            }),
    {
        TPMT_SYM_DEF_OBJECT {
            algorithm: TPM2_ALG_AES,
            keyBits: TPMU_SYM_KEY_BITS::Aes(256),
            mode: TPMU_SYM_MODE::Aes(TPM2_ALG_CFB),
        }
    }
}

impl Default for TpmtSymDefBuilder {
    fn default() -> (builder: Self)
        ensures
            builder == (TpmtSymDefBuilder { algorithm: None, key_bits: 0, mode: TPM2_ALG_NULL }),
    {
        TpmtSymDefBuilder::new()
    }
}

} // verus!
