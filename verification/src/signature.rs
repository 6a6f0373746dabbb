//! Signatures as a scheme and a vector of octets.
use vstd::prelude::*;
use vstd::std_specs::convert::TryFromSpecImpl;
use crate::buffers::{buffer_from, lemma_zero_padded_prefix, prefix_of, zero_padded};
use crate::constants::{
    TPM2_ALG_ECDAA, TPM2_ALG_ECDH, TPM2_ALG_ECDSA, TPM2_ALG_ECMQV, TPM2_ALG_ECSCHNORR,
    TPM2_ALG_OAEP, TPM2_ALG_RSAES, TPM2_ALG_RSAPSS, TPM2_ALG_RSASSA, TPM2_ALG_SM2,
};
use crate::error::{Error, WrapperErrorKind};
use crate::schemes::AsymSchemeUnion;
use crate::tss2_esys::{TPM2B_PUBLIC_KEY_RSA, TPMS_SIGNATURE_RSA, TPMT_SIGNATURE, TPMU_SIGNATURE};

verus! {

/// The largest signature, in octets, that the device structure has room for.
pub const MAX_SIGNATURE_SIZE: usize = 512;

/// An asymmetric signature: the scheme it was made with and its octets.
#[derive(Clone, Debug, PartialEq, Eq)]
pub struct Signature {
    pub scheme: AsymSchemeUnion,
    pub signature: Vec<u8>,
}

/// Whether `id` names an asymmetric scheme that this layer knows of and does
/// not convert signatures for.
pub open spec fn is_unsupported_signature_scheme(id: u16) -> bool {
    id == TPM2_ALG_ECDH || id == TPM2_ALG_ECDSA || id == TPM2_ALG_OAEP || id == TPM2_ALG_RSAPSS
        || id == TPM2_ALG_RSAES || id == TPM2_ALG_ECMQV || id == TPM2_ALG_SM2 || id
        == TPM2_ALG_ECSCHNORR || id == TPM2_ALG_ECDAA
}

impl Signature {
    /// Why a signature of the device cannot be read, if it cannot.
    ///
    /// Only `RSASSA` is converted. The payload must be the member of that
    /// scheme, and its size must not exceed its buffer: otherwise the
    /// structure is inconsistent. The other asymmetric schemes are
    /// unsupported, and any other identifier is inconsistent with a signature.
    pub open spec fn read_error(tss_signature: TPMT_SIGNATURE) -> Option<WrapperErrorKind> {
        if tss_signature.sigAlg == TPM2_ALG_RSASSA {
            match tss_signature.signature {
                TPMU_SIGNATURE::Rsassa(rsa) => if rsa.sig.size <= MAX_SIGNATURE_SIZE {
                    None
                } else {
                    Some(WrapperErrorKind::InconsistentParams)
                },
                _ => Some(WrapperErrorKind::InconsistentParams),
            }
        } else if is_unsupported_signature_scheme(tss_signature.sigAlg) {
            Some(WrapperErrorKind::UnsupportedParam)
        } else {
            Some(WrapperErrorKind::InconsistentParams)
        }
    }

    /// Reads a signature of the device: the scheme with its hash algorithm, and
    /// the octets of the buffer that count.
    pub fn try_from(tss_signature: TPMT_SIGNATURE) -> (r: Result<Signature, Error>)
        ensures
            match r {
                Ok(signature) => {
                    let rsa = tss_signature.signature->Rsassa_0;
                    &&& Self::read_error(tss_signature) is None
                    &&& signature.scheme == AsymSchemeUnion::RSASSA(rsa.hash)
                    &&& signature.signature@ == rsa.sig.buffer@.take(rsa.sig.size as int)
                },
                Err(e) => Self::read_error(tss_signature) == Some(e->WrapperError_0)
                    && e is WrapperError,
            },
    {
        if tss_signature.sigAlg == TPM2_ALG_RSASSA {
            match tss_signature.signature {
                TPMU_SIGNATURE::Rsassa(rsa) => {
                    let size = rsa.sig.size as usize;
                    if size > MAX_SIGNATURE_SIZE {
                        return Err(Error::local_error(WrapperErrorKind::InconsistentParams));
                    }
                    let signature = prefix_of(&rsa.sig.buffer, size);
                    Ok(Signature { scheme: AsymSchemeUnion::RSASSA(rsa.hash), signature })
                },
                _ => Err(Error::local_error(WrapperErrorKind::InconsistentParams)),
            }
        } else if tss_signature.sigAlg == TPM2_ALG_ECDH || tss_signature.sigAlg == TPM2_ALG_ECDSA
            || tss_signature.sigAlg == TPM2_ALG_OAEP || tss_signature.sigAlg == TPM2_ALG_RSAPSS
            || tss_signature.sigAlg == TPM2_ALG_RSAES || tss_signature.sigAlg == TPM2_ALG_ECMQV
            || tss_signature.sigAlg == TPM2_ALG_SM2 || tss_signature.sigAlg == TPM2_ALG_ECSCHNORR
            || tss_signature.sigAlg == TPM2_ALG_ECDAA {
            Err(Error::local_error(WrapperErrorKind::UnsupportedParam))
        } else {
            Err(Error::local_error(WrapperErrorKind::InconsistentParams))
        }
    }

    /// Whether `tss_signature` is the `RSASSA` signature `signature`, made with
    /// the hash algorithm `hash_alg`, as the device takes it: the octets at the
    /// start of the buffer, zeros behind them.
    pub open spec fn written_as(
        hash_alg: u16,
        signature: Seq<u8>,
        tss_signature: TPMT_SIGNATURE,
    ) -> bool {
        let rsa = tss_signature.signature->Rsassa_0;
        &&& tss_signature.sigAlg == TPM2_ALG_RSASSA
        &&& tss_signature.signature is Rsassa
        &&& rsa.hash == hash_alg
        &&& rsa.sig.size == signature.len()
        &&& rsa.sig.buffer@ == zero_padded(signature, 512)
    }

    /// What is written can be read back: a signature as the device takes it
    /// reads as the hash algorithm and the octets that were written.
    pub proof fn lemma_written_reads_back(
        hash_alg: u16,
        signature: Seq<u8>,
        tss_signature: TPMT_SIGNATURE,
    )
        requires
            signature.len() <= MAX_SIGNATURE_SIZE,
            Self::written_as(hash_alg, signature, tss_signature),
        ensures
            Self::read_error(tss_signature) is None,
            tss_signature.signature->Rsassa_0.hash == hash_alg,
            tss_signature.signature->Rsassa_0.sig.buffer@.take(
                tss_signature.signature->Rsassa_0.sig.size as int,
            ) == signature,
    {
        lemma_zero_padded_prefix(signature, 512);
    }

    /// Why the signature cannot be handed to the device, if it cannot: it is
    /// longer than 512 octets, or else its scheme is not `RSASSA`.
    pub open spec fn write_error(self) -> Option<WrapperErrorKind> {
        if self.signature@.len() > MAX_SIGNATURE_SIZE {
            Some(WrapperErrorKind::WrongParamSize)
        } else if !(self.scheme is RSASSA) {
            Some(WrapperErrorKind::UnsupportedParam)
        } else {
            None
        }
    }
}

impl TryFrom<Signature> for TPMT_SIGNATURE {
    type Error = Error;

    /// Writes the signature into the structure of the device: the octets at
    /// the start of the buffer, zeros behind them.
    fn try_from(sig: Signature) -> (r: Result<TPMT_SIGNATURE, Error>)
        ensures
            match r {
                Ok(tss_signature) => sig.write_error() is None && Signature::written_as(
                    sig.scheme->RSASSA_0,
                    sig.signature@,
                    tss_signature,
                ),
                Err(e) => sig.write_error() == Some(e->WrapperError_0) && e is WrapperError,
            },
    {
        let len = sig.signature.len();
        if len > MAX_SIGNATURE_SIZE {
            return Err(Error::local_error(WrapperErrorKind::WrongParamSize));
        }
        match sig.scheme {
            AsymSchemeUnion::RSASSA(hash_alg) => {
                let buffer: [u8; 512] = buffer_from(&sig.signature);
                Ok(
                    TPMT_SIGNATURE {
                        sigAlg: TPM2_ALG_RSASSA,
                        signature: TPMU_SIGNATURE::Rsassa(
                            TPMS_SIGNATURE_RSA {
                                hash: hash_alg,
                                sig: TPM2B_PUBLIC_KEY_RSA { size: len as u16, buffer },
                            },
                        ),
                    },
                )
            },
            _ => Err(Error::local_error(WrapperErrorKind::UnsupportedParam)),
        }
    }
}

/// The conversion is stated by the `ensures` of `try_from`, over the octets of
/// the vector.
impl TryFromSpecImpl<Signature> for TPMT_SIGNATURE {
    open spec fn obeys_try_from_spec() -> bool {
        false
    }

    open spec fn try_from_spec(sig: Signature) -> Result<TPMT_SIGNATURE, Error> {
        arbitrary()
    }
}

} // verus!
