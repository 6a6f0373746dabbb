//! Asymmetric schemes by name.
use vstd::prelude::*;
use crate::constants::{
    TPM2_ALG_ECDAA, TPM2_ALG_ECDH, TPM2_ALG_ECDSA, TPM2_ALG_ECMQV, TPM2_ALG_ECSCHNORR,
    TPM2_ALG_NULL, TPM2_ALG_OAEP, TPM2_ALG_RSAES, TPM2_ALG_RSAPSS, TPM2_ALG_RSASSA, TPM2_ALG_SM2,
};
use crate::tss2_esys::{
    TPMS_EMPTY, TPMS_SCHEME_ECDAA, TPMS_SCHEME_HASH, TPMT_RSA_SCHEME, TPMU_ASYM_SCHEME,
};

verus! {

/// An asymmetric scheme with what it is parameterised by: a hash algorithm, for
/// `ECDAA` also a counter, for `RSAES` nothing. `AnySig` stands for "no scheme
/// in particular" and carries the identifier "none".
#[derive(Clone, Copy, Debug, PartialEq, Eq, Hash, Structural)]
pub enum AsymSchemeUnion {
    ECDH(u16),
    ECMQV(u16),
    RSASSA(u16),
    RSAPSS(u16),
    ECDSA(u16),
    ECDAA(u16, u16),
    SM2(u16),
    ECSchnorr(u16),
    RSAES,
    RSAOAEP(u16),
    AnySig(u16),
}

impl AsymSchemeUnion {
    /// The identifier of the scheme.
    pub open spec fn spec_scheme_id(self) -> u16 {
        match self {
            AsymSchemeUnion::ECDH(_) => TPM2_ALG_ECDH,
            AsymSchemeUnion::ECMQV(_) => TPM2_ALG_ECMQV,
            AsymSchemeUnion::RSASSA(_) => TPM2_ALG_RSASSA,
            AsymSchemeUnion::RSAPSS(_) => TPM2_ALG_RSAPSS,
            AsymSchemeUnion::ECDSA(_) => TPM2_ALG_ECDSA,
            AsymSchemeUnion::ECDAA(_, _) => TPM2_ALG_ECDAA,
            AsymSchemeUnion::SM2(_) => TPM2_ALG_SM2,
            AsymSchemeUnion::ECSchnorr(_) => TPM2_ALG_ECSCHNORR,
            AsymSchemeUnion::RSAES => TPM2_ALG_RSAES,
            AsymSchemeUnion::RSAOAEP(_) => TPM2_ALG_OAEP,
            AsymSchemeUnion::AnySig(_) => TPM2_ALG_NULL,
        }
    }

    /// The details of the scheme, in the member that belongs to it.
    pub open spec fn details(self) -> TPMU_ASYM_SCHEME {
        match self {
            AsymSchemeUnion::ECDH(hash_alg) => TPMU_ASYM_SCHEME::Ecdh(
                TPMS_SCHEME_HASH { hashAlg: hash_alg },
            ),
            AsymSchemeUnion::ECMQV(hash_alg) => TPMU_ASYM_SCHEME::Ecmqv(
                TPMS_SCHEME_HASH { hashAlg: hash_alg },
            ),
            AsymSchemeUnion::RSASSA(hash_alg) => TPMU_ASYM_SCHEME::Rsassa(
                TPMS_SCHEME_HASH { hashAlg: hash_alg },
            ),
            AsymSchemeUnion::RSAPSS(hash_alg) => TPMU_ASYM_SCHEME::Rsapss(
                TPMS_SCHEME_HASH { hashAlg: hash_alg },
            ),
            AsymSchemeUnion::ECDSA(hash_alg) => TPMU_ASYM_SCHEME::Ecdsa(
                TPMS_SCHEME_HASH { hashAlg: hash_alg },
            ),
            AsymSchemeUnion::ECDAA(hash_alg, count) => TPMU_ASYM_SCHEME::Ecdaa(
                TPMS_SCHEME_ECDAA { hashAlg: hash_alg, count },
            ),
            AsymSchemeUnion::SM2(hash_alg) => TPMU_ASYM_SCHEME::Sm2(
                TPMS_SCHEME_HASH { hashAlg: hash_alg },
            ),
            AsymSchemeUnion::ECSchnorr(hash_alg) => TPMU_ASYM_SCHEME::Ecschnorr(
                TPMS_SCHEME_HASH { hashAlg: hash_alg },
            ),
            AsymSchemeUnion::RSAES => TPMU_ASYM_SCHEME::Rsaes(TPMS_EMPTY {  }),
            AsymSchemeUnion::RSAOAEP(hash_alg) => TPMU_ASYM_SCHEME::Oaep(
                TPMS_SCHEME_HASH { hashAlg: hash_alg },
            ),
            AsymSchemeUnion::AnySig(hash_alg) => TPMU_ASYM_SCHEME::AnySig(
                TPMS_SCHEME_HASH { hashAlg: hash_alg },
            ),
        }
    }

    /// The scheme as an RSA key is given it: the identifier with the details.
    pub open spec fn rsa_scheme(self) -> TPMT_RSA_SCHEME {
        TPMT_RSA_SCHEME { scheme: self.spec_scheme_id(), details: self.details() }
    }

    /// The identifier of the scheme.
    #[verifier::when_used_as_spec(spec_scheme_id)]
    pub fn scheme_id(self) -> (id: u16)
        ensures
            id == self.spec_scheme_id(),
    {
        match self {
            AsymSchemeUnion::ECDH(_) => TPM2_ALG_ECDH,
            AsymSchemeUnion::ECMQV(_) => TPM2_ALG_ECMQV,
            AsymSchemeUnion::RSASSA(_) => TPM2_ALG_RSASSA,
            AsymSchemeUnion::RSAPSS(_) => TPM2_ALG_RSAPSS,
            AsymSchemeUnion::ECDSA(_) => TPM2_ALG_ECDSA,
            AsymSchemeUnion::ECDAA(_, _) => TPM2_ALG_ECDAA,
            AsymSchemeUnion::SM2(_) => TPM2_ALG_SM2,
            AsymSchemeUnion::ECSchnorr(_) => TPM2_ALG_ECSCHNORR,
            AsymSchemeUnion::RSAES => TPM2_ALG_RSAES,
            AsymSchemeUnion::RSAOAEP(_) => TPM2_ALG_OAEP,
            AsymSchemeUnion::AnySig(_) => TPM2_ALG_NULL,
        }
    }

    /// Converts the scheme to the form that the parameters of an RSA key hold.
    pub fn get_rsa_scheme(self) -> (scheme: TPMT_RSA_SCHEME)
        ensures
            scheme == self.rsa_scheme(),
    {
        let scheme = self.scheme_id();
        let details = match self {
            AsymSchemeUnion::ECDH(hash_alg) => TPMU_ASYM_SCHEME::Ecdh(
                TPMS_SCHEME_HASH { hashAlg: hash_alg },
            ),
            AsymSchemeUnion::ECMQV(hash_alg) => TPMU_ASYM_SCHEME::Ecmqv(
                TPMS_SCHEME_HASH { hashAlg: hash_alg },
            ),
            AsymSchemeUnion::RSASSA(hash_alg) => TPMU_ASYM_SCHEME::Rsassa(
                TPMS_SCHEME_HASH { hashAlg: hash_alg },
            ),
            AsymSchemeUnion::RSAPSS(hash_alg) => TPMU_ASYM_SCHEME::Rsapss(
                TPMS_SCHEME_HASH { hashAlg: hash_alg },
            ),
            AsymSchemeUnion::ECDSA(hash_alg) => TPMU_ASYM_SCHEME::Ecdsa(
                TPMS_SCHEME_HASH { hashAlg: hash_alg },
            ),
            AsymSchemeUnion::ECDAA(hash_alg, count) => TPMU_ASYM_SCHEME::Ecdaa(
                TPMS_SCHEME_ECDAA { hashAlg: hash_alg, count },
            ),
            AsymSchemeUnion::SM2(hash_alg) => TPMU_ASYM_SCHEME::Sm2(
                TPMS_SCHEME_HASH { hashAlg: hash_alg },
            ),
            AsymSchemeUnion::ECSchnorr(hash_alg) => TPMU_ASYM_SCHEME::Ecschnorr(
                TPMS_SCHEME_HASH { hashAlg: hash_alg },
            ),
            AsymSchemeUnion::RSAES => TPMU_ASYM_SCHEME::Rsaes(TPMS_EMPTY {  }),
            AsymSchemeUnion::RSAOAEP(hash_alg) => TPMU_ASYM_SCHEME::Oaep(
                TPMS_SCHEME_HASH { hashAlg: hash_alg },
            ),
            AsymSchemeUnion::AnySig(hash_alg) => TPMU_ASYM_SCHEME::AnySig(
                TPMS_SCHEME_HASH { hashAlg: hash_alg },
            ),
        };
        TPMT_RSA_SCHEME { scheme, details }
    }
}

} // verus!
