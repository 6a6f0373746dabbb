//! Builders for the public area of an object and for the parameters of an RSA key.
use vstd::prelude::*;
use vstd::std_specs::convert::FromSpecImpl;
use crate::algorithm::Cipher;
use crate::attributes::{
    ObjectAttributes, FIXED_PARENT_KEY_ATTRIBUTES, FIXED_SIGNING_KEY_ATTRIBUTES,
};
use crate::constants::{
    TPM2_ALG_ECC, TPM2_ALG_KEYEDHASH, TPM2_ALG_NULL, TPM2_ALG_OAEP, TPM2_ALG_RSA, TPM2_ALG_RSAES,
    TPM2_ALG_RSAPSS, TPM2_ALG_RSASSA, TPM2_ALG_SHA256, TPM2_ALG_SYMCIPHER,
};
use crate::error::{Error, WrapperErrorKind};
use crate::schemes::AsymSchemeUnion;
use crate::tss2_esys::{
    TPM2B_DIGEST, TPM2B_PUBLIC, TPM2B_PUBLIC_KEY_RSA, TPMS_ASYM_PARMS, TPMS_ECC_PARMS,
    TPMS_ECC_POINT, TPMS_KEYEDHASH_PARMS, TPMS_RSA_PARMS, TPMS_SYMCIPHER_PARMS, TPMT_PUBLIC,
    TPMT_PUBLIC_SIZE, TPMT_SYM_DEF_OBJECT, TPMU_PUBLIC_ID, TPMU_PUBLIC_PARMS, TPMU_SYM_KEY_BITS,
    TPMU_SYM_MODE,
};

verus! {

/// The value that tells one object from another, by the kind of object.
#[derive(Debug, PartialEq, Eq)]
pub enum PublicIdUnion {
    KeyedHash(TPM2B_DIGEST),
    Sym(TPM2B_DIGEST),
    Rsa(Box<TPM2B_PUBLIC_KEY_RSA>),
    Ecc(Box<TPMS_ECC_POINT>),
}

impl PublicIdUnion {
    /// What `from_public` gives for a public area: the modulus of an RSA key;
    /// `InconsistentParams` where the area says RSA and holds another member;
    /// `UnsupportedParam` for every other kind of object.
    pub open spec fn read_from(public: TPM2B_PUBLIC) -> Result<PublicIdUnion, Error> {
        if public.publicArea.type_ == TPM2_ALG_RSA {
            match public.publicArea.unique {
                TPMU_PUBLIC_ID::Rsa(modulus) => Ok(PublicIdUnion::Rsa(Box::new(modulus))),
                _ => Err(Error::WrapperError(WrapperErrorKind::InconsistentParams)),
            }
        } else {
            Err(Error::WrapperError(WrapperErrorKind::UnsupportedParam))
        }
    }

    /// Reads the unique value out of a public area. Only RSA keys are supported.
    pub fn from_public(public: &TPM2B_PUBLIC) -> (r: Result<PublicIdUnion, Error>)
        ensures
            r == Self::read_from(*public),
    {
        if public.publicArea.type_ == TPM2_ALG_RSA {
            match public.publicArea.unique {
                TPMU_PUBLIC_ID::Rsa(modulus) => Ok(PublicIdUnion::Rsa(Box::new(modulus))),
                _ => Err(Error::local_error(WrapperErrorKind::InconsistentParams)),
            }
        } else {
            Err(Error::local_error(WrapperErrorKind::UnsupportedParam))
        }
    }
}

/// The parameter block of a public area, by the kind of object.
#[derive(Clone, Copy, Debug, PartialEq, Eq)]
pub enum PublicParmsUnion {
    KeyedHashDetail(TPMS_KEYEDHASH_PARMS),
    SymDetail(Cipher),
    RsaDetail(TPMS_RSA_PARMS),
    EccDetail(TPMS_ECC_PARMS),
    AsymDetail(TPMS_ASYM_PARMS),
}

impl PublicParmsUnion {
    /// The kind of object that the variant belongs to.
    pub open spec fn spec_object_type(&self) -> u16 {
        match self {
            PublicParmsUnion::AsymDetail(..) => TPM2_ALG_NULL,
            PublicParmsUnion::EccDetail(..) => TPM2_ALG_ECC,
            PublicParmsUnion::RsaDetail(..) => TPM2_ALG_RSA,
            PublicParmsUnion::SymDetail(..) => TPM2_ALG_SYMCIPHER,
            PublicParmsUnion::KeyedHashDetail(..) => TPM2_ALG_KEYEDHASH,
        }
    }

    /// The kind of object that the variant belongs to.
    #[verifier::when_used_as_spec(spec_object_type)]
    pub fn object_type(&self) -> (id: u16)
        ensures
            id == self.spec_object_type(),
    {
        match self {
            PublicParmsUnion::AsymDetail(..) => TPM2_ALG_NULL,
            PublicParmsUnion::EccDetail(..) => TPM2_ALG_ECC,
            PublicParmsUnion::RsaDetail(..) => TPM2_ALG_RSA,
            PublicParmsUnion::SymDetail(..) => TPM2_ALG_SYMCIPHER,
            PublicParmsUnion::KeyedHashDetail(..) => TPM2_ALG_KEYEDHASH,
        }
    }

    /// The block as the device takes it: the same member, a cipher written
    /// out as the definition of its algorithm.
    pub open spec fn device_parms(self) -> TPMU_PUBLIC_PARMS {
        match self {
            PublicParmsUnion::AsymDetail(parms) => TPMU_PUBLIC_PARMS::AsymDetail(parms),
            PublicParmsUnion::EccDetail(parms) => TPMU_PUBLIC_PARMS::EccDetail(parms),
            PublicParmsUnion::RsaDetail(parms) => TPMU_PUBLIC_PARMS::RsaDetail(parms),
            PublicParmsUnion::SymDetail(cipher) => TPMU_PUBLIC_PARMS::SymDetail(
                TPMS_SYMCIPHER_PARMS { sym: cipher.sym_def_object() },
            ),
            PublicParmsUnion::KeyedHashDetail(parms) => TPMU_PUBLIC_PARMS::KeyedHashDetail(parms),
        }
    }
}

impl From<PublicParmsUnion> for TPMU_PUBLIC_PARMS {
    fn from(parms: PublicParmsUnion) -> (device: TPMU_PUBLIC_PARMS) {
        match parms {
            PublicParmsUnion::AsymDetail(parms) => TPMU_PUBLIC_PARMS::AsymDetail(parms),
            PublicParmsUnion::EccDetail(parms) => TPMU_PUBLIC_PARMS::EccDetail(parms),
            PublicParmsUnion::RsaDetail(parms) => TPMU_PUBLIC_PARMS::RsaDetail(parms),
            PublicParmsUnion::SymDetail(cipher) => TPMU_PUBLIC_PARMS::SymDetail(cipher.into()),
            PublicParmsUnion::KeyedHashDetail(parms) => TPMU_PUBLIC_PARMS::KeyedHashDetail(parms),
        }
    }
}

impl FromSpecImpl<PublicParmsUnion> for TPMU_PUBLIC_PARMS {
    open spec fn obeys_from_spec() -> bool {
        true
    }

    open spec fn from_spec(parms: PublicParmsUnion) -> TPMU_PUBLIC_PARMS {
        parms.device_parms()
    }
}

/// Collects the parts of a public area and checks that they fit together.
///
/// Only objects of the RSA kind can be built.
#[derive(Debug)]
pub struct Tpm2BPublicBuilder {
    pub type_: Option<u16>,
    pub name_alg: u16,
    pub object_attributes: ObjectAttributes,
    pub auth_policy: TPM2B_DIGEST,
    pub parameters: Option<PublicParmsUnion>,
    pub unique: Option<PublicIdUnion>,
}

impl Tpm2BPublicBuilder {
    /// A builder in which nothing is set: no kind, the name algorithm "none",
    /// no attributes, an empty policy digest, no parameters, no unique value.
    pub fn new() -> (builder: Self)
        ensures
            builder == (Tpm2BPublicBuilder {
                type_: None,
                name_alg: TPM2_ALG_NULL,
                object_attributes: ObjectAttributes(0),
                auth_policy: TPM2B_DIGEST::empty(),
                parameters: None,
                unique: None,
            }),
    {
        Tpm2BPublicBuilder {
            type_: None,
            name_alg: TPM2_ALG_NULL,
            object_attributes: ObjectAttributes(0),
            auth_policy: TPM2B_DIGEST::default(),
            parameters: None,
            unique: None,
        }
    }

    /// Sets the kind of the object.
    pub fn with_type(self, type_: u16) -> (builder: Self)
        ensures
            builder == (Tpm2BPublicBuilder { type_: Some(type_), ..self }),
    {
        Tpm2BPublicBuilder { type_: Some(type_), ..self }
    }

    /// Sets the algorithm that the name of the object is computed with.
    pub fn with_name_alg(self, name_alg: u16) -> (builder: Self)
        ensures
            builder == (Tpm2BPublicBuilder { name_alg, ..self }),
    {
        Tpm2BPublicBuilder { name_alg, ..self }
    }

    /// Sets the attributes of the object.
    pub fn with_object_attributes(self, obj_attr: ObjectAttributes) -> (builder: Self)
        ensures
            builder == (Tpm2BPublicBuilder { object_attributes: obj_attr, ..self }),
    {
        Tpm2BPublicBuilder { object_attributes: obj_attr, ..self }
    }

    /// Sets the digest of the authorization policy: the first `size` octets of `buffer`.
    pub fn with_auth_policy(self, size: u16, buffer: [u8; 64]) -> (builder: Self)
        ensures
            builder == (Tpm2BPublicBuilder { auth_policy: TPM2B_DIGEST { size, buffer }, ..self }),
    {
        Tpm2BPublicBuilder { auth_policy: TPM2B_DIGEST { size, buffer }, ..self }
    }

    /// Sets the parameter block.
    pub fn with_parms(self, parameters: PublicParmsUnion) -> (builder: Self)
        ensures
            builder == (Tpm2BPublicBuilder { parameters: Some(parameters), ..self }),
    {
        Tpm2BPublicBuilder { parameters: Some(parameters), ..self }
    }

    /// Sets the unique value.
    pub fn with_unique(self, unique: PublicIdUnion) -> (builder: Self)
        ensures
            builder == (Tpm2BPublicBuilder { unique: Some(unique), ..self }),
    {
        Tpm2BPublicBuilder { unique: Some(unique), ..self }
    }

    /// Why the builder cannot build, if it cannot. The checks come in this
    /// order: the kind must be RSA, the parameter block must be there and be
    /// that of an RSA key, and a unique value that is there must be that of an
    /// RSA key.
    pub open spec fn build_error(self) -> Option<WrapperErrorKind> {
        if self.type_ != Some(TPM2_ALG_RSA) {
            Some(WrapperErrorKind::UnsupportedParam)
        } else if self.parameters is None {
            Some(WrapperErrorKind::ParamsMissing)
        } else if !(self.parameters->0 is RsaDetail) {
            Some(WrapperErrorKind::InconsistentParams)
        } else if self.unique is Some && !(self.unique->0 is Rsa) {
            Some(WrapperErrorKind::InconsistentParams)
        } else {
            None
        }
    }

    /// The unique value of the built area: the one that was set, or the empty
    /// modulus where none was.
    pub open spec fn built_unique(self) -> TPM2B_PUBLIC_KEY_RSA {
        match self.unique {
            Some(PublicIdUnion::Rsa(modulus)) => *modulus,
            _ => TPM2B_PUBLIC_KEY_RSA::empty(),
        }
    }

    /// The public area that a builder without `build_error` builds.
    pub open spec fn built(self) -> TPM2B_PUBLIC {
        TPM2B_PUBLIC {
            size: TPMT_PUBLIC_SIZE,
            publicArea: TPMT_PUBLIC {
                type_: TPM2_ALG_RSA,
                nameAlg: self.name_alg,
                objectAttributes: self.object_attributes.0,
                authPolicy: self.auth_policy,
                parameters: self.parameters->0.device_parms(),
                unique: TPMU_PUBLIC_ID::Rsa(self.built_unique()),
            },
        }
    }

    /// Builds the public area, or says why the parts do not fit together.
    ///
    /// Fails with `UnsupportedParam` unless the kind is RSA, with
    /// `ParamsMissing` if there is no parameter block, and with
    /// `InconsistentParams` if the parameter block or the unique value is that
    /// of another kind of object.
    pub fn build(self) -> (r: Result<TPM2B_PUBLIC, Error>)
        ensures
            match r {
                Ok(public) => self.build_error() is None && public == self.built(),
                Err(e) => self.build_error() == Some(e->WrapperError_0) && e is WrapperError,
            },
    {
        match self.type_ {
            Some(type_) => {
                if type_ != TPM2_ALG_RSA {
                    return Err(Error::local_error(WrapperErrorKind::UnsupportedParam));
                }
            },
            None => {
                return Err(Error::local_error(WrapperErrorKind::UnsupportedParam));
            },
        }
        let parameters = match self.parameters {
            Some(PublicParmsUnion::RsaDetail(parms)) => TPMU_PUBLIC_PARMS::RsaDetail(parms),
            None => {
                return Err(Error::local_error(WrapperErrorKind::ParamsMissing));
            },
            Some(_) => {
                return Err(Error::local_error(WrapperErrorKind::InconsistentParams));
            },
        };
        let unique = match self.unique {
            Some(PublicIdUnion::Rsa(modulus)) => TPMU_PUBLIC_ID::Rsa(*modulus),
            None => TPMU_PUBLIC_ID::Rsa(TPM2B_PUBLIC_KEY_RSA::default()),
            Some(_) => {
                return Err(Error::local_error(WrapperErrorKind::InconsistentParams));
            },
        };
        Ok(
            TPM2B_PUBLIC {
                size: TPMT_PUBLIC_SIZE,
                publicArea: TPMT_PUBLIC {
                    type_: TPM2_ALG_RSA,
                    nameAlg: self.name_alg,
                    objectAttributes: self.object_attributes.0,
                    authPolicy: self.auth_policy,
                    parameters,
                    unique,
                },
            },
        )
    }

    /// What is built can be read back: the area says RSA, carries the name
    /// algorithm, the attributes and the policy digest that were set, holds
    /// the RSA parameters that were set, and `from_public` finds the unique
    /// value that was set, or the empty modulus where none was.
    pub proof fn lemma_build_reads_back(self)
        requires
            self.build_error() is None,
        ensures
            self.built().publicArea.type_ == TPM2_ALG_RSA,
            self.built().publicArea.type_ == self.type_->0,
            self.built().publicArea.type_ == self.parameters->0.object_type(),
            self.built().publicArea.nameAlg == self.name_alg,
            ObjectAttributes(self.built().publicArea.objectAttributes) == self.object_attributes,
            self.built().publicArea.authPolicy == self.auth_policy,
            self.built().publicArea.parameters == TPMU_PUBLIC_PARMS::RsaDetail(
                self.parameters->0->RsaDetail_0,
            ),
            self.unique matches Some(unique) ==> PublicIdUnion::read_from(self.built()) == Ok::<
                PublicIdUnion,
                Error,
            >(unique),
            self.unique is None ==> PublicIdUnion::read_from(self.built()) == Ok::<
                PublicIdUnion,
                Error,
            >(PublicIdUnion::Rsa(Box::new(TPM2B_PUBLIC_KEY_RSA::empty()))),
    {
    }
}

impl Default for Tpm2BPublicBuilder {
    fn default() -> (builder: Self)
        ensures
            builder == (Tpm2BPublicBuilder {
                type_: None,
                name_alg: TPM2_ALG_NULL,
                object_attributes: ObjectAttributes(0),
                auth_policy: TPM2B_DIGEST::empty(),
                parameters: None,
                unique: None,
            }),
    {
        Tpm2BPublicBuilder::new()
    }
}

/// The key widths in bits that RSA keys are made with.
pub const RSA_KEY_SIZES: [u16; 4] = [1024, 2048, 3072, 4096];

/// Collects the parameters of an RSA key together with the use that the key is
/// meant for, and checks the parameters against that use.
#[derive(Clone, Copy, Debug, Default, PartialEq, Eq)]
pub struct TpmsRsaParmsBuilder {
    /// The symmetric cipher that protects the children of the key.
    pub symmetric: Option<TPMT_SYM_DEF_OBJECT>,
    /// The asymmetric scheme of the key.
    pub scheme: Option<AsymSchemeUnion>,
    /// The width of the key in bits.
    pub key_bits: u16,
    /// The public exponent; `0` stands for the default, 2^16 + 1.
    pub exponent: u32,
    /// Whether the key is to sign.
    pub for_signing: bool,
    /// Whether the key is to decrypt.
    pub for_decryption: bool,
    /// Whether the key is restricted.
    pub restricted: bool,
}

/// Whether a scheme with the identifier `scheme` fits a key of the given use.
///
/// A restricted signing key needs a signature scheme. A restricted key that
/// only decrypts needs "none". An unrestricted key that signs and decrypts
/// needs "none"; one that only signs takes a signature scheme or "none"; one
/// that only decrypts takes an encryption scheme or "none". No scheme fits a
/// key that neither signs nor decrypts.
pub open spec fn scheme_fits_use(
    restricted: bool,
    for_signing: bool,
    for_decryption: bool,
    scheme: u16,
) -> bool {
    let signature = scheme == TPM2_ALG_RSAPSS || scheme == TPM2_ALG_RSASSA;
    let encryption = scheme == TPM2_ALG_RSAES || scheme == TPM2_ALG_OAEP;
    let none = scheme == TPM2_ALG_NULL;
    if restricted {
        if for_signing {
            signature
        } else {
            for_decryption && none
        }
    } else {
        if for_signing && for_decryption {
            none
        } else if for_signing {
            signature || none
        } else {
            for_decryption && (encryption || none)
        }
    }
}

/// The symmetric definition of a key that has no symmetric cipher: the
/// algorithm "none" with neither key width nor mode.
pub open spec fn null_sym_def_object() -> TPMT_SYM_DEF_OBJECT {
    TPMT_SYM_DEF_OBJECT {
        algorithm: TPM2_ALG_NULL,
        keyBits: TPMU_SYM_KEY_BITS::Null,
        mode: TPMU_SYM_MODE::Null,
    }
}

impl TpmsRsaParmsBuilder {
    /// The parameters of a restricted decryption key: the cipher is set, the
    /// scheme is "none", and the key does not sign.
    pub fn new_restricted_decryption_key(
        symmetric: TPMT_SYM_DEF_OBJECT,
        key_bits: u16,
        exponent: u32,
    ) -> (builder: Self)
        ensures
            builder == (TpmsRsaParmsBuilder {
                symmetric: Some(symmetric),
                scheme: Some(AsymSchemeUnion::AnySig(TPM2_ALG_NULL)),
                key_bits,
                exponent,
                for_signing: false,
                for_decryption: true,
                restricted: true,
            }),
            builder.build_error() is None,
    {
        TpmsRsaParmsBuilder {
            symmetric: Some(symmetric),
            scheme: Some(AsymSchemeUnion::AnySig(TPM2_ALG_NULL)),
            key_bits,
            exponent,
            for_signing: false,
            for_decryption: true,
            restricted: true,
        }
    }

    /// The parameters of an unrestricted signing key: no cipher, the scheme
    /// that the caller names, and the key does not decrypt.
    pub fn new_unrestricted_signing_key(
        scheme: AsymSchemeUnion,
        key_bits: u16,
        exponent: u32,
    ) -> (builder: Self)
        ensures
            builder == (TpmsRsaParmsBuilder {
                symmetric: None,
                scheme: Some(scheme),
                key_bits,
                exponent,
                for_signing: true,
                for_decryption: false,
                restricted: false,
            }),
    {
        TpmsRsaParmsBuilder {
            symmetric: None,
            scheme: Some(scheme),
            key_bits,
            exponent,
            for_signing: true,
            for_decryption: false,
            restricted: false,
        }
    }

    /// Why the builder cannot build, if it cannot. The checks come in this
    /// order: a restricted decryption key must have a symmetric cipher and no
    /// other key may have one; the scheme must be there; the scheme must fit
    /// the use of the key.
    pub open spec fn build_error(self) -> Option<WrapperErrorKind> {
        if self.restricted && self.for_decryption && self.symmetric is None {
            Some(WrapperErrorKind::ParamsMissing)
        } else if !(self.restricted && self.for_decryption) && self.symmetric is Some {
            Some(WrapperErrorKind::InconsistentParams)
        } else if self.scheme is None {
            Some(WrapperErrorKind::ParamsMissing)
        } else if !scheme_fits_use(
            self.restricted,
            self.for_signing,
            self.for_decryption,
            self.scheme->0.scheme_id(),
        ) {
            Some(WrapperErrorKind::InconsistentParams)
        } else {
            None
        }
    }

    /// The parameters that a builder without `build_error` builds.
    pub open spec fn built(self) -> TPMS_RSA_PARMS {
        TPMS_RSA_PARMS {
            symmetric: match self.symmetric {
                Some(symmetric) => symmetric,
                None => null_sym_def_object(),
            },
            scheme: self.scheme->0.rsa_scheme(),
            keyBits: self.key_bits,
            exponent: self.exponent,
        }
    }

    /// Builds the parameters, or says why they do not fit the use of the key.
    ///
    /// Fails with `ParamsMissing` if a restricted decryption key has no
    /// symmetric cipher or if there is no scheme, and with `InconsistentParams`
    /// if another key has a symmetric cipher or if the scheme does not fit the
    /// use of the key.
    pub fn build(self) -> (r: Result<TPMS_RSA_PARMS, Error>)
        ensures
            match r {
                Ok(parms) => self.build_error() is None && parms == self.built(),
                Err(e) => self.build_error() == Some(e->WrapperError_0) && e is WrapperError,
            },
    {
        let symmetric = match self.symmetric {
            Some(symmetric) => {
                if !(self.restricted && self.for_decryption) {
                    return Err(Error::local_error(WrapperErrorKind::InconsistentParams));
                }
                symmetric
            },
            None => {
                if self.restricted && self.for_decryption {
                    return Err(Error::local_error(WrapperErrorKind::ParamsMissing));
                }
                TPMT_SYM_DEF_OBJECT {
                    algorithm: TPM2_ALG_NULL,
                    keyBits: TPMU_SYM_KEY_BITS::Null,
                    mode: TPMU_SYM_MODE::Null,
                }
            },
        };
        let scheme = match self.scheme {
            Some(scheme) => scheme.get_rsa_scheme(),
            None => {
                return Err(Error::local_error(WrapperErrorKind::ParamsMissing));
            },
        };
        let signature = scheme.scheme == TPM2_ALG_RSAPSS || scheme.scheme == TPM2_ALG_RSASSA;
        let encryption = scheme.scheme == TPM2_ALG_RSAES || scheme.scheme == TPM2_ALG_OAEP;
        let none = scheme.scheme == TPM2_ALG_NULL;
        let fits = if self.restricted {
            if self.for_signing {
                signature
            } else {
                self.for_decryption && none
            }
        } else {
            if self.for_signing && self.for_decryption {
                none
            } else if self.for_signing {
                signature || none
            } else {
                self.for_decryption && (encryption || none)
            }
        };
        if !fits {
            return Err(Error::local_error(WrapperErrorKind::InconsistentParams));
        }
        Ok(
            TPMS_RSA_PARMS {
                symmetric,
                scheme,
                keyBits: self.key_bits,
                exponent: self.exponent,
            },
        )
    }
}

/// The public area that `create_restricted_decryption_rsa_public` and
/// `create_unrestricted_signing_rsa_public` fill in: an RSA key named with
/// SHA-256, without a policy and with an empty modulus.
pub open spec fn rsa_public(attributes: u32, parms: TPMS_RSA_PARMS) -> TPM2B_PUBLIC {
    TPM2B_PUBLIC {
        size: TPMT_PUBLIC_SIZE,
        publicArea: TPMT_PUBLIC {
            type_: TPM2_ALG_RSA,
            nameAlg: TPM2_ALG_SHA256,
            objectAttributes: attributes,
            authPolicy: TPM2B_DIGEST::empty(),
            parameters: TPMU_PUBLIC_PARMS::RsaDetail(parms),
            unique: TPMU_PUBLIC_ID::Rsa(TPM2B_PUBLIC_KEY_RSA::empty()),
        },
    }
}

/// The public area of a restricted decryption key: an RSA storage parent.
///
/// * `symmetric` - the cipher that protects the children of the key
/// * `key_bits` - the width of the key in bits
/// * `pub_exponent` - the public exponent; `0` stands for 2^16 + 1
///
/// Every input gives a public area.
pub fn create_restricted_decryption_rsa_public(
    symmetric: Cipher,
    key_bits: u16,
    pub_exponent: u32,
) -> (r: Result<TPM2B_PUBLIC, Error>)
    ensures
        r == Ok::<TPM2B_PUBLIC, Error>(
            rsa_public(
                FIXED_PARENT_KEY_ATTRIBUTES,
                TPMS_RSA_PARMS {
                    symmetric: symmetric.sym_def_object(),
                    scheme: AsymSchemeUnion::AnySig(TPM2_ALG_NULL).rsa_scheme(),
                    keyBits: key_bits,
                    exponent: pub_exponent,
                },
            ),
        ),
{
    let rsa_parms = match TpmsRsaParmsBuilder::new_restricted_decryption_key(
        symmetric.into(),
        key_bits,
        pub_exponent,
    ).build() {
        Ok(rsa_parms) => rsa_parms,
        Err(e) => {
            return Err(e);
        },
    };
    let mut object_attributes = ObjectAttributes(0);
    object_attributes.set_fixed_tpm(true);
    object_attributes.set_fixed_parent(true);
    object_attributes.set_sensitive_data_origin(true);
    object_attributes.set_user_with_auth(true);
    object_attributes.set_decrypt(true);
    object_attributes.set_sign_encrypt(false);
    object_attributes.set_restricted(true);
    assert(object_attributes.0 == FIXED_PARENT_KEY_ATTRIBUTES) by {
        assert((((((((0u32 | (1u32 << 1)) | (1u32 << 4)) | (1u32 << 5)) | (1u32 << 6)) | (1u32
            << 17)) & !(1u32 << 18)) | (1u32 << 16)) == 0x0003_0072u32) by (bit_vector);
    }
    Tpm2BPublicBuilder::new().with_type(TPM2_ALG_RSA).with_name_alg(
        TPM2_ALG_SHA256,
    ).with_object_attributes(object_attributes).with_parms(
        PublicParmsUnion::RsaDetail(rsa_parms),
    ).build()
}

/// The public area of an unrestricted RSA signing key.
///
/// * `scheme` - the scheme that the key signs with
/// * `key_bits` - the width of the key in bits
/// * `pub_exponent` - the public exponent; `0` stands for 2^16 + 1
///
/// Fails with `InconsistentParams` unless `scheme` is a signature scheme of
/// RSA (`RSASSA`, `RSAPSS`) or `AnySig`.
pub fn create_unrestricted_signing_rsa_public(
    scheme: AsymSchemeUnion,
    key_bits: u16,
    pub_exponent: u32,
) -> (r: Result<TPM2B_PUBLIC, Error>)
    ensures
        scheme is RSASSA || scheme is RSAPSS || scheme is AnySig ==> r == Ok::<
            TPM2B_PUBLIC,
            Error,
        >(
            rsa_public(
                FIXED_SIGNING_KEY_ATTRIBUTES,
                TPMS_RSA_PARMS {
                    symmetric: null_sym_def_object(),
                    scheme: scheme.rsa_scheme(),
                    keyBits: key_bits,
                    exponent: pub_exponent,
                },
            ),
        ),
        !(scheme is RSASSA || scheme is RSAPSS || scheme is AnySig) ==> r == Err::<
            TPM2B_PUBLIC,
            Error,
        >(Error::WrapperError(WrapperErrorKind::InconsistentParams)),
{
    let rsa_parms = match TpmsRsaParmsBuilder::new_unrestricted_signing_key(
        scheme,
        key_bits,
        pub_exponent,
    ).build() {
        Ok(rsa_parms) => rsa_parms,
        Err(e) => {
            return Err(e);
        },
    };
    let mut object_attributes = ObjectAttributes(0);
    object_attributes.set_fixed_tpm(true);
    object_attributes.set_fixed_parent(true);
    object_attributes.set_sensitive_data_origin(true);
    object_attributes.set_user_with_auth(true);
    object_attributes.set_decrypt(false);
    object_attributes.set_sign_encrypt(true);
    object_attributes.set_restricted(false);
    assert(object_attributes.0 == FIXED_SIGNING_KEY_ATTRIBUTES) by {
        assert((((((((0u32 | (1u32 << 1)) | (1u32 << 4)) | (1u32 << 5)) | (1u32 << 6)) & !(1u32
            << 17)) | (1u32 << 18)) & !(1u32 << 16)) == 0x0004_0072u32) by (bit_vector);
    }
    Tpm2BPublicBuilder::new().with_type(TPM2_ALG_RSA).with_name_alg(
        TPM2_ALG_SHA256,
    ).with_object_attributes(object_attributes).with_parms(
        PublicParmsUnion::RsaDetail(rsa_parms),
    ).build()
}

} // verus!
