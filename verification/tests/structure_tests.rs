use std::convert::{TryFrom, TryInto};
use tss_esapi::constants::{
    ESYS_TR_RH_ENDORSEMENT, ESYS_TR_RH_NULL, ESYS_TR_RH_OWNER, ESYS_TR_RH_PLATFORM,
    TPM2_ALG_ECDAA, TPM2_ALG_ECDH, TPM2_ALG_ECDSA, TPM2_ALG_ECMQV, TPM2_ALG_ECSCHNORR,
    TPM2_ALG_NULL, TPM2_ALG_OAEP, TPM2_ALG_RSAES, TPM2_ALG_RSAPSS, TPM2_ALG_RSASSA, TPM2_ALG_SHA256,
    TPM2_ALG_SM2, TPM2_RH_ENDORSEMENT, TPM2_RH_NULL, TPM2_RH_OWNER, TPM2_RH_PLATFORM,
    TPM2_ST_VERIFIED,
};
use tss_esapi::error::{Error, WrapperErrorKind};
use tss_esapi::hierarchy::{Hierarchy, TpmtTkVerified};
use tss_esapi::saved_context::TpmsContext;
use tss_esapi::schemes::AsymSchemeUnion;
use tss_esapi::signature::Signature;
use tss_esapi::tss2_esys::{
    TPM2B_CONTEXT_DATA, TPM2B_DIGEST, TPM2B_PUBLIC_KEY_RSA, TPMS_CONTEXT, TPMS_SCHEME_HASH,
    TPMS_SIGNATURE_RSA, TPMT_SIGNATURE, TPMT_TK_VERIFIED, TPMU_SIGNATURE,
};

fn local(kind: WrapperErrorKind) -> Error {
    Error::WrapperError(kind)
}

fn rsa_signature(sig_alg: u16, hash: u16, bytes: &[u8], size: u16) -> TPMT_SIGNATURE {
    let mut buffer = [0u8; 512];
    buffer[..bytes.len()].copy_from_slice(bytes);
    TPMT_SIGNATURE {
        sigAlg: sig_alg,
        signature: TPMU_SIGNATURE::Rsassa(TPMS_SIGNATURE_RSA {
            hash,
            sig: TPM2B_PUBLIC_KEY_RSA { size, buffer },
        }),
    }
}

#[test]
fn error_kinds() {
    assert_eq!(Error::local_error(WrapperErrorKind::InvalidParam), local(WrapperErrorKind::InvalidParam));
    assert_eq!(Error::local_error(WrapperErrorKind::WrongParamSize).kind(), Some(WrapperErrorKind::WrongParamSize));
    // what the device reports is kept apart from what this layer refuses
    assert_eq!(Error::from_tss_rc(0x101), Error::Tss2Error(0x101));
    assert_eq!(Error::from_tss_rc(0x101).kind(), None);
    assert!(Error::from_tss_rc(0).is_success());
    assert!(!Error::from_tss_rc(1).is_success());
    assert!(!local(WrapperErrorKind::ParamsMissing).is_success());
}

#[test]
fn signature_is_read_from_the_device_structure() {
    let tss = rsa_signature(TPM2_ALG_RSASSA, TPM2_ALG_SHA256, &[1, 2, 3, 4, 5], 3);
    assert_eq!(
        Signature::try_from(tss),
        Ok(Signature { scheme: AsymSchemeUnion::RSASSA(TPM2_ALG_SHA256), signature: vec![1, 2, 3] })
    );
    let full = rsa_signature(TPM2_ALG_RSASSA, TPM2_ALG_SHA256, &[7; 512], 512);
    assert_eq!(Signature::try_from(full).unwrap().signature, vec![7; 512]);
    let empty = rsa_signature(TPM2_ALG_RSASSA, TPM2_ALG_SHA256, &[], 0);
    assert_eq!(Signature::try_from(empty).unwrap().signature, Vec::<u8>::new());
}

#[test]
fn signature_reading_errors() {
    // the size exceeds the buffer
    let oversized = rsa_signature(TPM2_ALG_RSASSA, TPM2_ALG_SHA256, &[1], 513);
    assert_eq!(Signature::try_from(oversized), Err(local(WrapperErrorKind::InconsistentParams)));
    // the payload is not that of the scheme
    let mismatched = TPMT_SIGNATURE {
        sigAlg: TPM2_ALG_RSASSA,
        signature: TPMU_SIGNATURE::Any(TPMS_SCHEME_HASH { hashAlg: TPM2_ALG_SHA256 }),
    };
    assert_eq!(Signature::try_from(mismatched), Err(local(WrapperErrorKind::InconsistentParams)));
    for unsupported in [
        TPM2_ALG_ECDH,
        TPM2_ALG_ECDSA,
        TPM2_ALG_OAEP,
        TPM2_ALG_RSAPSS,
        TPM2_ALG_RSAES,
        TPM2_ALG_ECMQV,
        TPM2_ALG_SM2,
        TPM2_ALG_ECSCHNORR,
        TPM2_ALG_ECDAA,
    ] {
        let tss = rsa_signature(unsupported, TPM2_ALG_SHA256, &[1], 1);
        assert_eq!(Signature::try_from(tss), Err(local(WrapperErrorKind::UnsupportedParam)));
    }
    for no_scheme in [TPM2_ALG_NULL, TPM2_ALG_SHA256, 0xFFFF] {
        let tss = rsa_signature(no_scheme, TPM2_ALG_SHA256, &[1], 1);
        assert_eq!(Signature::try_from(tss), Err(local(WrapperErrorKind::InconsistentParams)));
    }
}

#[test]
fn signature_is_written_to_the_device_structure() {
    let sig = Signature { scheme: AsymSchemeUnion::RSASSA(TPM2_ALG_SHA256), signature: vec![9, 8, 7] };
    let tss = TPMT_SIGNATURE::try_from(sig.clone()).unwrap();
    assert_eq!(tss, rsa_signature(TPM2_ALG_RSASSA, TPM2_ALG_SHA256, &[9, 8, 7], 3));
    assert_eq!(Signature::try_from(tss), Ok(sig));
    let longest = Signature { scheme: AsymSchemeUnion::RSASSA(TPM2_ALG_SHA256), signature: vec![1; 512] };
    let tss: TPMT_SIGNATURE = longest.try_into().unwrap();
    assert_eq!(tss, rsa_signature(TPM2_ALG_RSASSA, TPM2_ALG_SHA256, &[1; 512], 512));
}

#[test]
fn signature_writing_errors() {
    let too_long = Signature { scheme: AsymSchemeUnion::RSASSA(TPM2_ALG_SHA256), signature: vec![0; 513] };
    assert_eq!(TPMT_SIGNATURE::try_from(too_long), Err(local(WrapperErrorKind::WrongParamSize)));
    // the size is looked at before the scheme
    let both = Signature { scheme: AsymSchemeUnion::ECDSA(TPM2_ALG_SHA256), signature: vec![0; 513] };
    assert_eq!(TPMT_SIGNATURE::try_from(both), Err(local(WrapperErrorKind::WrongParamSize)));
    for scheme in [
        AsymSchemeUnion::ECDH(TPM2_ALG_SHA256),
        AsymSchemeUnion::ECMQV(TPM2_ALG_SHA256),
        AsymSchemeUnion::RSAPSS(TPM2_ALG_SHA256),
        AsymSchemeUnion::ECDSA(TPM2_ALG_SHA256),
        AsymSchemeUnion::ECDAA(TPM2_ALG_SHA256, 1),
        AsymSchemeUnion::SM2(TPM2_ALG_SHA256),
        AsymSchemeUnion::ECSchnorr(TPM2_ALG_SHA256),
        AsymSchemeUnion::RSAES,
        AsymSchemeUnion::RSAOAEP(TPM2_ALG_SHA256),
        AsymSchemeUnion::AnySig(TPM2_ALG_SHA256),
    ] {
        let sig = Signature { scheme, signature: vec![1, 2] };
        assert_eq!(TPMT_SIGNATURE::try_from(sig), Err(local(WrapperErrorKind::UnsupportedParam)));
    }
}

#[test]
fn hierarchy_handles() {
    let cases = [
        (Hierarchy::Null, ESYS_TR_RH_NULL, TPM2_RH_NULL, 0x107, 0x4000_0007),
        (Hierarchy::Owner, ESYS_TR_RH_OWNER, TPM2_RH_OWNER, 0x101, 0x4000_0001),
        (Hierarchy::Platform, ESYS_TR_RH_PLATFORM, TPM2_RH_PLATFORM, 0x10C, 0x4000_000C),
        (Hierarchy::Endorsement, ESYS_TR_RH_ENDORSEMENT, TPM2_RH_ENDORSEMENT, 0x10B, 0x4000_000B),
    ];
    for (hierarchy, esys, rh, esys_value, rh_value) in cases {
        assert_eq!(hierarchy.esys_rh(), esys);
        assert_eq!(hierarchy.rh(), rh);
        assert_eq!(esys, esys_value);
        assert_eq!(rh, rh_value);
        assert_eq!(Hierarchy::try_from(esys), Ok(hierarchy));
        assert_eq!(Hierarchy::try_from(rh), Ok(hierarchy));
    }
    assert_eq!(Hierarchy::try_from(0u32), Err(local(WrapperErrorKind::InconsistentParams)));
    assert_eq!(Hierarchy::try_from(0x4000_000Au32), Err(local(WrapperErrorKind::InconsistentParams)));
}

#[test]
fn verification_ticket_round_trip() {
    let mut buffer = [0u8; 64];
    buffer[..4].copy_from_slice(&[1, 2, 3, 4]);
    let tss = TPMT_TK_VERIFIED {
        tag: TPM2_ST_VERIFIED,
        hierarchy: ESYS_TR_RH_OWNER,
        digest: TPM2B_DIGEST { size: 2, buffer },
    };
    let ticket = TpmtTkVerified::try_from(tss).unwrap();
    assert!(matches!(ticket.hierarchy(), Hierarchy::Owner));
    assert_eq!(ticket.digest(), &[1, 2]);
    // written back under the permanent handle, the octets that count only
    let back = TPMT_TK_VERIFIED::try_from(ticket).unwrap();
    let mut expected = [0u8; 64];
    expected[..2].copy_from_slice(&[1, 2]);
    assert_eq!(
        back,
        TPMT_TK_VERIFIED {
            tag: 0x8022,
            hierarchy: TPM2_RH_OWNER,
            digest: TPM2B_DIGEST { size: 2, buffer: expected },
        }
    );
    let full = TPMT_TK_VERIFIED {
        tag: TPM2_ST_VERIFIED,
        hierarchy: TPM2_RH_NULL,
        digest: TPM2B_DIGEST { size: 64, buffer: [3; 64] },
    };
    let ticket = TpmtTkVerified::try_from(full).unwrap();
    assert_eq!(ticket.digest().len(), 64);
    assert_eq!(TPMT_TK_VERIFIED::try_from(ticket), Ok(full));
}

#[test]
fn verification_ticket_errors() {
    let good = TPMT_TK_VERIFIED {
        tag: TPM2_ST_VERIFIED,
        hierarchy: TPM2_RH_PLATFORM,
        digest: TPM2B_DIGEST::default(),
    };
    assert!(TpmtTkVerified::try_from(good).is_ok());
    let mut wrong_tag = good;
    wrong_tag.tag = 0x8021;
    assert_eq!(
        TpmtTkVerified::try_from(wrong_tag).err(),
        Some(local(WrapperErrorKind::InconsistentParams))
    );
    let mut no_hierarchy = good;
    no_hierarchy.hierarchy = 5;
    assert_eq!(
        TpmtTkVerified::try_from(no_hierarchy).err(),
        Some(local(WrapperErrorKind::InconsistentParams))
    );
    let mut oversized = good;
    oversized.digest.size = 65;
    assert_eq!(TpmtTkVerified::try_from(oversized).err(), Some(local(WrapperErrorKind::WrongParamSize)));
}

#[test]
fn saved_context_round_trip() {
    let context = TpmsContext {
        sequence: 0x0102_0304_0506_0708,
        saved_handle: 0x8000_0001,
        hierarchy: TPM2_RH_OWNER,
        context_blob: vec![0xAA, 0xBB, 0xCC],
    };
    let tss = TPMS_CONTEXT::try_from(context.clone()).unwrap();
    assert_eq!(tss.sequence, 0x0102_0304_0506_0708);
    assert_eq!(tss.savedHandle, 0x8000_0001);
    assert_eq!(tss.hierarchy, TPM2_RH_OWNER);
    assert_eq!(tss.contextBlob.size, 3);
    assert_eq!(&tss.contextBlob.buffer[..4], &[0xAA, 0xBB, 0xCC, 0]);
    assert!(tss.contextBlob.buffer[3..].iter().all(|octet| *octet == 0));
    assert_eq!(TpmsContext::try_from(tss), Ok(context));
}

#[test]
fn saved_context_sizes() {
    let largest = TpmsContext { sequence: 1, saved_handle: 2, hierarchy: 3, context_blob: vec![5; 5188] };
    let tss = TPMS_CONTEXT::try_from(largest.clone()).unwrap();
    assert_eq!(tss.contextBlob.size, 5188);
    assert_eq!(TpmsContext::try_from(tss), Ok(largest));
    // an oversized blob is refused, not cut short
    let oversized = TpmsContext { sequence: 1, saved_handle: 2, hierarchy: 3, context_blob: vec![5; 5189] };
    assert_eq!(TPMS_CONTEXT::try_from(oversized), Err(local(WrapperErrorKind::WrongParamSize)));
    let claims_too_much = TPMS_CONTEXT {
        sequence: 1,
        savedHandle: 2,
        hierarchy: 3,
        contextBlob: TPM2B_CONTEXT_DATA { size: 5189, buffer: [0; 5188] },
    };
    assert_eq!(TpmsContext::try_from(claims_too_much), Err(local(WrapperErrorKind::WrongParamSize)));
    let empty = TPMS_CONTEXT {
        sequence: 1,
        savedHandle: 2,
        hierarchy: 3,
        contextBlob: TPM2B_CONTEXT_DATA { size: 0, buffer: [9; 5188] },
    };
    assert_eq!(TpmsContext::try_from(empty).unwrap().context_blob, Vec::<u8>::new());
}
