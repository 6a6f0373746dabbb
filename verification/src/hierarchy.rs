//! The hierarchies of the device and the tickets that name one.
use vstd::prelude::*;
use vstd::std_specs::convert::TryFromSpecImpl;
use crate::buffers::{buffer_from, lemma_zero_padded_prefix, prefix_of, zero_padded};
use crate::constants::{
    ESYS_TR_RH_ENDORSEMENT, ESYS_TR_RH_NULL, ESYS_TR_RH_OWNER, ESYS_TR_RH_PLATFORM,
    TPM2_RH_ENDORSEMENT, TPM2_RH_NULL, TPM2_RH_OWNER, TPM2_RH_PLATFORM, TPM2_ST_VERIFIED,
};
use crate::error::{Error, WrapperErrorKind};
use crate::tss2_esys::{TPM2B_DIGEST, TPMT_TK_VERIFIED};

verus! {

/// The object hierarchies of a TPM 2.0.
#[derive(Clone, Copy, Debug, PartialEq, Eq, Hash, Structural)]
pub enum Hierarchy {
    Null,
    Owner,
    Platform,
    Endorsement,
}

impl Hierarchy {
    /// The resource handle of the hierarchy in the command interface.
    pub open spec fn spec_esys_rh(self) -> u32 {
        match self {
            Hierarchy::Null => ESYS_TR_RH_NULL,
            Hierarchy::Owner => ESYS_TR_RH_OWNER,
            Hierarchy::Platform => ESYS_TR_RH_PLATFORM,
            Hierarchy::Endorsement => ESYS_TR_RH_ENDORSEMENT,
        }
    }

    /// The permanent handle of the hierarchy on the device.
    pub open spec fn spec_rh(self) -> u32 {
        match self {
            Hierarchy::Null => TPM2_RH_NULL,
            Hierarchy::Owner => TPM2_RH_OWNER,
            Hierarchy::Platform => TPM2_RH_PLATFORM,
            Hierarchy::Endorsement => TPM2_RH_ENDORSEMENT,
        }
    }

    /// The hierarchy that `handle` names, in either of the two numberings.
    pub open spec fn from_handle(handle: u32) -> Option<Hierarchy> {
        if handle == TPM2_RH_NULL || handle == ESYS_TR_RH_NULL {
            Some(Hierarchy::Null)
        } else if handle == TPM2_RH_OWNER || handle == ESYS_TR_RH_OWNER {
            Some(Hierarchy::Owner)
        } else if handle == TPM2_RH_PLATFORM || handle == ESYS_TR_RH_PLATFORM {
            Some(Hierarchy::Platform)
        } else if handle == TPM2_RH_ENDORSEMENT || handle == ESYS_TR_RH_ENDORSEMENT {
            Some(Hierarchy::Endorsement)
        } else {
            None
        }
    }

    /// The resource handle of the hierarchy in the command interface.
    #[verifier::when_used_as_spec(spec_esys_rh)]
    pub fn esys_rh(self) -> (handle: u32)
        ensures
            handle == self.spec_esys_rh(),
    {
        match self {
            Hierarchy::Null => ESYS_TR_RH_NULL,
            Hierarchy::Owner => ESYS_TR_RH_OWNER,
            Hierarchy::Platform => ESYS_TR_RH_PLATFORM,
            Hierarchy::Endorsement => ESYS_TR_RH_ENDORSEMENT,
        }
    }

    /// The permanent handle of the hierarchy on the device.
    #[verifier::when_used_as_spec(spec_rh)]
    pub fn rh(self) -> (handle: u32)
        ensures
            handle == self.spec_rh(),
    {
        match self {
            Hierarchy::Null => TPM2_RH_NULL,
            Hierarchy::Owner => TPM2_RH_OWNER,
            Hierarchy::Platform => TPM2_RH_PLATFORM,
            Hierarchy::Endorsement => TPM2_RH_ENDORSEMENT,
        }
    }

    /// Both handles of a hierarchy name that hierarchy.
    pub proof fn lemma_handles_name_their_hierarchy(self)
        ensures
            Self::from_handle(self.rh()) == Some(self),
            Self::from_handle(self.esys_rh()) == Some(self),
    {
    }
}

impl TryFrom<u32> for Hierarchy {
    type Error = Error;

    fn try_from(handle: u32) -> (r: Result<Hierarchy, Error>) {
        if handle == TPM2_RH_NULL || handle == ESYS_TR_RH_NULL {
            Ok(Hierarchy::Null)
        } else if handle == TPM2_RH_OWNER || handle == ESYS_TR_RH_OWNER {
            Ok(Hierarchy::Owner)
        } else if handle == TPM2_RH_PLATFORM || handle == ESYS_TR_RH_PLATFORM {
            Ok(Hierarchy::Platform)
        } else if handle == TPM2_RH_ENDORSEMENT || handle == ESYS_TR_RH_ENDORSEMENT {
            Ok(Hierarchy::Endorsement)
        } else {
            Err(Error::local_error(WrapperErrorKind::InconsistentParams))
        }
    }
}

/// A handle that names a hierarchy converts to it; any other handle is
/// refused with `InconsistentParams`.
impl TryFromSpecImpl<u32> for Hierarchy {
    open spec fn obeys_try_from_spec() -> bool {
        true
    }

    open spec fn try_from_spec(handle: u32) -> Result<Hierarchy, Error> {
        match Self::from_handle(handle) {
            Some(hierarchy) => Ok(hierarchy),
            None => Err(Error::WrapperError(WrapperErrorKind::InconsistentParams)),
        }
    }
}

/// The largest digest, in octets, that a ticket has room for.
pub const MAX_TICKET_DIGEST_SIZE: usize = 64;

/// The ticket that the device hands out when it has verified a signature: the
/// hierarchy of the key and a digest.
#[derive(Clone, Debug, PartialEq, Eq)]
pub struct TpmtTkVerified {
    hierarchy: Hierarchy,
    digest: Vec<u8>,
}

/// What a verification ticket holds.
pub ghost struct TicketView {
    pub hierarchy: Hierarchy,
    pub digest: Seq<u8>,
}

impl View for TpmtTkVerified {
    type V = TicketView;

    closed spec fn view(&self) -> TicketView {
        TicketView { hierarchy: self.hierarchy, digest: self.digest@ }
    }
}

impl TpmtTkVerified {
    /// The hierarchy of the key that verified the signature.
    pub fn hierarchy(&self) -> (hierarchy: Hierarchy)
        ensures
            hierarchy == self@.hierarchy,
    {
        self.hierarchy
    }

    /// The digest of the ticket.
    pub fn digest(&self) -> (digest: &[u8])
        ensures
            digest@ == self@.digest,
    {
        self.digest.as_slice()
    }

    /// Why a ticket of the device cannot be read, if it cannot: its tag is not
    /// that of a verification ticket, its digest claims more octets than the
    /// buffer has, or its handle names no hierarchy.
    pub open spec fn read_error(tss_verif: TPMT_TK_VERIFIED) -> Option<WrapperErrorKind> {
        if tss_verif.tag != TPM2_ST_VERIFIED {
            Some(WrapperErrorKind::InconsistentParams)
        } else if tss_verif.digest.size > MAX_TICKET_DIGEST_SIZE {
            Some(WrapperErrorKind::WrongParamSize)
        } else if Hierarchy::from_handle(tss_verif.hierarchy) is None {
            Some(WrapperErrorKind::InconsistentParams)
        } else {
            None
        }
    }
}

impl TicketView {
    /// Whether `tss_verif` is this ticket as the device takes it: under the
    /// permanent handle of its hierarchy, the digest at the start of the
    /// buffer, zeros behind it.
    pub open spec fn written_as(self, tss_verif: TPMT_TK_VERIFIED) -> bool {
        &&& tss_verif.tag == TPM2_ST_VERIFIED
        &&& tss_verif.hierarchy == self.hierarchy.rh()
        &&& tss_verif.digest.size == self.digest.len()
        &&& tss_verif.digest.buffer@ == zero_padded(self.digest, 64)
    }

    /// What is written can be read back: a ticket as the device takes it
    /// reads as the hierarchy and the digest that were written.
    pub proof fn lemma_written_reads_back(self, tss_verif: TPMT_TK_VERIFIED)
        requires
            self.digest.len() <= MAX_TICKET_DIGEST_SIZE,
            self.written_as(tss_verif),
        ensures
            TpmtTkVerified::read_error(tss_verif) is None,
            Hierarchy::from_handle(tss_verif.hierarchy) == Some(self.hierarchy),
            tss_verif.digest.buffer@.take(tss_verif.digest.size as int) == self.digest,
    {
        lemma_zero_padded_prefix(self.digest, 64);
    }
}

impl TryFrom<TPMT_TK_VERIFIED> for TpmtTkVerified {
    type Error = Error;

    /// Reads a ticket of the device: its hierarchy, and the octets of the
    /// digest that count.
    fn try_from(tss_verif: TPMT_TK_VERIFIED) -> (r: Result<TpmtTkVerified, Error>)
        ensures
            match r {
                Ok(verif) => {
                    &&& TpmtTkVerified::read_error(tss_verif) is None
                    &&& Some(verif@.hierarchy) == Hierarchy::from_handle(tss_verif.hierarchy)
                    &&& verif@.digest == tss_verif.digest.buffer@.take(tss_verif.digest.size as int)
                },
                Err(e) => TpmtTkVerified::read_error(tss_verif) == Some(e->WrapperError_0)
                    && e is WrapperError,
            },
    {
        if tss_verif.tag != TPM2_ST_VERIFIED {
            return Err(Error::local_error(WrapperErrorKind::InconsistentParams));
        }
        let len = tss_verif.digest.size as usize;
        if len > MAX_TICKET_DIGEST_SIZE {
            return Err(Error::local_error(WrapperErrorKind::WrongParamSize));
        }
        let digest = prefix_of(&tss_verif.digest.buffer, len);
        match Hierarchy::try_from(tss_verif.hierarchy) {
            Ok(hierarchy) => Ok(TpmtTkVerified { hierarchy, digest }),
            Err(e) => Err(e),
        }
    }
}

/// The conversion is stated by the `ensures` of `try_from`, over the view of
/// the ticket.
impl TryFromSpecImpl<TPMT_TK_VERIFIED> for TpmtTkVerified {
    open spec fn obeys_try_from_spec() -> bool {
        false
    }

    open spec fn try_from_spec(tss_verif: TPMT_TK_VERIFIED) -> Result<TpmtTkVerified, Error> {
        arbitrary()
    }
}

impl TryFrom<TpmtTkVerified> for TPMT_TK_VERIFIED {
    type Error = Error;

    /// Writes the ticket into the structure of the device, under the permanent
    /// handle of its hierarchy. Fails with `WrongParamSize` if the digest is
    /// longer than 64 octets.
    fn try_from(verif: TpmtTkVerified) -> (r: Result<TPMT_TK_VERIFIED, Error>)
        ensures
            verif@.digest.len() <= MAX_TICKET_DIGEST_SIZE ==> r is Ok && verif@.written_as(
                r->Ok_0,
            ),
            verif@.digest.len() > MAX_TICKET_DIGEST_SIZE ==> r == Err::<TPMT_TK_VERIFIED, Error>(
                Error::WrapperError(WrapperErrorKind::WrongParamSize),
            ),
    {
        let len = verif.digest.len();
        if len > MAX_TICKET_DIGEST_SIZE {
            return Err(Error::local_error(WrapperErrorKind::WrongParamSize));
        }
        let buffer: [u8; 64] = buffer_from(&verif.digest);
        Ok(
            TPMT_TK_VERIFIED {
                tag: TPM2_ST_VERIFIED,
                hierarchy: verif.hierarchy.rh(),
                digest: TPM2B_DIGEST { size: len as u16, buffer },
            },
        )
    }
}

/// The conversion is stated by the `ensures` of `try_from`, over the view of
/// the ticket.
impl TryFromSpecImpl<TpmtTkVerified> for TPMT_TK_VERIFIED {
    open spec fn obeys_try_from_spec() -> bool {
        false
    }

    open spec fn try_from_spec(verif: TpmtTkVerified) -> Result<TPMT_TK_VERIFIED, Error> {
        arbitrary()
    }
}

} // verus!
