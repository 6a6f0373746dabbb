//! The saved context of an object, in a form that can be kept across processes.
use vstd::prelude::*;
use vstd::std_specs::convert::TryFromSpecImpl;
use crate::buffers::{buffer_from, lemma_zero_padded_prefix, prefix_of, zero_padded};
use crate::error::{Error, WrapperErrorKind};
use crate::tss2_esys::{TPM2B_CONTEXT_DATA, TPMS_CONTEXT};

verus! {

/// The largest context blob, in octets, that the device structure has room for.
pub const MAX_CONTEXT_BLOB_SIZE: usize = 5188;

/// The saved context of an object: the sequence number of the save, the
/// handle that was saved, its hierarchy, and the protected blob.
///
/// A context is saved to be loaded again later, perhaps by another process, so
/// the blob is a vector that is as long as its content.
#[derive(Clone, Debug, PartialEq, Eq)]
pub struct TpmsContext {
    pub sequence: u64,
    pub saved_handle: u32,
    pub hierarchy: u32,
    pub context_blob: Vec<u8>,
}

impl TpmsContext {
    /// Whether `tss2_context` is this saved context as the device takes it:
    /// the blob at the start of the buffer, zeros behind it.
    pub open spec fn written_as(self, tss2_context: TPMS_CONTEXT) -> bool {
        &&& tss2_context.sequence == self.sequence
        &&& tss2_context.savedHandle == self.saved_handle
        &&& tss2_context.hierarchy == self.hierarchy
        &&& tss2_context.contextBlob.size == self.context_blob@.len()
        &&& tss2_context.contextBlob.buffer@ == zero_padded(self.context_blob@, 5188)
    }

    /// What is written can be read back: the octets of the blob that count
    /// in a saved context as the device takes it are the blob that was
    /// written.
    pub proof fn lemma_written_reads_back(self, tss2_context: TPMS_CONTEXT)
        requires
            self.context_blob@.len() <= MAX_CONTEXT_BLOB_SIZE,
            self.written_as(tss2_context),
        ensures
            tss2_context.contextBlob.size <= MAX_CONTEXT_BLOB_SIZE,
            tss2_context.contextBlob.buffer@.take(tss2_context.contextBlob.size as int)
                == self.context_blob@,
    {
        lemma_zero_padded_prefix(self.context_blob@, 5188);
    }
}

impl TryFrom<TPMS_CONTEXT> for TpmsContext {
    type Error = Error;

    /// Reads a saved context of the device: the octets of the blob that count.
    /// Fails with `WrongParamSize` if the blob claims more octets than its
    /// buffer has.
    fn try_from(tss2_context: TPMS_CONTEXT) -> (r: Result<TpmsContext, Error>)
        ensures
            tss2_context.contextBlob.size <= MAX_CONTEXT_BLOB_SIZE ==> {
                &&& r is Ok
                &&& r->Ok_0.sequence == tss2_context.sequence
                &&& r->Ok_0.saved_handle == tss2_context.savedHandle
                &&& r->Ok_0.hierarchy == tss2_context.hierarchy
                &&& r->Ok_0.context_blob@ == tss2_context.contextBlob.buffer@.take(
                    tss2_context.contextBlob.size as int,
                )
            },
            tss2_context.contextBlob.size > MAX_CONTEXT_BLOB_SIZE ==> r == Err::<
                TpmsContext,
                Error,
            >(Error::WrapperError(WrapperErrorKind::WrongParamSize)),
    {
        let size = tss2_context.contextBlob.size as usize;
        if size > MAX_CONTEXT_BLOB_SIZE {
            return Err(Error::local_error(WrapperErrorKind::WrongParamSize));
        }
        Ok(
            TpmsContext {
                sequence: tss2_context.sequence,
                saved_handle: tss2_context.savedHandle,
                hierarchy: tss2_context.hierarchy,
                context_blob: prefix_of(&tss2_context.contextBlob.buffer, size),
            },
        )
    }
}

/// The conversion is stated by the `ensures` of `try_from`, over the octets of
/// the blob.
impl TryFromSpecImpl<TPMS_CONTEXT> for TpmsContext {
    open spec fn obeys_try_from_spec() -> bool {
        false
    }

    open spec fn try_from_spec(tss2_context: TPMS_CONTEXT) -> Result<TpmsContext, Error> {
        arbitrary()
    }
}

impl TryFrom<TpmsContext> for TPMS_CONTEXT {
    type Error = Error;

    /// Writes the saved context into the structure of the device: the blob at
    /// the start of the buffer, zeros behind it. Fails with `WrongParamSize` if
    /// the blob is longer than 5188 octets; it is never cut short.
    fn try_from(context: TpmsContext) -> (r: Result<TPMS_CONTEXT, Error>)
        ensures
            context.context_blob@.len() <= MAX_CONTEXT_BLOB_SIZE ==> r is Ok
                && context.written_as(r->Ok_0),
            context.context_blob@.len() > MAX_CONTEXT_BLOB_SIZE ==> r == Err::<TPMS_CONTEXT, Error>(
                Error::WrapperError(WrapperErrorKind::WrongParamSize),
            ),
    {
        let buffer_size = context.context_blob.len();
        if buffer_size > MAX_CONTEXT_BLOB_SIZE {
            return Err(Error::local_error(WrapperErrorKind::WrongParamSize));
        }
        let buffer: [u8; 5188] = buffer_from(&context.context_blob);
        Ok(
            TPMS_CONTEXT {
                sequence: context.sequence,
                savedHandle: context.saved_handle,
                hierarchy: context.hierarchy,
                contextBlob: TPM2B_CONTEXT_DATA { size: buffer_size as u16, buffer },
            },
        )
    }
}

/// The conversion is stated by the `ensures` of `try_from`, over the octets of
/// the blob.
impl TryFromSpecImpl<TpmsContext> for TPMS_CONTEXT {
    open spec fn obeys_try_from_spec() -> bool {
        false
    }

    open spec fn try_from_spec(context: TpmsContext) -> Result<TPMS_CONTEXT, Error> {
        arbitrary()
    }
}

} // verus!
