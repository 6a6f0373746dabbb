//! Work under a fresh session without authorization value, which does not
//! outlive the work.
//!
//! A context cannot issue commands itself. So the run is a dialogue:
//! `nullauth_step` names what is to be done next, the caller does it and
//! hands what came of it to the next `nullauth_step`, until the step says
//! what the run returns. Once the device has started the session, every run
//! asks the device to discard it before it ends.
use vstd::prelude::*;
use crate::algorithm::{Cipher, CipherMode, HashingAlgorithm};
use crate::attributes::TpmaSession;
use crate::constants::{TPMA_SESSION_DECRYPT, TPMA_SESSION_ENCRYPT};
use crate::context::{after_release, release_refusal, Context, ContextView};
use crate::error::{Error, WrapperErrorKind};
use crate::handle_manager::{
    disposition_of, distinct_handles, handles_with, lemma_handles_with, lemma_registered,
    lemma_without, register_error, registered, without, HandleDisposition, TrackedHandle,
};
use crate::handles::{ObjectHandle, Session, SessionType};

verus! {

/// What the device is asked for when a session is to be started without key,
/// without bound entity and without caller nonce.
#[derive(Clone, Copy, Debug, PartialEq, Eq, Hash, Structural)]
pub struct SessionRequest {
    pub session_type: SessionType,
    pub symmetric: Cipher,
    pub auth_hash: HashingAlgorithm,
}

/// The attributes of a session for such work: it decrypts the first
/// parameter of a command and encrypts the first parameter of the response.
pub const NULLAUTH_SESSION_ATTRIBUTES: u8 = TPMA_SESSION_DECRYPT | TPMA_SESSION_ENCRYPT;

/// How far a run has come.
#[derive(Clone, Copy, Debug, PartialEq, Eq, Hash, Structural)]
pub enum NullauthState {
    /// Nothing has been done yet.
    Idle,
    /// The device has been asked to start a session.
    AwaitingSession,
    /// The session is there and its attributes are being set.
    AwaitingAttributes(Session),
    /// The work is running under the session.
    Working(Session),
    /// The work is over and the device has been told to discard the session.
    AwaitingFlush(Session),
    /// The run has failed with the error before the work could begin, and
    /// the device has been told to discard the session.
    Abandoning(Session, Error),
    /// The run is over.
    Finished,
}

/// What has happened since the last step.
#[derive(Clone, Copy, Debug)]
pub enum NullauthEvent {
    /// The run is to begin.
    Begin,
    /// The device has answered the request for a session.
    SessionStarted(Result<Option<Session>, Error>),
    /// The device has answered the command that sets the attributes.
    AttributesSet(Result<(), Error>),
    /// The work has returned, with whatever result.
    WorkDone,
    /// The device has answered the command to discard the session.
    Flushed(Result<(), Error>),
}

/// What the caller of `nullauth_step` is to do next.
#[derive(Clone, Copy, Debug, PartialEq, Eq, Hash, Structural)]
pub enum NullauthAction {
    /// Ask the device to start a session, then report `SessionStarted`.
    StartSession(SessionRequest),
    /// Set the attributes of the session under the mask, then report
    /// `AttributesSet`.
    SetAttributes(Session, TpmaSession),
    /// Run the work with the session alone in the session slots, keep its
    /// result, then report `WorkDone`.
    RunWork(Session),
    /// Tell the device to discard the handle, then report `Flushed`.
    Flush(ObjectHandle),
    /// Return the result of the work.
    ReturnWork,
    /// Return the error; the result of the work, if there is one, is dropped.
    Fail(Error),
}

/// The request for the session of such work: an HMAC session with AES in
/// CFB mode with 128-bit keys and SHA-256.
pub open spec fn nullauth_request() -> SessionRequest {
    SessionRequest {
        session_type: SessionType::Hmac,
        symmetric: Cipher::Aes(CipherMode::Cfb, 128),
        auth_hash: HashingAlgorithm::Sha256,
    }
}

/// The attributes of the session of such work, under a mask that covers them.
pub open spec fn nullauth_attributes() -> TpmaSession {
    TpmaSession { flags: NULLAUTH_SESSION_ATTRIBUTES, mask: NULLAUTH_SESSION_ATTRIBUTES }
}

/// What `nullauth_step` does in the state `state` when `event` has happened,
/// with `handles` registered: the next state, what the caller is to do, and
/// the handles that are registered afterwards.
///
/// A session that the device has started is registered as a handle to flush
/// before anything else is done with it. It is unregistered when the device
/// has discarded it, which the run asks for as soon as the work has
/// returned, whatever the work has come to. Where the session cannot be
/// registered or its attributes cannot be set, the run asks the device to
/// discard the session at once, and ends with the error of what went wrong
/// when the device has answered. An event that the state does not wait for
/// ends the run with `InconsistentParams`.
pub open spec fn nullauth_transition(
    handles: Seq<TrackedHandle>,
    state: NullauthState,
    event: NullauthEvent,
) -> (NullauthState, NullauthAction, Seq<TrackedHandle>) {
    match (state, event) {
        (NullauthState::Idle, NullauthEvent::Begin) => (
            NullauthState::AwaitingSession,
            NullauthAction::StartSession(nullauth_request()),
            handles,
        ),
        (NullauthState::AwaitingSession, NullauthEvent::SessionStarted(Err(e))) => (
            NullauthState::Finished,
            NullauthAction::Fail(e),
            handles,
        ),
        (NullauthState::AwaitingSession, NullauthEvent::SessionStarted(Ok(None))) => (
            NullauthState::Finished,
            NullauthAction::Fail(Error::WrapperError(WrapperErrorKind::WrongValueFromTpm)),
            handles,
        ),
        (NullauthState::AwaitingSession, NullauthEvent::SessionStarted(Ok(Some(session)))) => {
            match register_error(handles, session.handle(), HandleDisposition::MustFlush) {
                Some(kind) => (
                    NullauthState::Abandoning(session, Error::WrapperError(kind)),
                    NullauthAction::Flush(session.handle()),
                    handles,
                ),
                None => (
                    NullauthState::AwaitingAttributes(session),
                    NullauthAction::SetAttributes(session, nullauth_attributes()),
                    registered(handles, session.handle(), HandleDisposition::MustFlush),
                ),
            }
        },
        (NullauthState::AwaitingAttributes(session), NullauthEvent::AttributesSet(Err(e))) => (
            NullauthState::Abandoning(session, e),
            NullauthAction::Flush(session.handle()),
            handles,
        ),
        (NullauthState::AwaitingAttributes(session), NullauthEvent::AttributesSet(Ok(_))) => (
            NullauthState::Working(session),
            NullauthAction::RunWork(session),
            handles,
        ),
        (NullauthState::Working(session), NullauthEvent::WorkDone) => (
            NullauthState::AwaitingFlush(session),
            NullauthAction::Flush(session.handle()),
            handles,
        ),
        (NullauthState::AwaitingFlush(session), NullauthEvent::Flushed(outcome)) => {
            match release_refusal(
                handles,
                session.handle(),
                HandleDisposition::MustFlush,
                outcome,
            ) {
                Some(e) => (NullauthState::Finished, NullauthAction::Fail(e), handles),
                None => (
                    NullauthState::Finished,
                    NullauthAction::ReturnWork,
                    without(handles, session.handle()),
                ),
            }
        },
        (NullauthState::Abandoning(session, e), NullauthEvent::Flushed(outcome)) => (
            NullauthState::Finished,
            NullauthAction::Fail(e),
            after_release(handles, session.handle(), HandleDisposition::MustFlush, outcome),
        ),
        _ => (
            NullauthState::Finished,
            NullauthAction::Fail(Error::WrapperError(WrapperErrorKind::InconsistentParams)),
            handles,
        ),
    }
}

/// Takes note of what has happened in a run of work under a fresh session,
/// and says what to do next.
pub fn nullauth_step<D>(
    context: &mut Context<D>,
    state: NullauthState,
    event: NullauthEvent,
) -> (next: (NullauthState, NullauthAction))
    ensures
        final(context).spec_channel() == old(context).spec_channel(),
        next.0 == nullauth_transition(old(context)@.handles, state, event).0,
        next.1 == nullauth_transition(old(context)@.handles, state, event).1,
        final(context)@ == (ContextView {
            handles: nullauth_transition(old(context)@.handles, state, event).2,
            ..old(context)@
        }),
{
    match (state, event) {
        (NullauthState::Idle, NullauthEvent::Begin) => (
            NullauthState::AwaitingSession,
            NullauthAction::StartSession(
                SessionRequest {
                    session_type: SessionType::Hmac,
                    symmetric: Cipher::aes_128_cfb(),
                    auth_hash: HashingAlgorithm::Sha256,
                },
            ),
        ),
        (NullauthState::AwaitingSession, NullauthEvent::SessionStarted(Err(e))) => (
            NullauthState::Finished,
            NullauthAction::Fail(e),
        ),
        (NullauthState::AwaitingSession, NullauthEvent::SessionStarted(Ok(None))) => (
            NullauthState::Finished,
            NullauthAction::Fail(Error::local_error(WrapperErrorKind::WrongValueFromTpm)),
        ),
        (NullauthState::AwaitingSession, NullauthEvent::SessionStarted(Ok(Some(session)))) => {
            match context.register_handle(session.handle(), HandleDisposition::MustFlush) {
                Err(e) => (
                    NullauthState::Abandoning(session, e),
                    NullauthAction::Flush(session.handle()),
                ),
                Ok(()) => (
                    NullauthState::AwaitingAttributes(session),
                    NullauthAction::SetAttributes(
                        session,
                        TpmaSession {
                            flags: NULLAUTH_SESSION_ATTRIBUTES,
                            mask: NULLAUTH_SESSION_ATTRIBUTES,
                        },
                    ),
                ),
            }
        },
        (NullauthState::AwaitingAttributes(session), NullauthEvent::AttributesSet(Err(e))) => (
            NullauthState::Abandoning(session, e),
            NullauthAction::Flush(session.handle()),
        ),
        (NullauthState::AwaitingAttributes(session), NullauthEvent::AttributesSet(Ok(_))) => (
            NullauthState::Working(session),
            NullauthAction::RunWork(session),
        ),
        (NullauthState::Working(session), NullauthEvent::WorkDone) => (
            NullauthState::AwaitingFlush(session),
            NullauthAction::Flush(session.handle()),
        ),
        (NullauthState::AwaitingFlush(session), NullauthEvent::Flushed(outcome)) => {
            match context.flush_completed(session.handle(), outcome) {
                Err(e) => (NullauthState::Finished, NullauthAction::Fail(e)),
                Ok(()) => (NullauthState::Finished, NullauthAction::ReturnWork),
            }
        },
        (NullauthState::Abandoning(session, e), NullauthEvent::Flushed(outcome)) => {
            let _ = context.flush_completed(session.handle(), outcome);
            (NullauthState::Finished, NullauthAction::Fail(e))
        },
        _ => (
            NullauthState::Finished,
            NullauthAction::Fail(Error::local_error(WrapperErrorKind::InconsistentParams)),
        ),
    }
}

/// The state, the action and the handles in which a run waits for the
/// device to discard `session`, once the device has started the session and
/// has answered `attributes_set` to the command that sets its attributes:
/// at once where the session cannot be registered, after that command where
/// the device refuses it, and after the work otherwise.
pub open spec fn flush_awaited(
    handles: Seq<TrackedHandle>,
    session: Session,
    attributes_set: Result<(), Error>,
) -> (NullauthState, NullauthAction, Seq<TrackedHandle>) {
    let started = nullauth_transition(
        handles,
        NullauthState::AwaitingSession,
        NullauthEvent::SessionStarted(Ok(Some(session))),
    );
    if started.0 is AwaitingAttributes {
        let set = nullauth_transition(
            started.2,
            started.0,
            NullauthEvent::AttributesSet(attributes_set),
        );
        if set.0 is Working {
            nullauth_transition(set.2, set.0, NullauthEvent::WorkDone)
        } else {
            set
        }
    } else {
        started
    }
}

/// The session of a run does not outlive the run.
///
/// Once the device has started the session, the run asks the device to
/// discard it before it ends: after the work, whatever the work has come
/// to, or at once where the session cannot be registered or its attributes
/// cannot be set. When the device has discarded it, the run is over and no
/// handle of the session is left to flush. The run returns the result of
/// the work only where nothing went wrong before the work; where the
/// session was registered by the run, the other handles are registered as
/// before.
pub proof fn lemma_session_does_not_outlive(
    handles: Seq<TrackedHandle>,
    session: Session,
    attributes_set: Result<(), Error>,
    flushed: Result<(), Error>,
)
    requires
        distinct_handles(handles),
        flushed is Ok,
    ensures
        ({
            let handle = session.handle();
            let refused = register_error(handles, handle, HandleDisposition::MustFlush);
            let awaited = flush_awaited(handles, session, attributes_set);
            let ended = nullauth_transition(awaited.2, awaited.0, NullauthEvent::Flushed(flushed));
            &&& awaited.1 == NullauthAction::Flush(handle)
            &&& ended.0 == NullauthState::Finished
            &&& !handles_with(ended.2, HandleDisposition::MustFlush).contains(handle)
            &&& ended.1 == (match refused {
                Some(kind) => NullauthAction::Fail(Error::WrapperError(kind)),
                None => match attributes_set {
                    Err(e) => NullauthAction::Fail(e),
                    Ok(_) => NullauthAction::ReturnWork,
                },
            })
            &&& refused is None ==> disposition_of(ended.2, handle) is None && forall|
                other: ObjectHandle,
            |
                other != handle ==> disposition_of(ended.2, other) == disposition_of(
                    handles,
                    other,
                )
        }),
{
    let handle = session.handle();
    if register_error(handles, handle, HandleDisposition::MustFlush) is None {
        let started = registered(handles, handle, HandleDisposition::MustFlush);
        lemma_registered(handles, handle, HandleDisposition::MustFlush);
        lemma_without(started, handle);
        lemma_handles_with(without(started, handle), HandleDisposition::MustFlush);
    } else {
        lemma_handles_with(handles, HandleDisposition::MustFlush);
        if disposition_of(handles, handle) is Some {
            lemma_without(handles, handle);
            lemma_handles_with(without(handles, handle), HandleDisposition::MustFlush);
        }
    }
}

} // verus!
