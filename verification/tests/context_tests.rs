use tss_esapi::algorithm::{Cipher, HashingAlgorithm};
use tss_esapi::attributes::TpmaSession;
use tss_esapi::capabilities::{CapabilityData, CapabilityType, PropertyTag, TaggedProperty};
use tss_esapi::constants::{ESYS_TR_NONE, ESYS_TR_PASSWORD, ESYS_TR_RH_NULL};
use tss_esapi::context::{Context, PropertyQuery};
use tss_esapi::error::{Error, WrapperErrorKind};
use tss_esapi::handle_manager::{HandleDisposition, HandleManager};
use tss_esapi::handles::{ObjectHandle, Session, SessionType};
use tss_esapi::nullauth::{nullauth_step, NullauthAction, NullauthEvent, NullauthState, SessionRequest};
use tss_esapi::teardown::{ReleaseCommand, Teardown, TeardownAction, TeardownReport};

fn local(kind: WrapperErrorKind) -> Error {
    Error::WrapperError(kind)
}

/// Stands in for the channel to a device: it keeps a record of the release
/// commands that were issued on it, and refuses the handles it is told to.
#[derive(Debug, Default)]
struct Recorder {
    issued: Vec<ReleaseCommand>,
    refused: Vec<u32>,
    next_session: u32,
}

impl Recorder {
    fn answer(&mut self, command: ReleaseCommand) -> Result<(), Error> {
        self.issued.push(command);
        if self.refused.contains(&command.handle().0) {
            Err(Error::Tss2Error(0x0000_018B))
        } else {
            Ok(())
        }
    }
}

/// Runs a shutdown to its end, as a caller with a channel does.
fn shut_down(context: &mut Context<Recorder>) -> TeardownReport {
    let mut teardown = Teardown::begin(context);
    let mut answer = None;
    loop {
        match teardown.step(context, answer) {
            TeardownAction::Release(command) => {
                answer = Some(context.channel_mut().answer(command));
            }
            TeardownAction::Finish(report) => return report,
        }
    }
}

/// Runs work under a fresh session, as a caller with a channel does.
fn execute_with_nullauth_session<T>(
    context: &mut Context<Recorder>,
    started: Result<Option<Session>, Error>,
    attributes_set: Result<(), Error>,
    work: impl FnOnce(&mut Context<Recorder>) -> Result<T, Error>,
) -> Result<T, Error> {
    let mut work = Some(work);
    let mut result = None;
    let mut state = NullauthState::Idle;
    let mut event = NullauthEvent::Begin;
    loop {
        let (next, action) = nullauth_step(context, state, event);
        state = next;
        event = match action {
            NullauthAction::StartSession(request) => {
                assert_eq!(
                    request,
                    SessionRequest {
                        session_type: SessionType::Hmac,
                        symmetric: Cipher::aes_128_cfb(),
                        auth_hash: HashingAlgorithm::Sha256,
                    }
                );
                NullauthEvent::SessionStarted(started)
            }
            NullauthAction::SetAttributes(_, attributes) => {
                assert_eq!(attributes, TpmaSession { flags: 0x60, mask: 0x60 });
                NullauthEvent::AttributesSet(attributes_set)
            }
            NullauthAction::RunWork(session) => {
                let work = work.take().unwrap();
                result = Some(context.execute_with_session(Some(session), work));
                NullauthEvent::WorkDone
            }
            NullauthAction::Flush(handle) => {
                NullauthEvent::Flushed(context.channel_mut().answer(ReleaseCommand::Flush(handle)))
            }
            NullauthAction::ReturnWork => return result.unwrap(),
            NullauthAction::Fail(e) => return Err(e),
        };
    }
}

#[test]
fn session_handles() {
    assert_eq!(Session::Password.handle(), ObjectHandle(ESYS_TR_PASSWORD));
    assert_eq!(Session::Hmac(ObjectHandle(7)).handle(), ObjectHandle(7));
    assert_eq!(Session::Policy(ObjectHandle(8)).handle(), ObjectHandle(8));
    assert_eq!(Session::Trial(ObjectHandle(9)).handle(), ObjectHandle(9));
    assert_eq!(Session::handle_from_option(None), ObjectHandle(ESYS_TR_NONE));
    assert_eq!(Session::handle_from_option(Some(Session::Password)), ObjectHandle(0x0ff));
    assert_eq!(u32::from(ObjectHandle(5)), 5);
    assert_eq!(ObjectHandle::from(6), ObjectHandle(6));
    assert!(ObjectHandle(ESYS_TR_NONE).is_placeholder());
    assert!(ObjectHandle(ESYS_TR_RH_NULL).is_placeholder());
    assert!(!ObjectHandle(0x0040_0000).is_placeholder());
}

#[test]
fn sessions_are_set_and_cleared() {
    let mut context = Context::new(());
    assert_eq!(context.sessions(), (None, None, None));
    context.set_sessions((Some(Session::Password), None, Some(Session::Hmac(ObjectHandle(3)))));
    let (session_1, session_2, session_3) = context.sessions();
    assert_eq!(Some(Session::Password), session_1);
    assert_eq!(None, session_2);
    assert_eq!(Some(Session::Hmac(ObjectHandle(3))), session_3);
    assert_eq!(context.optional_session_1(), ObjectHandle(ESYS_TR_PASSWORD));
    assert_eq!(context.optional_session_2(), ObjectHandle(ESYS_TR_NONE));
    assert_eq!(context.optional_session_3(), ObjectHandle(3));
    context.clear_sessions();
    assert_eq!(context.sessions(), (None, None, None));
}

#[test]
fn required_sessions() {
    let mut context = Context::new(());
    assert_eq!(context.required_session_1(), Err(local(WrapperErrorKind::MissingAuthSession)));
    assert_eq!(context.required_session_2(), Err(local(WrapperErrorKind::MissingAuthSession)));
    context.set_sessions((Some(Session::Hmac(ObjectHandle(11))), None, None));
    assert_eq!(context.required_session_1(), Ok(ObjectHandle(11)));
    assert_eq!(context.required_session_2(), Err(local(WrapperErrorKind::MissingAuthSession)));
    context.set_sessions((None, Some(Session::Password), None));
    assert_eq!(context.required_session_1(), Err(local(WrapperErrorKind::MissingAuthSession)));
    assert_eq!(context.required_session_2(), Ok(ObjectHandle(ESYS_TR_PASSWORD)));
}

#[test]
fn scoped_sessions_are_restored() {
    let mut context = Context::new(0u32);
    let outer = (Some(Session::Password), None, None);
    let inner = (Some(Session::Hmac(ObjectHandle(1))), Some(Session::Policy(ObjectHandle(2))), None);
    context.set_sessions(outer);
    let seen = context.execute_with_sessions(inner, |ctx| {
        *ctx.channel_mut() += 1;
        ctx.sessions()
    });
    assert_eq!(seen, inner);
    assert_eq!(context.sessions(), outer);
    let seen = context.execute_with_session(Some(Session::Trial(ObjectHandle(4))), |ctx| {
        *ctx.channel_mut() += 1;
        ctx.sessions()
    });
    assert_eq!(seen, (Some(Session::Trial(ObjectHandle(4))), None, None));
    assert_eq!(context.sessions(), outer);
    let seen = context.execute_without_session(|ctx| {
        *ctx.channel_mut() += 1;
        ctx.sessions()
    });
    assert_eq!(seen, (None, None, None));
    assert_eq!(context.sessions(), outer);
    assert_eq!(*context.channel(), 3);
}

#[test]
fn scoped_sessions_are_restored_when_the_work_fails_or_changes_them() {
    let mut context = Context::new(());
    let outer = (None, Some(Session::Password), None);
    context.set_sessions(outer);
    let failed: Result<u8, Error> = context.execute_with_sessions((None, None, None), |ctx| {
        ctx.set_sessions((Some(Session::Password), Some(Session::Password), Some(Session::Password)));
        ctx.register_handle(ObjectHandle(77), HandleDisposition::MustClose)?;
        Err(Error::Tss2Error(0x9A2))
    });
    assert_eq!(failed, Err(Error::Tss2Error(0x9A2)));
    assert_eq!(context.sessions(), outer);
    // what the work leaves behind but for the slots stays
    assert_eq!(context.handle_manager().handles_to_close(), vec![ObjectHandle(77)]);
    // scopes nest
    let nested = context.execute_with_session(Some(Session::Hmac(ObjectHandle(1))), |ctx| {
        let inner = ctx.execute_without_session(|ctx| ctx.sessions());
        (inner, ctx.sessions())
    });
    assert_eq!(nested, ((None, None, None), (Some(Session::Hmac(ObjectHandle(1))), None, None)));
    assert_eq!(context.sessions(), outer);
}

#[test]
fn handles_are_registered_with_their_disposition() {
    let mut manager = HandleManager::new();
    assert!(!manager.has_open_handles());
    assert_eq!(manager.register(ObjectHandle(1), HandleDisposition::MustFlush), Ok(()));
    assert_eq!(manager.register(ObjectHandle(2), HandleDisposition::MustClose), Ok(()));
    assert_eq!(manager.register(ObjectHandle(3), HandleDisposition::MustFlush), Ok(()));
    assert_eq!(manager.register(ObjectHandle(4), HandleDisposition::Permanent), Ok(()));
    // again with the same disposition: nothing changes
    assert_eq!(manager.register(ObjectHandle(1), HandleDisposition::MustFlush), Ok(()));
    assert_eq!(manager.handles_to_flush(), vec![ObjectHandle(1), ObjectHandle(3)]);
    assert_eq!(manager.handles_to_close(), vec![ObjectHandle(2)]);
    assert_eq!(manager.disposition(ObjectHandle(4)), Some(HandleDisposition::Permanent));
    assert_eq!(manager.disposition(ObjectHandle(5)), None);
    assert!(manager.has_open_handles());
    // the disposition of a handle is fixed
    assert_eq!(
        manager.register(ObjectHandle(1), HandleDisposition::MustClose),
        Err(local(WrapperErrorKind::InconsistentParams))
    );
    assert_eq!(manager.disposition(ObjectHandle(1)), Some(HandleDisposition::MustFlush));
    // handles that stand for no resource
    for placeholder in [ESYS_TR_NONE, ESYS_TR_RH_NULL] {
        assert_eq!(
            manager.register(ObjectHandle(placeholder), HandleDisposition::MustFlush),
            Err(local(WrapperErrorKind::InvalidParam))
        );
    }
    assert_eq!(manager.handles_to_flush().len(), 2);
}

#[test]
fn handles_are_released_in_the_way_of_their_disposition() {
    let mut manager = HandleManager::new();
    manager.register(ObjectHandle(1), HandleDisposition::MustFlush).unwrap();
    manager.register(ObjectHandle(2), HandleDisposition::MustClose).unwrap();
    manager.register(ObjectHandle(3), HandleDisposition::Permanent).unwrap();
    assert_eq!(manager.set_as_closed(ObjectHandle(1)), Err(local(WrapperErrorKind::InvalidParam)));
    assert_eq!(manager.set_as_flushed(ObjectHandle(2)), Err(local(WrapperErrorKind::InvalidParam)));
    assert_eq!(manager.set_as_flushed(ObjectHandle(3)), Err(local(WrapperErrorKind::InvalidParam)));
    assert_eq!(manager.set_as_closed(ObjectHandle(3)), Err(local(WrapperErrorKind::InvalidParam)));
    assert_eq!(manager.set_as_flushed(ObjectHandle(9)), Err(local(WrapperErrorKind::InvalidParam)));
    assert_eq!(manager.handles_to_flush(), vec![ObjectHandle(1)]);
    assert_eq!(manager.handles_to_close(), vec![ObjectHandle(2)]);
    assert_eq!(manager.set_as_flushed(ObjectHandle(1)), Ok(()));
    assert_eq!(manager.set_as_flushed(ObjectHandle(1)), Err(local(WrapperErrorKind::InvalidParam)));
    assert!(manager.has_open_handles());
    assert_eq!(manager.set_as_closed(ObjectHandle(2)), Ok(()));
    assert!(manager.handles_to_flush().is_empty());
    assert!(manager.handles_to_close().is_empty());
    // a permanent handle is never released, and is not owed a release
    assert_eq!(manager.disposition(ObjectHandle(3)), Some(HandleDisposition::Permanent));
    assert!(!manager.has_open_handles());
}

#[test]
fn answers_to_release_commands_are_taken_note_of() {
    let mut context = Context::new(());
    context.register_handle(ObjectHandle(1), HandleDisposition::MustFlush).unwrap();
    context.register_handle(ObjectHandle(2), HandleDisposition::MustClose).unwrap();
    // a refusal of the device is handed on and the handle stays
    let refusal = Error::Tss2Error(0x902);
    assert_eq!(context.flush_completed(ObjectHandle(1), Err(refusal)), Err(refusal));
    assert_eq!(context.close_completed(ObjectHandle(2), Err(refusal)), Err(refusal));
    assert_eq!(context.handle_manager().handles_to_flush(), vec![ObjectHandle(1)]);
    assert_eq!(context.handle_manager().handles_to_close(), vec![ObjectHandle(2)]);
    // a release of what is not registered in that way
    assert_eq!(context.flush_completed(ObjectHandle(2), Ok(())), Err(local(WrapperErrorKind::InvalidParam)));
    assert_eq!(context.close_completed(ObjectHandle(5), Ok(())), Err(local(WrapperErrorKind::InvalidParam)));
    assert_eq!(context.flush_completed(ObjectHandle(1), Ok(())), Ok(()));
    assert_eq!(context.close_completed(ObjectHandle(2), Ok(())), Ok(()));
    assert!(!context.handle_manager().has_open_handles());
}

#[test]
fn temporary_object_is_released_whatever_the_work_returns() {
    let mut context = Context::new(());
    let object = ObjectHandle(0x0040_0001);
    for work in [Ok(5u8), Err(Error::Tss2Error(0x123))] {
        context.register_handle(object, HandleDisposition::MustFlush).unwrap();
        assert_eq!(context.finish_with_flush(object, work, Ok(())), work);
        assert!(context.handle_manager().handles_to_flush().is_empty());
    }
    // a refusal to discard the object takes the place of the result
    context.register_handle(object, HandleDisposition::MustFlush).unwrap();
    let refusal = Error::Tss2Error(0x902);
    assert_eq!(context.finish_with_flush(object, Ok(5u8), Err(refusal)), Err(refusal));
    assert_eq!(context.handle_manager().handles_to_flush(), vec![object]);
}

#[test]
fn teardown_flushes_before_it_closes() {
    let mut context = Context::new(Recorder::default());
    context.register_handle(ObjectHandle(10), HandleDisposition::MustClose).unwrap();
    context.register_handle(ObjectHandle(20), HandleDisposition::MustFlush).unwrap();
    context.register_handle(ObjectHandle(30), HandleDisposition::Permanent).unwrap();
    context.register_handle(ObjectHandle(40), HandleDisposition::MustFlush).unwrap();
    let report = shut_down(&mut context);
    // exactly two flushes, before any close; the permanent handle is not touched
    assert_eq!(
        context.channel().issued,
        vec![
            ReleaseCommand::Flush(ObjectHandle(20)),
            ReleaseCommand::Flush(ObjectHandle(40)),
            ReleaseCommand::Close(ObjectHandle(10)),
        ]
    );
    assert_eq!(report, TeardownReport { failed_releases: 0, open_handles: false });
    assert!(!context.handle_manager().has_open_handles());
    assert_eq!(context.handle_manager().disposition(ObjectHandle(30)), Some(HandleDisposition::Permanent));
}

#[test]
fn teardown_goes_on_when_a_release_fails() {
    let mut context = Context::new(Recorder { refused: vec![20, 10], ..Recorder::default() });
    context.register_handle(ObjectHandle(10), HandleDisposition::MustClose).unwrap();
    context.register_handle(ObjectHandle(20), HandleDisposition::MustFlush).unwrap();
    context.register_handle(ObjectHandle(40), HandleDisposition::MustFlush).unwrap();
    context.register_handle(ObjectHandle(50), HandleDisposition::MustClose).unwrap();
    let report = shut_down(&mut context);
    // every release is attempted, once
    assert_eq!(
        context.channel().issued,
        vec![
            ReleaseCommand::Flush(ObjectHandle(20)),
            ReleaseCommand::Flush(ObjectHandle(40)),
            ReleaseCommand::Close(ObjectHandle(10)),
            ReleaseCommand::Close(ObjectHandle(50)),
        ]
    );
    assert_eq!(report, TeardownReport { failed_releases: 2, open_handles: true });
    assert_eq!(context.handle_manager().handles_to_flush(), vec![ObjectHandle(20)]);
    assert_eq!(context.handle_manager().handles_to_close(), vec![ObjectHandle(10)]);
}

#[test]
fn teardown_of_a_context_without_handles() {
    let mut context = Context::new(Recorder::default());
    let mut teardown = Teardown::begin(&mut context);
    let done = TeardownAction::Finish(TeardownReport { failed_releases: 0, open_handles: false });
    assert_eq!(teardown.step(&mut context, None), done);
    // a finished shutdown stays finished
    assert_eq!(teardown.step(&mut context, Some(Ok(()))), done);
    assert!(context.channel().issued.is_empty());
}

#[test]
fn teardown_counts_a_command_without_answer_as_failed() {
    let mut context = Context::new(());
    context.register_handle(ObjectHandle(1), HandleDisposition::MustFlush).unwrap();
    let mut teardown = Teardown::begin(&mut context);
    assert_eq!(
        teardown.step(&mut context, Some(Ok(()))),
        TeardownAction::Release(ReleaseCommand::Flush(ObjectHandle(1)))
    );
    assert_eq!(
        teardown.step(&mut context, None),
        TeardownAction::Finish(TeardownReport { failed_releases: 1, open_handles: true })
    );
}

#[test]
fn nullauth_session_is_flushed_after_the_work() {
    let mut context = Context::new(Recorder::default());
    let outer = (Some(Session::Password), None, None);
    context.set_sessions(outer);
    let session = Session::Hmac(ObjectHandle(0x0200_0000));
    let seen = execute_with_nullauth_session(&mut context, Ok(Some(session)), Ok(()), |ctx| {
        // the session is there for the work, alone in the slots
        assert_eq!(ctx.handle_manager().handles_to_flush(), vec![ObjectHandle(0x0200_0000)]);
        Ok(ctx.sessions())
    });
    assert_eq!(seen, Ok((Some(session), None, None)));
    assert_eq!(context.sessions(), outer);
    assert_eq!(context.channel().issued, vec![ReleaseCommand::Flush(ObjectHandle(0x0200_0000))]);
    assert!(context.handle_manager().handles_to_flush().is_empty());
}

#[test]
fn nullauth_session_is_flushed_when_the_work_fails() {
    let mut context = Context::new(Recorder::default());
    let session = Session::Hmac(ObjectHandle(0x0200_0001));
    let failure = Error::Tss2Error(0x0000_0921);
    let outcome: Result<(), Error> =
        execute_with_nullauth_session(&mut context, Ok(Some(session)), Ok(()), |_| Err(failure));
    assert_eq!(outcome, Err(failure));
    assert_eq!(context.channel().issued, vec![ReleaseCommand::Flush(ObjectHandle(0x0200_0001))]);
    // no handle of the session is left to flush
    assert!(context.handle_manager().handles_to_flush().is_empty());
    assert!(!context.handle_manager().has_open_handles());
    assert_eq!(context.sessions(), (None, None, None));
}

#[test]
fn nullauth_session_that_cannot_be_started() {
    let mut context = Context::new(Recorder::default());
    let refusal = Error::Tss2Error(0x0000_0903);
    let outcome: Result<u8, Error> =
        execute_with_nullauth_session(&mut context, Err(refusal), Ok(()), |_| panic!("no session"));
    assert_eq!(outcome, Err(refusal));
    let outcome: Result<u8, Error> =
        execute_with_nullauth_session(&mut context, Ok(None), Ok(()), |_| panic!("no session"));
    assert_eq!(outcome, Err(local(WrapperErrorKind::WrongValueFromTpm)));
    // no session was started, so there is none to discard
    assert!(context.channel().issued.is_empty());
    assert!(!context.handle_manager().has_open_handles());
}

#[test]
fn nullauth_session_that_cannot_be_registered_is_flushed_at_once() {
    // the handle is registered already, as a reference to close
    let mut context = Context::new(Recorder::default());
    context.register_handle(ObjectHandle(0x0200_0004), HandleDisposition::MustClose).unwrap();
    let session = Session::Hmac(ObjectHandle(0x0200_0004));
    let outcome: Result<u8, Error> =
        execute_with_nullauth_session(&mut context, Ok(Some(session)), Ok(()), |_| panic!("no work"));
    assert_eq!(outcome, Err(local(WrapperErrorKind::InconsistentParams)));
    assert_eq!(context.channel().issued, vec![ReleaseCommand::Flush(ObjectHandle(0x0200_0004))]);
    assert!(context.handle_manager().handles_to_flush().is_empty());
    assert_eq!(context.handle_manager().handles_to_close(), vec![ObjectHandle(0x0200_0004)]);
    // the handle stands for no resource
    let mut context = Context::new(Recorder::default());
    let placeholder = Session::Hmac(ObjectHandle(ESYS_TR_NONE));
    let outcome: Result<u8, Error> =
        execute_with_nullauth_session(&mut context, Ok(Some(placeholder)), Ok(()), |_| panic!("no work"));
    assert_eq!(outcome, Err(local(WrapperErrorKind::InvalidParam)));
    assert_eq!(context.channel().issued, vec![ReleaseCommand::Flush(ObjectHandle(ESYS_TR_NONE))]);
    assert!(!context.handle_manager().has_open_handles());
}

#[test]
fn nullauth_session_whose_attributes_cannot_be_set_is_flushed_at_once() {
    let mut context = Context::new(Recorder::default());
    let outer = (None, Some(Session::Password), None);
    context.set_sessions(outer);
    let session = Session::Hmac(ObjectHandle(0x0200_0002));
    let refusal = Error::Tss2Error(0x0000_0144);
    let outcome: Result<u8, Error> =
        execute_with_nullauth_session(&mut context, Ok(Some(session)), Err(refusal), |_| panic!("no work"));
    // the work is not run, the error is handed on, and the session is gone
    assert_eq!(outcome, Err(refusal));
    assert_eq!(context.channel().issued, vec![ReleaseCommand::Flush(ObjectHandle(0x0200_0002))]);
    assert!(context.handle_manager().handles_to_flush().is_empty());
    assert!(!context.handle_manager().has_open_handles());
    assert_eq!(context.sessions(), outer);
    // nothing is left for the shutdown
    let report = shut_down(&mut context);
    assert_eq!(report, TeardownReport { failed_releases: 0, open_handles: false });
    assert_eq!(context.channel().issued.len(), 1);
}

#[test]
fn nullauth_session_whose_attributes_cannot_be_set_and_that_is_not_discarded() {
    let mut context = Context::new(Recorder { refused: vec![0x0200_0005], ..Recorder::default() });
    let session = Session::Hmac(ObjectHandle(0x0200_0005));
    let refusal = Error::Tss2Error(0x0000_0144);
    let outcome: Result<u8, Error> =
        execute_with_nullauth_session(&mut context, Ok(Some(session)), Err(refusal), |_| panic!("no work"));
    // the run ends with what went wrong first; the handle stays registered
    assert_eq!(outcome, Err(refusal));
    assert_eq!(context.channel().issued, vec![ReleaseCommand::Flush(ObjectHandle(0x0200_0005))]);
    assert_eq!(context.handle_manager().handles_to_flush(), vec![ObjectHandle(0x0200_0005)]);
}

#[test]
fn nullauth_steps_of_a_run_that_is_abandoned() {
    let mut context = Context::new(());
    let session = Session::Hmac(ObjectHandle(7));
    let refusal = Error::Tss2Error(0x0000_0144);
    let (state, _) = nullauth_step(&mut context, NullauthState::Idle, NullauthEvent::Begin);
    let (state, _) = nullauth_step(&mut context, state, NullauthEvent::SessionStarted(Ok(Some(session))));
    assert_eq!(state, NullauthState::AwaitingAttributes(session));
    let (state, action) = nullauth_step(&mut context, state, NullauthEvent::AttributesSet(Err(refusal)));
    assert_eq!(state, NullauthState::Abandoning(session, refusal));
    assert_eq!(action, NullauthAction::Flush(ObjectHandle(7)));
    let (state, action) = nullauth_step(&mut context, state, NullauthEvent::Flushed(Ok(())));
    assert_eq!(state, NullauthState::Finished);
    assert_eq!(action, NullauthAction::Fail(refusal));
    assert!(context.handle_manager().handles_to_flush().is_empty());
}

#[test]
fn teardown_runs_once() {
    let mut context = Context::new(Recorder { refused: vec![20], ..Recorder::default() });
    context.register_handle(ObjectHandle(10), HandleDisposition::MustClose).unwrap();
    context.register_handle(ObjectHandle(20), HandleDisposition::MustFlush).unwrap();
    assert!(!context.is_torn_down());
    let report = shut_down(&mut context);
    assert!(context.is_torn_down());
    assert_eq!(report, TeardownReport { failed_releases: 1, open_handles: true });
    assert_eq!(
        context.channel().issued,
        vec![ReleaseCommand::Flush(ObjectHandle(20)), ReleaseCommand::Close(ObjectHandle(10))]
    );
    // the release that failed is not tried again
    let again = shut_down(&mut context);
    assert_eq!(again, TeardownReport { failed_releases: 0, open_handles: true });
    assert_eq!(context.channel().issued.len(), 2);
    assert_eq!(context.handle_manager().handles_to_flush(), vec![ObjectHandle(20)]);
}

#[test]
fn nullauth_session_that_the_device_does_not_discard() {
    let mut context = Context::new(Recorder { refused: vec![0x0200_0003], ..Recorder::default() });
    let session = Session::Hmac(ObjectHandle(0x0200_0003));
    let outcome = execute_with_nullauth_session(&mut context, Ok(Some(session)), Ok(()), |_| Ok(1u8));
    // the refusal takes the place of the result, and the handle stays registered
    assert_eq!(outcome, Err(Error::Tss2Error(0x0000_018B)));
    assert_eq!(context.handle_manager().handles_to_flush(), vec![ObjectHandle(0x0200_0003)]);
}

#[test]
fn nullauth_step_refuses_events_that_it_does_not_wait_for() {
    let mut context = Context::new(());
    let session = Session::Hmac(ObjectHandle(1));
    let inconsistent = NullauthAction::Fail(local(WrapperErrorKind::InconsistentParams));
    for (state, event) in [
        (NullauthState::Idle, NullauthEvent::WorkDone),
        (NullauthState::AwaitingSession, NullauthEvent::Begin),
        (NullauthState::AwaitingAttributes(session), NullauthEvent::Flushed(Ok(()))),
        (NullauthState::Working(session), NullauthEvent::AttributesSet(Ok(()))),
        (NullauthState::AwaitingFlush(session), NullauthEvent::WorkDone),
        (NullauthState::Abandoning(session, Error::Tss2Error(1)), NullauthEvent::WorkDone),
        (NullauthState::Finished, NullauthEvent::Begin),
    ] {
        assert_eq!(nullauth_step(&mut context, state, event), (NullauthState::Finished, inconsistent));
    }
    assert_eq!(
        nullauth_step(&mut context, NullauthState::Working(session), NullauthEvent::WorkDone),
        (NullauthState::AwaitingFlush(session), NullauthAction::Flush(ObjectHandle(1)))
    );
}

#[test]
fn property_tags() {
    assert_eq!(u32::from(PropertyTag::FamilyIndicator), 0x100);
    assert_eq!(u32::from(PropertyTag::Revision), 0x102);
    assert_eq!(u32::from(PropertyTag::PcrSelectMin), 0x113);
    assert_eq!(u32::from(PropertyTag::Permanent), 0x200);
    assert_eq!(PropertyTag::try_from(0x102), Ok(PropertyTag::Revision));
    assert_eq!(PropertyTag::try_from(0x120), Ok(PropertyTag::MaxDigest));
    assert_eq!(PropertyTag::try_from(0x1FF), Err(local(WrapperErrorKind::InvalidParam)));
    assert_eq!(u32::from(CapabilityType::TPMProperties), 6);
}

#[test]
fn properties_are_asked_for_once() {
    let mut context = Context::new(());
    let ask = PropertyQuery::Ask { capability: CapabilityType::TPMProperties, property: 0x102, count: 4 };
    assert_eq!(context.tpm_property_query(PropertyTag::Revision), ask);
    let answer = CapabilityData::TPMProperties(vec![
        TaggedProperty { property: 0x102, value: 138 },
        TaggedProperty { property: 0x103, value: 8 },
        // a property that this layer does not know is passed over
        TaggedProperty { property: 0x1F0, value: 1 },
        TaggedProperty { property: 0x104, value: 2018 },
        // the value that is reported last counts
        TaggedProperty { property: 0x103, value: 9 },
    ]);
    assert_eq!(context.tpm_properties_fetched(PropertyTag::Revision, Ok(answer)), Ok(Some(138)));
    assert_eq!(context.tpm_property_query(PropertyTag::Revision), PropertyQuery::Known(138));
    assert_eq!(context.tpm_property_query(PropertyTag::DayOfYear), PropertyQuery::Known(9));
    assert_eq!(context.tpm_property_query(PropertyTag::Year), PropertyQuery::Known(2018));
    assert_eq!(
        context.tpm_property_query(PropertyTag::Manufacturer),
        PropertyQuery::Ask { capability: CapabilityType::TPMProperties, property: 0x105, count: 4 }
    );
    // the device has no value for the property
    let other = CapabilityData::TPMProperties(vec![TaggedProperty { property: 0x106, value: 3 }]);
    assert_eq!(context.tpm_properties_fetched(PropertyTag::Manufacturer, Ok(other)), Ok(None));
}

#[test]
fn answers_that_hold_no_properties() {
    let mut context = Context::new(());
    let refusal = Error::Tss2Error(0x0000_0084);
    assert_eq!(context.tpm_properties_fetched(PropertyTag::Revision, Err(refusal)), Err(refusal));
    for wrong in [
        CapabilityData::Handles(vec![1, 2]),
        CapabilityData::Commands(vec![]),
        CapabilityData::Algorithms(vec![(1, 2)]),
    ] {
        assert_eq!(
            context.tpm_properties_fetched(PropertyTag::Revision, Ok(wrong)),
            Err(local(WrapperErrorKind::WrongValueFromTpm))
        );
    }
    assert!(matches!(context.tpm_property_query(PropertyTag::Revision), PropertyQuery::Ask { .. }));
}
