//! The command context: the sessions that the next command runs under and
//! the handles that are still to be released.
use std::collections::HashMap;
use vstd::prelude::*;
use crate::capabilities::{CapabilityData, CapabilityType, PropertyTag, TaggedProperty};
use crate::error::{Error, WrapperErrorKind};
use crate::handle_manager::{
    disposition_of, lemma_handles_with, lemma_without, register_error, registered, handles_with,
    without, HandleDisposition, HandleManager, TrackedHandle,
};
use crate::handles::{ObjectHandle, Session};

verus! {

broadcast use vstd::std_specs::hash::group_hash_axioms;

/// The sessions of the three session slots of a command.
pub type SessionSlots = (Option<Session>, Option<Session>, Option<Session>);

/// The number of properties that the device is asked for at a time.
pub const PROPERTIES_PER_QUERY: u32 = 4;

/// How to learn a property of the device.
#[derive(Clone, Copy, Debug, PartialEq, Eq, Hash, Structural)]
pub enum PropertyQuery {
    /// The property has been asked for before; this is its value.
    Known(u32),
    /// Ask the device for `count` properties of the group `capability`,
    /// from the tag `property` on, and hand the answer to
    /// `Context::tpm_properties_fetched`.
    Ask { capability: CapabilityType, property: u32, count: u32 },
}

/// The known properties after the device has reported `reported`: each
/// reported property that this layer knows by name is known with the value
/// that was reported last; the others are left out.
pub open spec fn with_properties(known: Map<u32, u32>, reported: Seq<TaggedProperty>) -> Map<
    u32,
    u32,
>
    decreases reported.len(),
{
    if reported.len() == 0 {
        known
    } else {
        let before = with_properties(known, reported.drop_last());
        let last = reported.last();
        if PropertyTag::from_tag(last.property) is Some {
            before.insert(last.property, last.value)
        } else {
            before
        }
    }
}

/// What a context holds beside its channel to the device.
pub ghost struct ContextView {
    /// The sessions that the next command runs under.
    pub sessions: SessionSlots,
    /// The handles that are still to be released, in the order in which
    /// they were registered.
    pub handles: Seq<TrackedHandle>,
    /// The properties of the device that have been asked for, by tag.
    pub properties: Map<u32, u32>,
    /// Whether the shutdown of the context has begun.
    pub torn_down: bool,
}

/// The state that all commands to one device share: the channel to the
/// device, the sessions of the three session slots, the account of the
/// handles that are still to be released, and the properties of the device
/// that are known.
///
/// The channel is whatever issues the commands; this type only carries it.
/// A context is used by one caller at a time: what changes it takes it by
/// mutable reference.
#[derive(Debug)]
pub struct Context<D> {
    channel: D,
    sessions: SessionSlots,
    handle_manager: HandleManager,
    cached_tpm_properties: HashMap<u32, u32>,
    torn_down: bool,
}

impl<D> View for Context<D> {
    type V = ContextView;

    closed spec fn view(&self) -> ContextView {
        ContextView {
            sessions: self.sessions,
            handles: self.handle_manager@,
            properties: self.cached_tpm_properties@,
            torn_down: self.torn_down,
        }
    }
}

impl<D> Context<D> {
    /// The channel to the device.
    pub closed spec fn spec_channel(self) -> D {
        self.channel
    }

    /// This context with other sessions in its session slots.
    pub closed spec fn with_sessions(self, sessions: SessionSlots) -> Context<D> {
        Context { sessions, ..self }
    }

    /// To put other sessions in the slots changes nothing else, and to put
    /// back the sessions that were there gives the context that was there.
    pub proof fn lemma_with_sessions(self, sessions: SessionSlots)
        ensures
            self.with_sessions(sessions)@ == (ContextView { sessions, ..self@ }),
            self.with_sessions(sessions).spec_channel() == self.spec_channel(),
            self.with_sessions(sessions).with_sessions(self@.sessions) == self,
            self.with_sessions(self@.sessions) == self,
    {
    }

    /// A context on the given channel, with empty session slots, no handle
    /// to release and no property known, whose shutdown has not begun.
    pub fn new(channel: D) -> (context: Self)
        ensures
            context.spec_channel() == channel,
            context@ == (ContextView {
                sessions: (None, None, None),
                handles: Seq::empty(),
                properties: Map::empty(),
                torn_down: false,
            }),
    {
        Context {
            channel,
            sessions: (None, None, None),
            handle_manager: HandleManager::new(),
            cached_tpm_properties: HashMap::new(),
            torn_down: false,
        }
    }

    /// Marks the context as one whose shutdown has begun, and says whether
    /// this is the first time. The shutdown of a context begins once.
    pub fn begin_teardown(&mut self) -> (first: bool)
        ensures
            first == !old(self)@.torn_down,
            final(self).spec_channel() == old(self).spec_channel(),
            final(self)@ == (ContextView { torn_down: true, ..old(self)@ }),
    {
        let first = !self.torn_down;
        self.torn_down = true;
        first
    }

    /// Whether the shutdown of the context has begun.
    pub fn is_torn_down(&self) -> (torn_down: bool)
        ensures
            torn_down == self@.torn_down,
    {
        self.torn_down
    }

    /// The channel to the device.
    pub fn channel(&self) -> (channel: &D)
        ensures
            *channel == self.spec_channel(),
    {
        &self.channel
    }

    /// The channel to the device, to issue a command on. What the context
    /// holds beside the channel stays as it is.
    pub fn channel_mut(&mut self) -> (channel: &mut D)
        ensures
            *channel == old(self).spec_channel(),
            final(self).spec_channel() == *final(channel),
            final(self)@ == old(self)@,
    {
        &mut self.channel
    }

    /// The account of the handles that are still to be released.
    pub fn handle_manager(&self) -> (manager: &HandleManager)
        ensures
            manager@ == self@.handles,
            manager.wf(),
    {
        proof {
            use_type_invariant(&self.handle_manager);
        }
        &self.handle_manager
    }

    /// Sets the sessions that the next commands run under.
    pub fn set_sessions(&mut self, session_handles: SessionSlots)
        ensures
            *final(self) == old(self).with_sessions(session_handles),
    {
        self.sessions = session_handles;
    }

    /// Empties the three session slots.
    pub fn clear_sessions(&mut self)
        ensures
            *final(self) == old(self).with_sessions((None, None, None)),
    {
        self.sessions = (None, None, None)
    }

    /// The sessions that are set.
    pub fn sessions(&self) -> (sessions: SessionSlots)
        ensures
            sessions == self@.sessions,
    {
        self.sessions
    }

    /// Runs `f` with `session_handles` in the session slots and puts back,
    /// whatever `f` returns, the sessions that were there before.
    ///
    /// `f` is called once, on this context with the slots replaced. What
    /// `f` leaves behind stays, but for the slots.
    pub fn execute_with_sessions<F, T>(&mut self, session_handles: SessionSlots, f: F) -> (res: T)
        where F: FnOnce(&mut Context<D>) -> T
        requires
            forall|context: &mut Context<D>|
                *context == old(self).with_sessions(session_handles) ==> call_requires(
                    f,
                    (context,),
                ),
        ensures
            final(self)@.sessions == old(self)@.sessions,
            exists|context: &mut Context<D>|
                *context == old(self).with_sessions(session_handles) && #[trigger] call_ensures(
                    f,
                    (context,),
                    res,
                ) && *final(self) == final(context).with_sessions(old(self)@.sessions),
    {
        let oldses = self.sessions();
        self.set_sessions(session_handles);
        let res = f(self);
        self.set_sessions(oldses);
        res
    }
    /// Runs `f` with `session_handle` in the first session slot and the other
    /// two empty, and puts back the sessions that were there before.
    pub fn execute_with_session<F, T>(&mut self, session_handle: Option<Session>, f: F) -> (res: T)
        where F: FnOnce(&mut Context<D>) -> T
        requires
            forall|context: &mut Context<D>|
                *context == old(self).with_sessions((session_handle, None, None))
                    ==> call_requires(f, (context,)),
        ensures
            final(self)@.sessions == old(self)@.sessions,
            exists|context: &mut Context<D>|
                *context == old(self).with_sessions((session_handle, None, None))
                    && #[trigger] call_ensures(f, (context,), res)
                    && *final(self) == final(context).with_sessions(old(self)@.sessions),
    {
        self.execute_with_sessions((session_handle, None, None), f)
    }

    /// Runs `f` with the three session slots empty, and puts back the
    /// sessions that were there before.
    pub fn execute_without_session<F, T>(&mut self, f: F) -> (res: T)
        where F: FnOnce(&mut Context<D>) -> T
        requires
            forall|context: &mut Context<D>|
                *context == old(self).with_sessions((None, None, None)) ==> call_requires(
                    f,
                    (context,),
                ),
        ensures
            final(self)@.sessions == old(self)@.sessions,
            exists|context: &mut Context<D>|
                *context == old(self).with_sessions((None, None, None)) && #[trigger] call_ensures(
                    f,
                    (context,),
                    res,
                ) && *final(self) == final(context).with_sessions(old(self)@.sessions),
    {
        self.execute_with_sessions((None, None, None), f)
    }

    /// The handle to give a command for the first session slot.
    pub fn optional_session_1(&self) -> (handle: ObjectHandle)
        ensures
            handle == Session::handle_from_option(self@.sessions.0),
    {
        Session::handle_from_option(self.sessions.0)
    }

    /// The handle to give a command for the second session slot.
    pub fn optional_session_2(&self) -> (handle: ObjectHandle)
        ensures
            handle == Session::handle_from_option(self@.sessions.1),
    {
        Session::handle_from_option(self.sessions.1)
    }

    /// The handle to give a command for the third session slot.
    pub fn optional_session_3(&self) -> (handle: ObjectHandle)
        ensures
            handle == Session::handle_from_option(self@.sessions.2),
    {
        Session::handle_from_option(self.sessions.2)
    }

    /// The handle of the session in the first slot, for a command that
    /// cannot do without. Fails with `MissingAuthSession` if the slot is empty.
    pub fn required_session_1(&self) -> (r: Result<ObjectHandle, Error>)
        ensures
            r == (match self@.sessions.0 {
                Some(session) => Ok::<ObjectHandle, Error>(session.handle()),
                None => Err(Error::WrapperError(WrapperErrorKind::MissingAuthSession)),
            }),
    {
        match self.sessions.0 {
            Some(session) => Ok(session.handle()),
            None => Err(Error::local_error(WrapperErrorKind::MissingAuthSession)),
        }
    }

    /// The handle of the session in the second slot, for a command that
    /// cannot do without. Fails with `MissingAuthSession` if the slot is empty.
    pub fn required_session_2(&self) -> (r: Result<ObjectHandle, Error>)
        ensures
            r == (match self@.sessions.1 {
                Some(session) => Ok::<ObjectHandle, Error>(session.handle()),
                None => Err(Error::WrapperError(WrapperErrorKind::MissingAuthSession)),
            }),
    {
        match self.sessions.1 {
            Some(session) => Ok(session.handle()),
            None => Err(Error::local_error(WrapperErrorKind::MissingAuthSession)),
        }
    }

    /// Registers a handle that a command has obtained from the device, with
    /// what is owed to it. Fails as `HandleManager::register` does.
    pub fn register_handle(&mut self, handle: ObjectHandle, disposition: HandleDisposition) -> (r:
        Result<(), Error>)
        ensures
            final(self).spec_channel() == old(self).spec_channel(),
            match r {
                Ok(()) => register_error(old(self)@.handles, handle, disposition) is None
                    && final(self)@ == (ContextView {
                    handles: registered(old(self)@.handles, handle, disposition),
                    ..old(self)@
                }),
                Err(e) => register_error(old(self)@.handles, handle, disposition) == Some(
                    e->WrapperError_0,
                ) && e is WrapperError && final(self)@ == old(self)@,
            },
    {
        let mut manager = HandleManager::new();
        core::mem::swap(&mut self.handle_manager, &mut manager);
        let r = manager.register(handle, disposition);
        self.handle_manager = manager;
        r
    }

    /// Takes note of how the device answered the command to discard `handle`.
    ///
    /// Where the device has discarded it, the handle is no longer to be
    /// released. Where the device has refused, the refusal is handed on and
    /// the handle stays registered. Fails with `InvalidParam`, and changes
    /// nothing, if the device has discarded a handle that is not registered
    /// as one to flush.
    pub fn flush_completed(&mut self, handle: ObjectHandle, outcome: Result<(), Error>) -> (r:
        Result<(), Error>)
        ensures
            final(self).spec_channel() == old(self).spec_channel(),
            ({
                let disposition = HandleDisposition::MustFlush;
                let refusal = release_refusal(old(self)@.handles, handle, disposition, outcome);
                &&& r is Ok <==> refusal is None
                &&& r is Err ==> refusal == Some(r->Err_0)
                &&& final(self)@ == (ContextView {
                    handles: after_release(old(self)@.handles, handle, disposition, outcome),
                    ..old(self)@
                })
            }),
    {
        match outcome {
            Err(e) => Err(e),
            Ok(()) => {
                let mut manager = HandleManager::new();
                core::mem::swap(&mut self.handle_manager, &mut manager);
                let r = manager.set_as_flushed(handle);
                self.handle_manager = manager;
                r
            },
        }
    }

    /// Takes note of how the command to close the reference `handle` ended.
    ///
    /// Where it has been closed, the handle is no longer to be released.
    /// Where it has not, the refusal is handed on and the handle stays
    /// registered. Fails with `InvalidParam`, and changes nothing, if what has
    /// been closed is not registered as a handle to close.
    pub fn close_completed(&mut self, handle: ObjectHandle, outcome: Result<(), Error>) -> (r:
        Result<(), Error>)
        ensures
            final(self).spec_channel() == old(self).spec_channel(),
            ({
                let disposition = HandleDisposition::MustClose;
                let refusal = release_refusal(old(self)@.handles, handle, disposition, outcome);
                &&& r is Ok <==> refusal is None
                &&& r is Err ==> refusal == Some(r->Err_0)
                &&& final(self)@ == (ContextView {
                    handles: after_release(old(self)@.handles, handle, disposition, outcome),
                    ..old(self)@
                })
            }),
    {
        match outcome {
            Err(e) => Err(e),
            Ok(()) => {
                let mut manager = HandleManager::new();
                core::mem::swap(&mut self.handle_manager, &mut manager);
                let r = manager.set_as_closed(handle);
                self.handle_manager = manager;
                r
            },
        }
    }

    /// Ends a piece of work that used the transient object or session
    /// `handle`, once the device has answered the command to discard it.
    ///
    /// The answer is taken note of as `flush_completed` does, whatever the
    /// work has come to. A refusal to discard the handle is handed on in
    /// place of the result of the work; otherwise the result of the work is.
    /// Once the handle is discarded, it is no longer among the handles to
    /// flush.
    pub fn finish_with_flush<T>(
        &mut self,
        handle: ObjectHandle,
        work: Result<T, Error>,
        flush_outcome: Result<(), Error>,
    ) -> (r: Result<T, Error>)
        ensures
            final(self).spec_channel() == old(self).spec_channel(),
            ({
                let disposition = HandleDisposition::MustFlush;
                let before = old(self)@.handles;
                let refusal = release_refusal(before, handle, disposition, flush_outcome);
                &&& r == (match refusal {
                    None => work,
                    Some(e) => Err(e),
                })
                &&& final(self)@ == (ContextView {
                    handles: after_release(before, handle, disposition, flush_outcome),
                    ..old(self)@
                })
                &&& refusal is None ==> !handles_with(final(self)@.handles, disposition).contains(
                    handle,
                )
            }),
    {
        proof {
            use_type_invariant(&self.handle_manager);
            self.handle_manager.lemma_wf();
            if disposition_of(self@.handles, handle) is Some {
                lemma_without(self@.handles, handle);
                lemma_handles_with(without(self@.handles, handle), HandleDisposition::MustFlush);
            }
        }
        match self.flush_completed(handle, flush_outcome) {
            Ok(()) => work,
            Err(e) => Err(e),
        }
    }

    /// How to learn the property `property` of the device: from what is
    /// known already, or by asking the device.
    pub fn tpm_property_query(&self, property: PropertyTag) -> (query: PropertyQuery)
        ensures
            query == (match self@.properties.get(property.tag()) {
                Some(value) => PropertyQuery::Known(value),
                None => PropertyQuery::Ask {
                    capability: CapabilityType::TPMProperties,
                    property: property.tag(),
                    count: PROPERTIES_PER_QUERY,
                },
            }),
    {
        let tag: u32 = property.into();
        match self.cached_tpm_properties.get(&tag) {
            Some(value) => PropertyQuery::Known(*value),
            None => PropertyQuery::Ask {
                capability: CapabilityType::TPMProperties,
                property: tag,
                count: PROPERTIES_PER_QUERY,
            },
        }
    }

    /// Takes note of the answer of the device to a query for properties, and
    /// gives the value of `property`, or `None` if the device has no value
    /// for it.
    ///
    /// A refusal of the device is handed on. An answer that holds anything
    /// but properties fails with `WrongValueFromTpm`. Either leaves what is
    /// known as it is.
    pub fn tpm_properties_fetched(
        &mut self,
        property: PropertyTag,
        answer: Result<CapabilityData, Error>,
    ) -> (r: Result<Option<u32>, Error>)
        ensures
            final(self).spec_channel() == old(self).spec_channel(),
            final(self)@ == (ContextView {
                properties: match answer {
                    Ok(CapabilityData::TPMProperties(reported)) => with_properties(
                        old(self)@.properties,
                        reported@,
                    ),
                    _ => old(self)@.properties,
                },
                ..old(self)@
            }),
            r == (match answer {
                Err(e) => Err::<Option<u32>, Error>(e),
                Ok(CapabilityData::TPMProperties(_)) => Ok(
                    final(self)@.properties.get(property.tag()),
                ),
                Ok(_) => Err(Error::WrapperError(WrapperErrorKind::WrongValueFromTpm)),
            }),
    {
        let reported = match answer {
            Err(e) => {
                return Err(e);
            },
            Ok(CapabilityData::TPMProperties(reported)) => reported,
            Ok(_) => {
                return Err(Error::local_error(WrapperErrorKind::WrongValueFromTpm));
            },
        };
        let ghost known = self.cached_tpm_properties@;
        let mut i: usize = 0;
        proof {
            assert(reported@.take(0) =~= Seq::<TaggedProperty>::empty());
        }
        while i < reported.len()
            invariant
                i <= reported@.len(),
                self.channel == old(self).channel,
                self.sessions == old(self).sessions,
                self.handle_manager == old(self).handle_manager,
                self.torn_down == old(self).torn_down,
                self.cached_tpm_properties@ == with_properties(known, reported@.take(i as int)),
            decreases reported@.len() - i,
        {
            proof {
                assert(reported@.take(i + 1).drop_last() =~= reported@.take(i as int));
                assert(reported@.take(i + 1).last() == reported@[i as int]);
            }
            let entry = reported[i];
            if PropertyTag::try_from(entry.property).is_ok() {
                let _ = self.cached_tpm_properties.insert(entry.property, entry.value);
            }
            i += 1;
        }
        proof {
            assert(reported@.take(reported@.len() as int) =~= reported@);
        }
        let tag: u32 = property.into();
        match self.cached_tpm_properties.get(&tag) {
            Some(value) => Ok(Some(*value)),
            None => Ok(None),
        }
    }
}

/// The handles that are registered after the answer `outcome` to a command
/// that releases `handle` in the way of `disposition`: without that handle
/// where it has been released, as before where it has not.
pub open spec fn after_release(
    handles: Seq<TrackedHandle>,
    handle: ObjectHandle,
    disposition: HandleDisposition,
    outcome: Result<(), Error>,
) -> Seq<TrackedHandle> {
    if release_refusal(handles, handle, disposition, outcome) is None {
        without(handles, handle)
    } else {
        handles
    }
}

/// Why a handle stays registered after the answer `outcome` to a command that
/// releases `handle` in the way of `disposition`, if it does: the command
/// was refused, or else what was released is not registered with that
/// disposition, which is an `InvalidParam`.
pub open spec fn release_refusal(
    handles: Seq<TrackedHandle>,
    handle: ObjectHandle,
    disposition: HandleDisposition,
    outcome: Result<(), Error>,
) -> Option<Error> {
    match outcome {
        Err(e) => Some(e),
        Ok(_) => if disposition_of(handles, handle) == Some(disposition) {
            None
        } else {
            Some(Error::WrapperError(WrapperErrorKind::InvalidParam))
        },
    }
}

} // verus!
