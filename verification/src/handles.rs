//! Handles of the resources of the device, and the sessions that commands run under.
use vstd::prelude::*;
use vstd::std_specs::convert::FromSpecImpl;
use crate::constants::{ESYS_TR_NONE, ESYS_TR_PASSWORD, ESYS_TR_RH_NULL};

verus! {

/// The handle that the command interface knows a resource of the device by.
#[derive(Clone, Copy, Debug, PartialEq, Eq, Hash, Structural)]
pub struct ObjectHandle(pub u32);

impl ObjectHandle {
    /// Whether the handle stands for "no resource" or for the null hierarchy,
    /// neither of which can be released.
    pub open spec fn spec_is_placeholder(self) -> bool {
        self.0 == ESYS_TR_NONE || self.0 == ESYS_TR_RH_NULL
    }

    /// Whether the handle stands for "no resource" or for the null hierarchy,
    /// neither of which can be released.
    #[verifier::when_used_as_spec(spec_is_placeholder)]
    pub fn is_placeholder(self) -> (placeholder: bool)
        ensures
            placeholder == self.spec_is_placeholder(),
    {
        self.0 == ESYS_TR_NONE || self.0 == ESYS_TR_RH_NULL
    }
}

impl From<u32> for ObjectHandle {
    fn from(value: u32) -> (handle: ObjectHandle) {
        ObjectHandle(value)
    }
}

impl FromSpecImpl<u32> for ObjectHandle {
    open spec fn obeys_from_spec() -> bool {
        true
    }

    open spec fn from_spec(value: u32) -> ObjectHandle {
        ObjectHandle(value)
    }
}

impl From<ObjectHandle> for u32 {
    fn from(handle: ObjectHandle) -> (value: u32) {
        handle.0
    }
}

impl FromSpecImpl<ObjectHandle> for u32 {
    open spec fn obeys_from_spec() -> bool {
        true
    }

    open spec fn from_spec(handle: ObjectHandle) -> u32 {
        handle.0
    }
}

/// The kinds of authorization sessions that the device can start.
#[derive(Clone, Copy, Debug, PartialEq, Eq, Hash, Structural)]
pub enum SessionType {
    Hmac,
    Policy,
    Trial,
}

/// A session that a command can run under: the password pseudo-session, or
/// a session of the device with its handle.
#[derive(Clone, Copy, Debug, PartialEq, Eq, Hash, Structural)]
pub enum Session {
    Password,
    Hmac(ObjectHandle),
    Policy(ObjectHandle),
    Trial(ObjectHandle),
}

impl Session {
    /// The handle of the session.
    pub open spec fn spec_handle(self) -> ObjectHandle {
        match self {
            Session::Password => ObjectHandle(ESYS_TR_PASSWORD),
            Session::Hmac(handle) => handle,
            Session::Policy(handle) => handle,
            Session::Trial(handle) => handle,
        }
    }

    /// The handle that a command is given for a session slot: that of the
    /// session, or "no resource" for an empty slot.
    pub open spec fn spec_handle_from_option(session: Option<Session>) -> ObjectHandle {
        match session {
            Some(session) => session.spec_handle(),
            None => ObjectHandle(ESYS_TR_NONE),
        }
    }

    /// The handle of the session.
    #[verifier::when_used_as_spec(spec_handle)]
    pub fn handle(self) -> (handle: ObjectHandle)
        ensures
            handle == self.spec_handle(),
    {
        match self {
            Session::Password => ObjectHandle(ESYS_TR_PASSWORD),
            Session::Hmac(handle) => handle,
            Session::Policy(handle) => handle,
            Session::Trial(handle) => handle,
        }
    }

    /// The handle that a command is given for a session slot: that of the
    /// session, or "no resource" for an empty slot.
    #[verifier::when_used_as_spec(spec_handle_from_option)]
    pub fn handle_from_option(session: Option<Session>) -> (handle: ObjectHandle)
        ensures
            handle == Self::spec_handle_from_option(session),
    {
        match session {
            Some(session) => session.handle(),
            None => ObjectHandle(ESYS_TR_NONE),
        }
    }
}

} // verus!
