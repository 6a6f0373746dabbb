//! Errors raised by this layer, kept apart from the status codes of the device.
use vstd::prelude::*;

verus! {

/// The reasons for which this layer refuses a request before it reaches the device.
#[derive(Clone, Copy, Debug, PartialEq, Eq, Hash, Structural)]
pub enum WrapperErrorKind {
    /// A buffer is larger than the fixed capacity of the structure that holds it.
    WrongParamSize,
    /// A mandatory field was never set.
    ParamsMissing,
    /// Fields that are valid one by one do not fit together.
    InconsistentParams,
    /// The value is well formed but this layer does not implement it.
    UnsupportedParam,
    /// An index is outside its domain, or a structural count is malformed.
    InvalidParam,
    /// The device answered with a value that the command cannot have produced.
    WrongValueFromTpm,
    /// A command needs a session in a slot that is empty.
    MissingAuthSession,
}

/// Either a refusal of this layer or a status code that the device reported.
#[derive(Clone, Copy, Debug, PartialEq, Eq, Hash, Structural)]
pub enum Error {
    /// This layer refused the request.
    WrapperError(WrapperErrorKind),
    /// The device refused the command; the payload is its response code.
    Tss2Error(u32),
}

impl Error {
    /// An error of this layer with the given kind.
    pub fn local_error(kind: WrapperErrorKind) -> (e: Error)
        ensures
            e == Error::WrapperError(kind),
    {
        Error::WrapperError(kind)
    }

    /// Wraps a response code of the device, the code `0` (success) included.
    pub fn from_tss_rc(rc: u32) -> (e: Error)
        ensures
            e == Error::Tss2Error(rc),
    {
        Error::Tss2Error(rc)
    }

    /// Whether this value stands for the response code of a command that succeeded.
    pub open spec fn spec_is_success(self) -> bool {
        self == Error::Tss2Error(0)
    }

    /// Whether this value stands for the response code of a command that succeeded.
    #[verifier::when_used_as_spec(spec_is_success)]
    pub fn is_success(self) -> (b: bool)
        ensures
            b == self.spec_is_success(),
    {
        match self {
            Error::Tss2Error(rc) => rc == 0,
            Error::WrapperError(_) => false,
        }
    }

    /// The kind of a local error, `None` for a status code of the device.
    pub fn kind(self) -> (k: Option<WrapperErrorKind>)
        ensures
            k == (match self {
                Error::WrapperError(kind) => Some(kind),
                Error::Tss2Error(_) => None,
            }),
    {
        match self {
            Error::WrapperError(kind) => Some(kind),
            Error::Tss2Error(_) => None,
        }
    }
}

} // verus!
