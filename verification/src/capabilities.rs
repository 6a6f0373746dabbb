//! What the device can be asked about itself.
use vstd::prelude::*;
use vstd::std_specs::convert::{FromSpecImpl, TryFromSpecImpl};
use crate::constants::TPM2_CAP_TPM_PROPERTIES;
use crate::error::{Error, WrapperErrorKind};

verus! {

/// The groups of capabilities that this layer asks the device for.
#[derive(Clone, Copy, Debug, PartialEq, Eq, Hash, Structural)]
pub enum CapabilityType {
    /// The properties of the device.
    TPMProperties,
}

impl CapabilityType {
    /// The selector that the device knows the group by.
    pub open spec fn selector(self) -> u32 {
        match self {
            CapabilityType::TPMProperties => TPM2_CAP_TPM_PROPERTIES,
        }
    }
}

impl From<CapabilityType> for u32 {
    fn from(capability: CapabilityType) -> (selector: u32) {
        match capability {
            CapabilityType::TPMProperties => TPM2_CAP_TPM_PROPERTIES,
        }
    }
}

impl FromSpecImpl<CapabilityType> for u32 {
    open spec fn obeys_from_spec() -> bool {
        true
    }

    open spec fn from_spec(capability: CapabilityType) -> u32 {
        capability.selector()
    }
}

/// The properties of the device that this layer knows by name.
#[derive(Clone, Copy, Debug, PartialEq, Eq, Hash, Structural)]
pub enum PropertyTag {
    /// The family of the TPM standard that the device follows, as four characters.
    FamilyIndicator,
    /// The level of that standard.
    Level,
    /// The revision of that standard, times one hundred.
    Revision,
    /// The day of the year on which that revision was issued.
    DayOfYear,
    /// The year in which that revision was issued.
    Year,
    /// The identifier of the vendor.
    Manufacturer,
    /// The largest input buffer, in octets.
    InputBuffer,
    /// The least number of transient objects that fit.
    HrTransientMin,
    /// The least number of sessions that fit.
    HrLoadedMin,
    /// The most sessions that can be active.
    ActiveSessionsMax,
    /// The number of PCR slots.
    PcrCount,
    /// The least number of octets in a PCR selection.
    PcrSelectMin,
    /// The largest digest, in octets.
    MaxDigest,
    /// The permanent attributes.
    Permanent,
    /// The attributes that a startup resets.
    StartupClear,
    /// The number of sessions that are loaded.
    HrLoaded,
    /// An estimate of the transient objects that still fit.
    HrTransientAvail,
}

impl PropertyTag {
    /// The tag that the device knows the property by.
    pub open spec fn tag(self) -> u32 {
        match self {
            PropertyTag::FamilyIndicator => 0x100,
            PropertyTag::Level => 0x101,
            PropertyTag::Revision => 0x102,
            PropertyTag::DayOfYear => 0x103,
            PropertyTag::Year => 0x104,
            PropertyTag::Manufacturer => 0x105,
            PropertyTag::InputBuffer => 0x10d,
            PropertyTag::HrTransientMin => 0x10e,
            PropertyTag::HrLoadedMin => 0x110,
            PropertyTag::ActiveSessionsMax => 0x111,
            PropertyTag::PcrCount => 0x112,
            PropertyTag::PcrSelectMin => 0x113,
            PropertyTag::MaxDigest => 0x120,
            PropertyTag::Permanent => 0x200,
            PropertyTag::StartupClear => 0x201,
            PropertyTag::HrLoaded => 0x204,
            PropertyTag::HrTransientAvail => 0x207,
        }
    }

    /// The property with the tag `value`, where this layer knows one.
    pub open spec fn from_tag(value: u32) -> Option<PropertyTag> {
        if value == 0x100 {
            Some(PropertyTag::FamilyIndicator)
        } else if value == 0x101 {
            Some(PropertyTag::Level)
        } else if value == 0x102 {
            Some(PropertyTag::Revision)
        } else if value == 0x103 {
            Some(PropertyTag::DayOfYear)
        } else if value == 0x104 {
            Some(PropertyTag::Year)
        } else if value == 0x105 {
            Some(PropertyTag::Manufacturer)
        } else if value == 0x10d {
            Some(PropertyTag::InputBuffer)
        } else if value == 0x10e {
            Some(PropertyTag::HrTransientMin)
        } else if value == 0x110 {
            Some(PropertyTag::HrLoadedMin)
        } else if value == 0x111 {
            Some(PropertyTag::ActiveSessionsMax)
        } else if value == 0x112 {
            Some(PropertyTag::PcrCount)
        } else if value == 0x113 {
            Some(PropertyTag::PcrSelectMin)
        } else if value == 0x120 {
            Some(PropertyTag::MaxDigest)
        } else if value == 0x200 {
            Some(PropertyTag::Permanent)
        } else if value == 0x201 {
            Some(PropertyTag::StartupClear)
        } else if value == 0x204 {
            Some(PropertyTag::HrLoaded)
        } else if value == 0x207 {
            Some(PropertyTag::HrTransientAvail)
        } else {
            None
        }
    }

    /// `from_tag` inverts `tag`.
    pub proof fn lemma_tag_round_trip(self)
        ensures
            Self::from_tag(self.tag()) == Some(self),
    {
    }
}

impl From<PropertyTag> for u32 {
    fn from(property: PropertyTag) -> (tag: u32) {
        match property {
            PropertyTag::FamilyIndicator => 0x100,
            PropertyTag::Level => 0x101,
            PropertyTag::Revision => 0x102,
            PropertyTag::DayOfYear => 0x103,
            PropertyTag::Year => 0x104,
            PropertyTag::Manufacturer => 0x105,
            PropertyTag::InputBuffer => 0x10d,
            PropertyTag::HrTransientMin => 0x10e,
            PropertyTag::HrLoadedMin => 0x110,
            PropertyTag::ActiveSessionsMax => 0x111,
            PropertyTag::PcrCount => 0x112,
            PropertyTag::PcrSelectMin => 0x113,
            PropertyTag::MaxDigest => 0x120,
            PropertyTag::Permanent => 0x200,
            PropertyTag::StartupClear => 0x201,
            PropertyTag::HrLoaded => 0x204,
            PropertyTag::HrTransientAvail => 0x207,
        }
    }
}

impl FromSpecImpl<PropertyTag> for u32 {
    open spec fn obeys_from_spec() -> bool {
        true
    }

    open spec fn from_spec(property: PropertyTag) -> u32 {
        property.tag()
    }
}

impl TryFrom<u32> for PropertyTag {
    type Error = Error;

    fn try_from(value: u32) -> (r: Result<PropertyTag, Error>) {
        match value {
            0x100 => Ok(PropertyTag::FamilyIndicator),
            0x101 => Ok(PropertyTag::Level),
            0x102 => Ok(PropertyTag::Revision),
            0x103 => Ok(PropertyTag::DayOfYear),
            0x104 => Ok(PropertyTag::Year),
            0x105 => Ok(PropertyTag::Manufacturer),
            0x10d => Ok(PropertyTag::InputBuffer),
            0x10e => Ok(PropertyTag::HrTransientMin),
            0x110 => Ok(PropertyTag::HrLoadedMin),
            0x111 => Ok(PropertyTag::ActiveSessionsMax),
            0x112 => Ok(PropertyTag::PcrCount),
            0x113 => Ok(PropertyTag::PcrSelectMin),
            0x120 => Ok(PropertyTag::MaxDigest),
            0x200 => Ok(PropertyTag::Permanent),
            0x201 => Ok(PropertyTag::StartupClear),
            0x204 => Ok(PropertyTag::HrLoaded),
            0x207 => Ok(PropertyTag::HrTransientAvail),
            _ => Err(Error::local_error(WrapperErrorKind::InvalidParam)),
        }
    }
}

/// The tag of a property that this layer knows converts to that property;
/// any other number is refused with `InvalidParam`.
impl TryFromSpecImpl<u32> for PropertyTag {
    open spec fn obeys_try_from_spec() -> bool {
        true
    }

    open spec fn try_from_spec(value: u32) -> Result<PropertyTag, Error> {
        match Self::from_tag(value) {
            Some(property) => Ok(property),
            None => Err(Error::WrapperError(WrapperErrorKind::InvalidParam)),
        }
    }
}

/// A property of the device as the device reports it: the tag and the value.
#[derive(Clone, Copy, Debug, PartialEq, Eq, Hash, Structural)]
pub struct TaggedProperty {
    pub property: u32,
    pub value: u32,
}

/// What the device answers when it is asked for capabilities.
#[derive(Debug, PartialEq, Eq)]
pub enum CapabilityData {
    /// Algorithms with their attributes.
    Algorithms(Vec<(u16, u32)>),
    /// Handles.
    Handles(Vec<u32>),
    /// Command codes.
    Commands(Vec<u32>),
    /// Properties of the device.
    TPMProperties(Vec<TaggedProperty>),
}

} // verus!
