//! The slots of a PCR bank by name.
use vstd::prelude::*;
use vstd::std_specs::convert::TryFromSpecImpl;
use crate::error::{Error, WrapperErrorKind};

verus! {

/// Number of slots that a PCR bank has.
pub const PCR_SLOT_COUNT: u32 = 24;

/// One of the twenty-four slots of a PCR bank.
#[derive(Clone, Copy, Debug, PartialEq, Eq, Hash, Structural)]
pub enum PcrSlot {
    Slot0,
    Slot1,
    Slot2,
    Slot3,
    Slot4,
    Slot5,
    Slot6,
    Slot7,
    Slot8,
    Slot9,
    Slot10,
    Slot11,
    Slot12,
    Slot13,
    Slot14,
    Slot15,
    Slot16,
    Slot17,
    Slot18,
    Slot19,
    Slot20,
    Slot21,
    Slot22,
    Slot23,
}

impl PcrSlot {
    /// The number of the slot, from 0 to 23.
    pub open spec fn index(self) -> nat {
        match self {
            PcrSlot::Slot0 => 0,
            PcrSlot::Slot1 => 1,
            PcrSlot::Slot2 => 2,
            PcrSlot::Slot3 => 3,
            PcrSlot::Slot4 => 4,
            PcrSlot::Slot5 => 5,
            PcrSlot::Slot6 => 6,
            PcrSlot::Slot7 => 7,
            PcrSlot::Slot8 => 8,
            PcrSlot::Slot9 => 9,
            PcrSlot::Slot10 => 10,
            PcrSlot::Slot11 => 11,
            PcrSlot::Slot12 => 12,
            PcrSlot::Slot13 => 13,
            PcrSlot::Slot14 => 14,
            PcrSlot::Slot15 => 15,
            PcrSlot::Slot16 => 16,
            PcrSlot::Slot17 => 17,
            PcrSlot::Slot18 => 18,
            PcrSlot::Slot19 => 19,
            PcrSlot::Slot20 => 20,
            PcrSlot::Slot21 => 21,
            PcrSlot::Slot22 => 22,
            PcrSlot::Slot23 => 23,
        }
    }

    /// The slot with the number `index`; slot 23 for a number that no slot has.
    pub open spec fn at(index: nat) -> PcrSlot {
        if index == 0 {
            PcrSlot::Slot0
        } else if index == 1 {
            PcrSlot::Slot1
        } else if index == 2 {
            PcrSlot::Slot2
        } else if index == 3 {
            PcrSlot::Slot3
        } else if index == 4 {
            PcrSlot::Slot4
        } else if index == 5 {
            PcrSlot::Slot5
        } else if index == 6 {
            PcrSlot::Slot6
        } else if index == 7 {
            PcrSlot::Slot7
        } else if index == 8 {
            PcrSlot::Slot8
        } else if index == 9 {
            PcrSlot::Slot9
        } else if index == 10 {
            PcrSlot::Slot10
        } else if index == 11 {
            PcrSlot::Slot11
        } else if index == 12 {
            PcrSlot::Slot12
        } else if index == 13 {
            PcrSlot::Slot13
        } else if index == 14 {
            PcrSlot::Slot14
        } else if index == 15 {
            PcrSlot::Slot15
        } else if index == 16 {
            PcrSlot::Slot16
        } else if index == 17 {
            PcrSlot::Slot17
        } else if index == 18 {
            PcrSlot::Slot18
        } else if index == 19 {
            PcrSlot::Slot19
        } else if index == 20 {
            PcrSlot::Slot20
        } else if index == 21 {
            PcrSlot::Slot21
        } else if index == 22 {
            PcrSlot::Slot22
        } else {
            PcrSlot::Slot23
        }
    }

    /// The number of the slot, from 0 to 23.
    pub fn number(self) -> (number: u32)
        ensures
            number == self.index(),
            number < PCR_SLOT_COUNT,
    {
        match self {
            PcrSlot::Slot0 => 0,
            PcrSlot::Slot1 => 1,
            PcrSlot::Slot2 => 2,
            PcrSlot::Slot3 => 3,
            PcrSlot::Slot4 => 4,
            PcrSlot::Slot5 => 5,
            PcrSlot::Slot6 => 6,
            PcrSlot::Slot7 => 7,
            PcrSlot::Slot8 => 8,
            PcrSlot::Slot9 => 9,
            PcrSlot::Slot10 => 10,
            PcrSlot::Slot11 => 11,
            PcrSlot::Slot12 => 12,
            PcrSlot::Slot13 => 13,
            PcrSlot::Slot14 => 14,
            PcrSlot::Slot15 => 15,
            PcrSlot::Slot16 => 16,
            PcrSlot::Slot17 => 17,
            PcrSlot::Slot18 => 18,
            PcrSlot::Slot19 => 19,
            PcrSlot::Slot20 => 20,
            PcrSlot::Slot21 => 21,
            PcrSlot::Slot22 => 22,
            PcrSlot::Slot23 => 23,
        }
    }

    /// Slots and the numbers below 24 correspond one to one.
    pub proof fn lemma_index_at()
        ensures
            forall|slot: PcrSlot| #[trigger] slot.index() < PCR_SLOT_COUNT,
            forall|slot: PcrSlot| #[trigger] Self::at(slot.index()) == slot,
            forall|index: nat|
                index < PCR_SLOT_COUNT ==> #[trigger] Self::at(index).index() == index,
    {
    }
}

impl TryFrom<u32> for PcrSlot {
    type Error = Error;

    fn try_from(pcr_slot_number: u32) -> (r: Result<PcrSlot, Error>) {
        match pcr_slot_number {
            0 => Ok(PcrSlot::Slot0),
            1 => Ok(PcrSlot::Slot1),
            2 => Ok(PcrSlot::Slot2),
            3 => Ok(PcrSlot::Slot3),
            4 => Ok(PcrSlot::Slot4),
            5 => Ok(PcrSlot::Slot5),
            6 => Ok(PcrSlot::Slot6),
            7 => Ok(PcrSlot::Slot7),
            8 => Ok(PcrSlot::Slot8),
            9 => Ok(PcrSlot::Slot9),
            10 => Ok(PcrSlot::Slot10),
            11 => Ok(PcrSlot::Slot11),
            12 => Ok(PcrSlot::Slot12),
            13 => Ok(PcrSlot::Slot13),
            14 => Ok(PcrSlot::Slot14),
            15 => Ok(PcrSlot::Slot15),
            16 => Ok(PcrSlot::Slot16),
            17 => Ok(PcrSlot::Slot17),
            18 => Ok(PcrSlot::Slot18),
            19 => Ok(PcrSlot::Slot19),
            20 => Ok(PcrSlot::Slot20),
            21 => Ok(PcrSlot::Slot21),
            22 => Ok(PcrSlot::Slot22),
            23 => Ok(PcrSlot::Slot23),
            _ => Err(Error::local_error(WrapperErrorKind::InvalidParam)),
        }
    }
}

/// A number below 24 converts to the slot with that number; any other number
/// is refused with `InvalidParam`.
impl TryFromSpecImpl<u32> for PcrSlot {
    open spec fn obeys_try_from_spec() -> bool {
        true
    }

    open spec fn try_from_spec(pcr_slot_number: u32) -> Result<PcrSlot, Error> {
        if pcr_slot_number < PCR_SLOT_COUNT {
            Ok(PcrSlot::at(pcr_slot_number as nat))
        } else {
            Err(Error::WrapperError(WrapperErrorKind::InvalidParam))
        }
    }
}

} // verus!
