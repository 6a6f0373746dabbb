//! The selection of slots in one PCR bank.
use vstd::prelude::*;
use vstd::std_specs::convert::{FromSpecImpl, TryFromSpecImpl};
use crate::algorithm::HashingAlgorithm;
use crate::error::{Error, WrapperErrorKind};
use crate::pcr::mask::{
    fits_width, has_bit, lemma_bits_of_operations, lemma_bits_of_width_mask,
    lemma_fits_width_by_bits, lemma_fits_width_slots, lemma_slots_determine_mask,
    lemma_slots_finite, lemma_slots_of_difference, lemma_slots_of_union, lemma_slots_of_zero,
    lemma_slots_subset, mask_from_octets, mask_of_slots, octet_bit, octets_of, selects, slot_fits,
    slots_of, width_mask_of,
};
use crate::pcr::slot::{PcrSlot, PCR_SLOT_COUNT};
use crate::tss2_esys::TPMS_PCR_SELECTION;

verus! {

/// The number of octets that the mask of a selection occupies.
#[derive(Clone, Copy, Debug, PartialEq, Eq, Hash, Structural)]
pub enum PcrSelectSize {
    OneByte,
    TwoBytes,
    ThreeBytes,
    FourBytes,
}

impl PcrSelectSize {
    /// The number of octets.
    pub open spec fn octets(self) -> nat {
        match self {
            PcrSelectSize::OneByte => 1,
            PcrSelectSize::TwoBytes => 2,
            PcrSelectSize::ThreeBytes => 3,
            PcrSelectSize::FourBytes => 4,
        }
    }

    /// The size of `octets` octets, where there is one.
    pub open spec fn from_octets(octets: nat) -> Option<PcrSelectSize> {
        if octets == 1 {
            Some(PcrSelectSize::OneByte)
        } else if octets == 2 {
            Some(PcrSelectSize::TwoBytes)
        } else if octets == 3 {
            Some(PcrSelectSize::ThreeBytes)
        } else if octets == 4 {
            Some(PcrSelectSize::FourBytes)
        } else {
            None
        }
    }
}

impl Default for PcrSelectSize {
    /// Three octets: the size that holds the twenty-four slots of a bank.
    fn default() -> (size: Self)
        ensures
            size == PcrSelectSize::ThreeBytes,
    {
        PcrSelectSize::ThreeBytes
    }
}

impl From<PcrSelectSize> for u8 {
    fn from(size: PcrSelectSize) -> (octets: u8) {
        match size {
            PcrSelectSize::OneByte => 1,
            PcrSelectSize::TwoBytes => 2,
            PcrSelectSize::ThreeBytes => 3,
            PcrSelectSize::FourBytes => 4,
        }
    }
}

impl FromSpecImpl<PcrSelectSize> for u8 {
    open spec fn obeys_from_spec() -> bool {
        true
    }

    open spec fn from_spec(size: PcrSelectSize) -> u8 {
        size.octets() as u8
    }
}

impl TryFrom<u8> for PcrSelectSize {
    type Error = Error;

    fn try_from(octets: u8) -> (r: Result<PcrSelectSize, Error>) {
        match octets {
            1 => Ok(PcrSelectSize::OneByte),
            2 => Ok(PcrSelectSize::TwoBytes),
            3 => Ok(PcrSelectSize::ThreeBytes),
            4 => Ok(PcrSelectSize::FourBytes),
            _ => Err(Error::local_error(WrapperErrorKind::InvalidParam)),
        }
    }
}

/// One to four octets convert to the size of that many octets; any other
/// number is refused with `InvalidParam`.
impl TryFromSpecImpl<u8> for PcrSelectSize {
    open spec fn obeys_try_from_spec() -> bool {
        true
    }

    open spec fn try_from_spec(octets: u8) -> Result<PcrSelectSize, Error> {
        match Self::from_octets(octets as nat) {
            Some(size) => Ok(size),
            None => Err(Error::WrapperError(WrapperErrorKind::InvalidParam)),
        }
    }
}

/// What a selection in one bank is: the hash algorithm of the bank, the
/// width of the mask, and the set of slots that are selected.
pub ghost struct PcrSelectionView {
    pub hashing_algorithm: HashingAlgorithm,
    pub size_of_select: PcrSelectSize,
    pub selected: Set<PcrSlot>,
}

impl PcrSelectionView {
    /// Every selected slot has its place in a mask of the selection's width.
    pub open spec fn wf(self) -> bool {
        forall|slot: PcrSlot| #[trigger]
            self.selected.contains(slot) ==> slot_fits(slot, self.size_of_select.octets())
    }

    /// Why `other` cannot be merged into this selection, if it cannot: the
    /// two are of different banks or of different widths.
    pub open spec fn merge_error(self, other: PcrSelectionView) -> Option<WrapperErrorKind> {
        if self.hashing_algorithm != other.hashing_algorithm || self.size_of_select
            != other.size_of_select {
            Some(WrapperErrorKind::InconsistentParams)
        } else {
            None
        }
    }

    /// This selection with the slots of `other` added.
    pub open spec fn merged(self, other: PcrSelectionView) -> PcrSelectionView {
        PcrSelectionView { selected: self.selected.union(other.selected), ..self }
    }

    /// Why `other` cannot be subtracted from this selection, if it cannot:
    /// the two are of different banks or of different widths, or else `other`
    /// selects a slot that this selection does not.
    pub open spec fn subtract_error(self, other: PcrSelectionView) -> Option<WrapperErrorKind> {
        if self.hashing_algorithm != other.hashing_algorithm || self.size_of_select
            != other.size_of_select {
            Some(WrapperErrorKind::InconsistentParams)
        } else if !other.selected.subset_of(self.selected) {
            Some(WrapperErrorKind::InvalidParam)
        } else {
            None
        }
    }

    /// This selection without the slots of `other`.
    pub open spec fn subtracted(self, other: PcrSelectionView) -> PcrSelectionView {
        PcrSelectionView { selected: self.selected.difference(other.selected), ..self }
    }

    /// This selection in a mask of `size_of_select` octets: the slots that
    /// such a mask has a place for.
    pub open spec fn narrowed(self, size_of_select: PcrSelectSize) -> PcrSelectionView {
        PcrSelectionView {
            hashing_algorithm: self.hashing_algorithm,
            size_of_select,
            selected: self.selected.filter(
                |slot: PcrSlot| slot_fits(slot, size_of_select.octets()),
            ),
        }
    }

    /// Whether `tss` is this selection as the device takes it: the identifier
    /// of the hash algorithm, the width in octets, and a mask in which bit
    /// `i % 8` of octet `i / 8` is set exactly for the selected slots `i`.
    pub open spec fn encoded_as(self, tss: TPMS_PCR_SELECTION) -> bool {
        &&& tss.hash == self.hashing_algorithm.alg_id()
        &&& tss.sizeofSelect == self.size_of_select.octets()
        &&& forall|slot: PcrSlot| #[trigger]
            self.selected.contains(slot) <==> octet_bit(tss.pcrSelect@, slot.index())
        &&& forall|index: nat|
            PCR_SLOT_COUNT <= index < 32 ==> !#[trigger] octet_bit(tss.pcrSelect@, index)
    }

    /// Whether `tss` can be read as a selection: it names a hash algorithm,
    /// its width is one to four octets, and within that width its mask has
    /// no bit that stands for no slot.
    pub open spec fn decodable(tss: TPMS_PCR_SELECTION) -> bool {
        &&& HashingAlgorithm::from_alg_id(tss.hash) is Some
        &&& PcrSelectSize::from_octets(tss.sizeofSelect as nat) is Some
        &&& forall|index: nat|
            PCR_SLOT_COUNT <= index < 8 * tss.sizeofSelect ==> !#[trigger] octet_bit(
                tss.pcrSelect@,
                index,
            )
    }

    /// The selection that a decodable `tss` stands for: the slots whose bit
    /// is set in the octets that count.
    pub open spec fn decoded(tss: TPMS_PCR_SELECTION) -> PcrSelectionView {
        PcrSelectionView {
            hashing_algorithm: HashingAlgorithm::from_alg_id(tss.hash)->0,
            size_of_select: PcrSelectSize::from_octets(tss.sizeofSelect as nat)->0,
            selected: Set::new(
                |slot: PcrSlot|
                    slot_fits(slot, tss.sizeofSelect as nat) && octet_bit(
                        tss.pcrSelect@,
                        slot.index(),
                    ),
            ),
        }
    }

    /// What is written can be read back: the encoding of a well-formed
    /// selection is decodable and stands for that selection.
    pub proof fn lemma_encoding_reads_back(self, tss: TPMS_PCR_SELECTION)
        requires
            self.wf(),
            self.encoded_as(tss),
        ensures
            Self::decodable(tss),
            Self::decoded(tss) == self,
    {
        HashingAlgorithm::lemma_alg_id_round_trip();
        PcrSlot::lemma_index_at();
        assert(Self::decoded(tss).selected =~= self.selected);
    }

    /// Merging does not depend on the order of the two selections: either
    /// each can be merged into the other, with the same outcome, or neither
    /// can, for the same reason.
    pub proof fn lemma_merge_commutative(self, other: PcrSelectionView)
        ensures
            self.merge_error(other) == other.merge_error(self),
            self.merge_error(other) is None ==> self.merged(other) == other.merged(self),
    {
        assert(self.selected.union(other.selected) =~= other.selected.union(self.selected));
    }

    /// Merging a selection with itself changes nothing, and merging a
    /// selection twice with another changes nothing beyond the first merge.
    pub proof fn lemma_merge_idempotent(self, other: PcrSelectionView)
        ensures
            self.merge_error(self) is None,
            self.merged(self) == self,
            self.merge_error(other) is None ==> self.merged(other).merge_error(other) is None
                && self.merged(other).merged(other) == self.merged(other),
    {
        assert(self.selected.union(self.selected) =~= self.selected);
        assert(self.selected.union(other.selected).union(other.selected) =~= self.selected.union(
            other.selected,
        ));
    }

    /// Merging keeps a well-formed selection well formed.
    pub proof fn lemma_merge_wf(self, other: PcrSelectionView)
        requires
            self.wf(),
            other.wf(),
            self.merge_error(other) is None,
        ensures
            self.merged(other).wf(),
    {
    }

    /// Subtracting a selection from itself leaves no slot selected.
    pub proof fn lemma_subtract_self(self)
        ensures
            self.subtract_error(self) is None,
            self.subtracted(self).selected == Set::<PcrSlot>::empty(),
    {
        assert(self.selected.difference(self.selected) =~= Set::<PcrSlot>::empty());
    }
}

/// The selection of slots in one PCR bank.
///
/// The slots are kept as a mask in which bit `i` stands for slot `i`. No bit
/// is set that has no place in a mask of `size_of_select` octets.
#[derive(Clone, Copy, Debug, PartialEq, Eq, Hash, Structural)]
pub struct PcrSelection {
    hashing_algorithm: HashingAlgorithm,
    size_of_select: PcrSelectSize,
    selected_pcrs: u32,
}

impl View for PcrSelection {
    type V = PcrSelectionView;

    closed spec fn view(&self) -> PcrSelectionView {
        PcrSelectionView {
            hashing_algorithm: self.hashing_algorithm,
            size_of_select: self.size_of_select,
            selected: slots_of(self.selected_pcrs),
        }
    }
}

impl PcrSelection {
    /// Whether the value is one that the functions of this type produce.
    #[verifier::type_invariant]
    pub closed spec fn wf(self) -> bool {
        fits_width(self.selected_pcrs, self.size_of_select.octets())
    }

    /// A well-formed selection is determined by what it is a selection of,
    /// and its slots fit its width and are finitely many.
    pub proof fn lemma_view_determines(self, other: PcrSelection)
        requires
            self.wf(),
            other.wf(),
        ensures
            self@.wf(),
            self@.selected.finite(),
            self@ == other@ ==> self == other,
    {
        lemma_slots_finite(self.selected_pcrs);
        lemma_fits_width_slots(self.selected_pcrs, self.size_of_select.octets());
        lemma_fits_width_slots(other.selected_pcrs, other.size_of_select.octets());
        if self@ == other@ {
            lemma_slots_determine_mask(self.selected_pcrs, other.selected_pcrs);
        }
    }

    /// The selection, in the bank of `hashing_algorithm` and with a mask of
    /// `size_of_select` octets, of those of `selected_pcr_slots` that such a
    /// mask has a place for.
    pub fn new(
        hashing_algorithm: HashingAlgorithm,
        size_of_select: PcrSelectSize,
        selected_pcr_slots: &[PcrSlot],
    ) -> (selection: PcrSelection)
        ensures
            selection.wf(),
            selection@ == (PcrSelectionView {
                hashing_algorithm,
                size_of_select,
                selected: selected_pcr_slots@.to_set().filter(
                    |slot: PcrSlot| slot_fits(slot, size_of_select.octets()),
                ),
            }),
    {
        let all = mask_of_slots(selected_pcr_slots);
        let width = width_mask_of(size_of_select.into());
        let mask = all & width;
        proof {
            let octets = size_of_select.octets();
            lemma_bits_of_operations();
            lemma_fits_width_by_bits(mask, octets);
            lemma_fits_width_by_bits(width, octets);
            lemma_bits_of_width_mask(octets);
            PcrSlot::lemma_index_at();
            assert forall|slot: PcrSlot| selects(mask, slot) <==> selects(all, slot) && slot_fits(
                slot,
                octets,
            ) by {
                let i = slot.index() as u32;
                assert(has_bit(all & width, i) <==> has_bit(all, i) && has_bit(width, i));
            }
            assert(slots_of(mask) =~= selected_pcr_slots@.to_set().filter(
                |slot: PcrSlot| slot_fits(slot, octets),
            ));
        }
        PcrSelection { hashing_algorithm, size_of_select, selected_pcrs: mask }
    }

    /// The selection in a mask of `size_of_select` octets: the slots that
    /// such a mask has a place for.
    pub fn narrowed(&self, size_of_select: PcrSelectSize) -> (selection: PcrSelection)
        ensures
            selection.wf(),
            selection@ == self@.narrowed(size_of_select),
    {
        let width = width_mask_of(size_of_select.into());
        let mask = self.selected_pcrs & width;
        proof {
            let octets = size_of_select.octets();
            lemma_bits_of_operations();
            lemma_fits_width_by_bits(mask, octets);
            lemma_bits_of_width_mask(octets);
            PcrSlot::lemma_index_at();
            assert forall|slot: PcrSlot|
                selects(mask, slot) <==> selects(self.selected_pcrs, slot) && slot_fits(
                    slot,
                    octets,
                ) by {
                let i = slot.index() as u32;
                assert(has_bit(self.selected_pcrs & width, i) <==> has_bit(self.selected_pcrs, i)
                    && has_bit(width, i));
            }
            assert(slots_of(mask) =~= self@.selected.filter(
                |slot: PcrSlot| slot_fits(slot, octets),
            ));
        }
        PcrSelection {
            hashing_algorithm: self.hashing_algorithm,
            size_of_select,
            selected_pcrs: mask,
        }
    }

    /// The selection without the slots that a mask of `octets` octets has no
    /// place for; the width of the selection itself stays.
    pub fn restricted(&self, octets: u8) -> (selection: PcrSelection)
        ensures
            selection.wf(),
            selection@ == (PcrSelectionView {
                selected: self@.selected.filter(|slot: PcrSlot| slot_fits(slot, octets as nat)),
                ..self@
            }),
    {
        proof {
            use_type_invariant(self);
        }
        let width = width_mask_of(octets);
        let mask = self.selected_pcrs & width;
        proof {
            lemma_bits_of_operations();
            lemma_fits_width_by_bits(self.selected_pcrs, self.size_of_select.octets());
            lemma_fits_width_by_bits(mask, self.size_of_select.octets());
            lemma_bits_of_width_mask(octets as nat);
            PcrSlot::lemma_index_at();
            assert forall|slot: PcrSlot|
                selects(mask, slot) <==> selects(self.selected_pcrs, slot) && slot_fits(
                    slot,
                    octets as nat,
                ) by {
                let i = slot.index() as u32;
                assert(has_bit(self.selected_pcrs & width, i) <==> has_bit(self.selected_pcrs, i)
                    && has_bit(width, i));
            }
            assert(slots_of(mask) =~= self@.selected.filter(
                |slot: PcrSlot| slot_fits(slot, octets as nat),
            ));
        }
        PcrSelection {
            hashing_algorithm: self.hashing_algorithm,
            size_of_select: self.size_of_select,
            selected_pcrs: mask,
        }
    }

    /// The hash algorithm of the bank.
    pub fn hashing_algorithm(&self) -> (algorithm: HashingAlgorithm)
        ensures
            algorithm == self@.hashing_algorithm,
    {
        self.hashing_algorithm
    }

    /// The width of the mask.
    pub fn size_of_select(&self) -> (size: PcrSelectSize)
        ensures
            size == self@.size_of_select,
    {
        self.size_of_select
    }

    /// Whether no slot is selected.
    pub fn is_empty(&self) -> (empty: bool)
        ensures
            empty == (self@.selected == Set::<PcrSlot>::empty()),
    {
        proof {
            use_type_invariant(self);
            lemma_fits_width_slots(self.selected_pcrs, self.size_of_select.octets());
            lemma_slots_of_zero(self.selected_pcrs);
        }
        self.selected_pcrs == 0
    }

    /// Whether `slot` is selected.
    pub fn is_selected(&self, slot: PcrSlot) -> (selected: bool)
        ensures
            selected == self@.selected.contains(slot),
    {
        (self.selected_pcrs >> slot.number()) & 1 == 1
    }

    /// The selected slots, by rising number.
    pub fn selected_slots(&self) -> (slots: Vec<PcrSlot>)
        ensures
            slots@.to_set() == self@.selected,
            forall|i: int, j: int|
                0 <= i < j < slots@.len() ==> slots@[i].index() < slots@[j].index(),
            slots@.len() == self@.selected.len(),
    {
        let mut slots: Vec<PcrSlot> = Vec::new();
        let mut number: u32 = 0;
        while number < PCR_SLOT_COUNT
            invariant
                number <= PCR_SLOT_COUNT,
                forall|k: int|
                    0 <= k < slots@.len() ==> selects(self.selected_pcrs, #[trigger] slots@[k])
                        && slots@[k].index() < number,
                forall|i: int, j: int|
                    0 <= i < j < slots@.len() ==> slots@[i].index() < slots@[j].index(),
                forall|slot: PcrSlot|
                    selects(self.selected_pcrs, slot) && slot.index() < number
                        ==> slots@.contains(slot),
            decreases PCR_SLOT_COUNT - number,
        {
            let ghost before = slots@;
            if (self.selected_pcrs >> number) & 1 == 1 {
                match PcrSlot::try_from(number) {
                    Ok(slot) => {
                        proof {
                            PcrSlot::lemma_index_at();
                        }
                        slots.push(slot);
                    },
                    Err(_) => {},
                }
            }
            proof {
                PcrSlot::lemma_index_at();
                assert forall|slot: PcrSlot|
                    selects(self.selected_pcrs, slot) && slot.index() < number
                        + 1 implies slots@.contains(slot) by {
                    if slot.index() < number {
                        assert(before.contains(slot));
                        let k = choose|k: int| 0 <= k < before.len() && before[k] == slot;
                        assert(slots@[k] == slot);
                    } else {
                        assert(PcrSlot::at(slot.index()) == slot);
                        assert(slots@[before.len() as int] == slot);
                    }
                }
            }
            number += 1;
        }
        proof {
            PcrSlot::lemma_index_at();
            assert forall|slot: PcrSlot|
                slots@.to_set().contains(slot) <==> self@.selected.contains(slot) by {
                if slots@.contains(slot) {
                    let k = choose|k: int| 0 <= k < slots@.len() && slots@[k] == slot;
                    assert(selects(self.selected_pcrs, slots@[k]));
                }
            }
            assert(slots@.to_set() =~= self@.selected);
            assert(slots@.no_duplicates());
            slots@.unique_seq_to_set();
        }
        slots
    }

    /// The number of selected slots.
    pub fn len(&self) -> (len: usize)
        ensures
            len == self@.selected.len(),
    {
        self.selected_slots().len()
    }

    /// Adds the slots of `other`, a selection in the same bank and of the
    /// same width.
    ///
    /// Fails with `InconsistentParams`, and changes nothing, if `other` is of
    /// another bank or of another width.
    pub fn merge(&mut self, other: &PcrSelection) -> (r: Result<(), Error>)
        ensures
            final(self).wf(),
            match r {
                Ok(()) => old(self)@.merge_error(other@) is None && final(self)@ == old(
                    self,
                )@.merged(other@),
                Err(e) => old(self)@.merge_error(other@) == Some(e->WrapperError_0)
                    && e is WrapperError && *final(self) == *old(self),
            },
    {
        proof {
            use_type_invariant(&*self);
            use_type_invariant(other);
        }
        if self.hashing_algorithm != other.hashing_algorithm {
            return Err(Error::local_error(WrapperErrorKind::InconsistentParams));
        }
        if self.size_of_select != other.size_of_select {
            return Err(Error::local_error(WrapperErrorKind::InconsistentParams));
        }
        proof {
            let octets = self.size_of_select.octets();
            lemma_slots_of_union(self.selected_pcrs, other.selected_pcrs);
            lemma_bits_of_operations();
            lemma_fits_width_by_bits(self.selected_pcrs, octets);
            lemma_fits_width_by_bits(other.selected_pcrs, octets);
            lemma_fits_width_by_bits(self.selected_pcrs | other.selected_pcrs, octets);
        }
        self.selected_pcrs = self.selected_pcrs | other.selected_pcrs;
        Ok(())
    }

    /// Removes the slots of `other`, a selection in the same bank and of the
    /// same width that selects nothing that this selection does not.
    ///
    /// Fails with `InconsistentParams` if `other` is of another bank or of
    /// another width, and with `InvalidParam` if `other` selects a slot that
    /// this selection does not. A call that fails changes nothing.
    pub fn subtract(&mut self, other: &PcrSelection) -> (r: Result<(), Error>)
        ensures
            final(self).wf(),
            match r {
                Ok(()) => old(self)@.subtract_error(other@) is None && final(self)@ == old(
                    self,
                )@.subtracted(other@),
                Err(e) => old(self)@.subtract_error(other@) == Some(e->WrapperError_0)
                    && e is WrapperError && *final(self) == *old(self),
            },
    {
        proof {
            use_type_invariant(&*self);
            use_type_invariant(other);
        }
        if self.hashing_algorithm != other.hashing_algorithm {
            return Err(Error::local_error(WrapperErrorKind::InconsistentParams));
        }
        if self.size_of_select != other.size_of_select {
            return Err(Error::local_error(WrapperErrorKind::InconsistentParams));
        }
        proof {
            let octets = self.size_of_select.octets();
            lemma_fits_width_slots(self.selected_pcrs, octets);
            lemma_fits_width_slots(other.selected_pcrs, octets);
            lemma_slots_subset(self.selected_pcrs, other.selected_pcrs);
        }
        if self.selected_pcrs & other.selected_pcrs != other.selected_pcrs {
            return Err(Error::local_error(WrapperErrorKind::InvalidParam));
        }
        proof {
            let octets = self.size_of_select.octets();
            lemma_slots_of_difference(self.selected_pcrs, other.selected_pcrs);
            lemma_bits_of_operations();
            lemma_fits_width_by_bits(self.selected_pcrs, octets);
            lemma_fits_width_by_bits(self.selected_pcrs & !other.selected_pcrs, octets);
        }
        self.selected_pcrs = self.selected_pcrs & !other.selected_pcrs;
        Ok(())
    }
}

impl From<PcrSelection> for TPMS_PCR_SELECTION {
    /// Writes the selection as the device takes it.
    fn from(pcr_selection: PcrSelection) -> (tss: TPMS_PCR_SELECTION)
        ensures
            pcr_selection@.encoded_as(tss),
    {
        proof {
            use_type_invariant(&pcr_selection);
            lemma_fits_width_slots(
                pcr_selection.selected_pcrs,
                pcr_selection.size_of_select.octets(),
            );
            lemma_fits_width_by_bits(pcr_selection.selected_pcrs, 3);
            PcrSlot::lemma_index_at();
        }
        let octets = octets_of(pcr_selection.selected_pcrs);
        proof {
            assert forall|slot: PcrSlot| #[trigger]
                pcr_selection@.selected.contains(slot) <==> octet_bit(octets@, slot.index()) by {
                assert(octet_bit(octets@, slot.index()) == has_bit(
                    pcr_selection.selected_pcrs,
                    slot.index() as u32,
                ));
            }
            assert forall|index: nat| PCR_SLOT_COUNT <= index < 32 implies !#[trigger] octet_bit(
                octets@,
                index,
            ) by {
                assert(octet_bit(octets@, index) == has_bit(
                    pcr_selection.selected_pcrs,
                    index as u32,
                ));
            }
        }
        TPMS_PCR_SELECTION {
            hash: pcr_selection.hashing_algorithm.into(),
            sizeofSelect: pcr_selection.size_of_select.into(),
            pcrSelect: octets,
        }
    }
}

/// The conversion is stated by the `ensures` of `from`, over the view of the
/// selection.
impl FromSpecImpl<PcrSelection> for TPMS_PCR_SELECTION {
    open spec fn obeys_from_spec() -> bool {
        false
    }

    open spec fn from_spec(pcr_selection: PcrSelection) -> TPMS_PCR_SELECTION {
        arbitrary()
    }
}

impl TryFrom<TPMS_PCR_SELECTION> for PcrSelection {
    type Error = Error;

    /// Reads a selection of the device. Fails with `InvalidParam` if the
    /// structure is not decodable.
    fn try_from(tss: TPMS_PCR_SELECTION) -> (r: Result<PcrSelection, Error>)
        ensures
            match r {
                Ok(selection) => PcrSelectionView::decodable(tss) && selection.wf() && selection@
                    == PcrSelectionView::decoded(tss),
                Err(e) => !PcrSelectionView::decodable(tss) && e == Error::WrapperError(
                    WrapperErrorKind::InvalidParam,
                ),
            },
    {
        let hashing_algorithm = match HashingAlgorithm::try_from(tss.hash) {
            Ok(hashing_algorithm) => hashing_algorithm,
            Err(e) => {
                return Err(e);
            },
        };
        let size_of_select = match PcrSelectSize::try_from(tss.sizeofSelect) {
            Ok(size_of_select) => size_of_select,
            Err(e) => {
                return Err(e);
            },
        };
        let mask = mask_from_octets(&tss.pcrSelect, tss.sizeofSelect);
        proof {
            lemma_fits_width_by_bits(mask, 3);
            lemma_fits_width_by_bits(mask, size_of_select.octets());
            PcrSlot::lemma_index_at();
        }
        if mask & !0xFF_FFFFu32 != 0 {
            proof {
                let i = choose|i: u32| i < 32 && has_bit(mask, i) && !(i < PCR_SLOT_COUNT);
                assert(has_bit(mask, (i as nat) as u32));
                assert(octet_bit(tss.pcrSelect@, i as nat));
            }
            return Err(Error::local_error(WrapperErrorKind::InvalidParam));
        }
        proof {
            assert forall|index: nat|
                PCR_SLOT_COUNT <= index < 8 * tss.sizeofSelect implies !#[trigger] octet_bit(
                tss.pcrSelect@,
                index,
            ) by {
                assert(has_bit(mask, index as u32) == (index < 8 * tss.sizeofSelect && octet_bit(
                    tss.pcrSelect@,
                    index,
                )));
            }
            assert forall|slot: PcrSlot|
                selects(mask, slot) == (slot_fits(slot, tss.sizeofSelect as nat) && octet_bit(
                    tss.pcrSelect@,
                    slot.index(),
                )) by {
                assert(has_bit(mask, slot.index() as u32) == (slot.index() < 8 * tss.sizeofSelect
                    && octet_bit(tss.pcrSelect@, slot.index())));
            }
            assert(slots_of(mask) =~= PcrSelectionView::decoded(tss).selected);
            assert(fits_width(mask, 3));
            assert forall|i: u32| i < 32 && #[trigger] has_bit(mask, i) implies i
                < 8 * size_of_select.octets() && i < PCR_SLOT_COUNT by {
                assert(has_bit(mask, (i as nat) as u32));
            }
        }
        Ok(PcrSelection { hashing_algorithm, size_of_select, selected_pcrs: mask })
    }
}

/// The conversion is stated by the `ensures` of `try_from`, over the view of
/// the selection.
impl TryFromSpecImpl<TPMS_PCR_SELECTION> for PcrSelection {
    open spec fn obeys_try_from_spec() -> bool {
        false
    }

    open spec fn try_from_spec(tss: TPMS_PCR_SELECTION) -> Result<PcrSelection, Error> {
        arbitrary()
    }
}

} // verus!
