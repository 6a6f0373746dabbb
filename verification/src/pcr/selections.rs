//! Lists of PCR selections whose width is a plain number of octets.
use vstd::prelude::*;
use vstd::std_specs::convert::{FromSpecImpl, TryFromSpecImpl};
use crate::algorithm::HashingAlgorithm;
use crate::error::{Error, WrapperErrorKind};
use crate::pcr::list::{
    banks_wf, decode_banks, find, is_bank_of, items_wf, lemma_items_wf, put, views, with_bank,
    PcrSelectionList, HASHING_ALGORITHM_COUNT,
};
use crate::pcr::mask::{octet_bit, slot_fits};
use crate::pcr::selection::{PcrSelectSize, PcrSelection, PcrSelectionView};
use crate::pcr::slot::{PcrSlot, PCR_SLOT_COUNT};
use crate::tss2_esys::{TPML_PCR_SELECTION, TPMS_PCR_SELECTION};

verus! {

/// The width, in octets, of the masks of a list that was built without one.
pub const DEFAULT_SIZE_OF_SELECT: u8 = 3;

/// What a list of selections with a plain width is: the width in octets, and
/// for each bank the slots that are selected, bank by bank.
pub ghost struct PcrSelectionsView {
    pub size_of_select: u8,
    pub banks: Seq<(HashingAlgorithm, Set<PcrSlot>)>,
}

/// The hash algorithm and the slots of each of `selections`.
pub open spec fn slots_by_bank(selections: Seq<PcrSelectionView>) -> Seq<
    (HashingAlgorithm, Set<PcrSlot>),
> {
    Seq::new(selections.len(), |i: int| (selections[i].hashing_algorithm, selections[i].selected))
}

/// `selection` at the full width of four octets.
pub open spec fn at_full_width(hash_algorithm: HashingAlgorithm, selected: Set<PcrSlot>)
    -> PcrSelectionView {
    PcrSelectionView {
        hashing_algorithm: hash_algorithm,
        size_of_select: PcrSelectSize::FourBytes,
        selected,
    }
}

/// The selections with the given slots, bank by bank, each at the full width.
pub open spec fn banks_at_full_width(banks: Seq<(HashingAlgorithm, Set<PcrSlot>)>) -> Seq<
    PcrSelectionView,
> {
    Seq::new(banks.len(), |i: int| at_full_width(banks[i].0, banks[i].1))
}

/// Whether `tss` is the selection of `selected` in the bank of
/// `hash_algorithm` as the device takes it, with `size_of_select` as its width:
/// bit `i % 8` of octet `i / 8` of the mask is set exactly for the selected
/// slots `i`.
pub open spec fn bank_encoded_as(
    hash_algorithm: HashingAlgorithm,
    selected: Set<PcrSlot>,
    size_of_select: u8,
    tss: TPMS_PCR_SELECTION,
) -> bool {
    &&& tss.hash == hash_algorithm.alg_id()
    &&& tss.sizeofSelect == size_of_select
    &&& forall|slot: PcrSlot| #[trigger]
        selected.contains(slot) <==> octet_bit(tss.pcrSelect@, slot.index())
    &&& forall|index: nat|
        PCR_SLOT_COUNT <= index < 32 ==> !#[trigger] octet_bit(tss.pcrSelect@, index)
}

/// A list of PCR selections in which the width of the masks is a plain
/// number of octets: at most one selection for each bank, and no slot that a
/// mask of that width has no place for.
#[derive(Debug)]
pub struct PcrSelections {
    size_of_select: u8,
    items: Vec<PcrSelection>,
}

impl View for PcrSelections {
    type V = PcrSelectionsView;

    closed spec fn view(&self) -> PcrSelectionsView {
        PcrSelectionsView {
            size_of_select: self.size_of_select,
            banks: slots_by_bank(views(self.items@)),
        }
    }
}

/// The selections are kept at the full width of four octets.
spec fn full_width(items: Seq<PcrSelection>) -> bool {
    forall|i: int| 0 <= i < items.len() ==> items[i]@.size_of_select == PcrSelectSize::FourBytes
}

/// Selections at the full width are what their banks and slots are at the
/// full width.
proof fn lemma_full_width(items: Seq<PcrSelection>)
    requires
        full_width(items),
    ensures
        views(items) == banks_at_full_width(slots_by_bank(views(items))),
{
    assert(views(items) =~= banks_at_full_width(slots_by_bank(views(items))));
}

impl PcrSelections {
    /// Whether the value is one that the functions of this type produce.
    #[verifier::type_invariant]
    pub closed spec fn wf(self) -> bool {
        &&& items_wf(self.items@)
        &&& full_width(self.items@)
        &&& forall|i: int, slot: PcrSlot|
            0 <= i < self.items@.len() && #[trigger] self.items@[i]@.selected.contains(slot)
                ==> slot_fits(slot, self.size_of_select as nat)
    }

    /// In a list, no bank occurs twice, so there are at most eight, and every
    /// selected slot has its place in a mask of the list's width.
    pub proof fn lemma_wf(self)
        requires
            self.wf(),
        ensures
            self@.banks.len() <= HASHING_ALGORITHM_COUNT,
            forall|i: int, j: int|
                0 <= i < self@.banks.len() && 0 <= j < self@.banks.len() && i != j
                    ==> self@.banks[i].0 != self@.banks[j].0,
            forall|i: int, slot: PcrSlot|
                0 <= i < self@.banks.len() && #[trigger] self@.banks[i].1.contains(slot)
                    ==> slot_fits(slot, self@.size_of_select as nat),
    {
        lemma_items_wf(self.items@);
        assert forall|i: int, j: int|
            0 <= i < self@.banks.len() && 0 <= j < self@.banks.len() && i
                != j implies self@.banks[i].0 != self@.banks[j].0 by {
            assert(views(self.items@)[i].hashing_algorithm != views(
                self.items@,
            )[j].hashing_algorithm);
        }
    }

    /// The width of the masks, in octets.
    pub fn size_of_select(&self) -> (size_of_select: u8)
        ensures
            size_of_select == self@.size_of_select,
    {
        self.size_of_select
    }

    /// The number of banks in the list.
    pub fn len(&self) -> (len: usize)
        ensures
            len == self@.banks.len(),
    {
        self.items.len()
    }

    /// Whether `slot` is selected in the bank of `hash_algorithm`.
    pub fn is_selected(&self, hash_algorithm: HashingAlgorithm, slot: PcrSlot) -> (selected: bool)
        ensures
            selected == (exists|i: int|
                0 <= i < self@.banks.len() && self@.banks[i].0 == hash_algorithm
                    && self@.banks[i].1.contains(slot)),
    {
        proof {
            use_type_invariant(self);
            lemma_items_wf(self.items@);
        }
        match find(&self.items, hash_algorithm) {
            Some(index) => {
                let selected = self.items[index].is_selected(slot);
                proof {
                    assert(self@.banks[index as int].0 == hash_algorithm);
                    if !selected {
                        assert forall|i: int|
                            0 <= i < self@.banks.len() && self@.banks[i].0
                                == hash_algorithm implies !self@.banks[i].1.contains(slot) by {
                            assert(views(self.items@)[i].hashing_algorithm == views(
                                self.items@,
                            )[index as int].hashing_algorithm);
                        }
                    }
                }
                selected
            },
            None => {
                proof {
                    assert forall|i: int| 0 <= i < self@.banks.len() implies self@.banks[i].0
                        != hash_algorithm by {
                        assert(!is_bank_of(
                            views(self.items@),
                            hash_algorithm,
                            i,
                        ));
                    }
                }
                false
            },
        }
    }
}

impl Default for PcrSelections {
    /// The list without banks, with masks of no octet.
    fn default() -> (selections: Self)
        ensures
            selections.wf(),
            selections@ == (PcrSelectionsView { size_of_select: 0, banks: Seq::empty() }),
    {
        let selections = PcrSelections { size_of_select: 0, items: Vec::new() };
        assert(selections@.banks =~= Seq::empty());
        selections
    }
}

impl Clone for PcrSelections {
    fn clone(&self) -> (selections: Self)
        ensures
            selections.wf(),
            selections@ == self@,
    {
        proof {
            use_type_invariant(self);
        }
        let mut items: Vec<PcrSelection> = Vec::new();
        let mut i: usize = 0;
        while i < self.items.len()
            invariant
                i <= self.items@.len(),
                items@ == self.items@.take(i as int),
            decreases self.items@.len() - i,
        {
            items.push(self.items[i]);
            assert(self.items@.take(i as int).push(self.items@[i as int]) =~= self.items@.take(
                i + 1,
            ));
            i += 1;
        }
        assert(self.items@.take(self.items@.len() as int) =~= self.items@);
        PcrSelections { size_of_select: self.size_of_select, items }
    }
}

/// Whether `tpml` is the list `selections` as the device takes it: as many
/// entries count as there are banks, entry `i` is the encoding of bank `i`
/// with the width of the list, and the entries that do not count are zeroed.
pub open spec fn selections_encoded_as(selections: PcrSelectionsView, tpml: TPML_PCR_SELECTION)
    -> bool {
    &&& tpml.count == selections.banks.len()
    &&& forall|i: int|
        0 <= i < selections.banks.len() ==> bank_encoded_as(
            (#[trigger] selections.banks[i]).0,
            selections.banks[i].1,
            selections.size_of_select,
            tpml.pcrSelections@[i],
        )
    &&& forall|i: int|
        selections.banks.len() <= i < 16 ==> #[trigger] tpml.pcrSelections@[i]
            == TPMS_PCR_SELECTION::zeroed()
}

impl From<PcrSelections> for TPML_PCR_SELECTION {
    /// Writes the list as the device takes it, bank by bank.
    fn from(pcr_selections: PcrSelections) -> (tpml: TPML_PCR_SELECTION)
        ensures
            selections_encoded_as(pcr_selections@, tpml),
    {
        proof {
            use_type_invariant(&pcr_selections);
            lemma_items_wf(pcr_selections.items@);
        }
        let mut tpml = TPML_PCR_SELECTION::default();
        let mut i: usize = 0;
        while i < pcr_selections.items.len()
            invariant
                i <= pcr_selections.items@.len() <= HASHING_ALGORITHM_COUNT,
                tpml.count == i,
                forall|k: int|
                    0 <= k < i ==> bank_encoded_as(
                        (#[trigger] pcr_selections@.banks[k]).0,
                        pcr_selections@.banks[k].1,
                        pcr_selections@.size_of_select,
                        tpml.pcrSelections@[k],
                    ),
                forall|k: int|
                    i <= k < 16 ==> #[trigger] tpml.pcrSelections@[k]
                        == TPMS_PCR_SELECTION::zeroed(),
            decreases pcr_selections.items@.len() - i,
        {
            let mut entry: TPMS_PCR_SELECTION = pcr_selections.items[i].into();
            entry.sizeofSelect = pcr_selections.size_of_select;
            proof {
                assert(pcr_selections@.banks[i as int].0
                    == pcr_selections.items@[i as int]@.hashing_algorithm);
            }
            tpml.pcrSelections[i] = entry;
            tpml.count = tpml.count + 1;
            i += 1;
        }
        tpml
    }
}

/// The conversion is stated by the `ensures` of `from`, over the view of the list.
impl FromSpecImpl<PcrSelections> for TPML_PCR_SELECTION {
    open spec fn obeys_from_spec() -> bool {
        false
    }

    open spec fn from_spec(pcr_selections: PcrSelections) -> TPML_PCR_SELECTION {
        arbitrary()
    }
}

/// What a builder of lists with a plain width has collected: the width that
/// was asked for, if one was, and the slots, bank by bank.
pub ghost struct PcrSelectionsBuilderView {
    pub size_of_select: Option<u8>,
    pub banks: Seq<(HashingAlgorithm, Set<PcrSlot>)>,
}

/// `banks` with `slots` added to the bank of `hash_algorithm`: to the slots
/// of that bank where `banks` has it, as a new bank behind the others where
/// it has not.
pub open spec fn with_slots(
    banks: Seq<(HashingAlgorithm, Set<PcrSlot>)>,
    hash_algorithm: HashingAlgorithm,
    slots: Set<PcrSlot>,
) -> Seq<(HashingAlgorithm, Set<PcrSlot>)> {
    slots_by_bank(with_bank(banks_at_full_width(banks), at_full_width(hash_algorithm, slots)))
}

/// `banks` without the slots that a mask of `size_of_select` octets has no
/// place for.
pub open spec fn fitted(banks: Seq<(HashingAlgorithm, Set<PcrSlot>)>, size_of_select: u8) -> Seq<
    (HashingAlgorithm, Set<PcrSlot>),
> {
    Seq::new(
        banks.len(),
        |i: int|
            (banks[i].0, banks[i].1.filter(|slot: PcrSlot| slot_fits(slot, size_of_select as nat))),
    )
}

/// Collects the selections of a list and the width of their masks as a
/// plain number of octets.
///
/// Selections for the same bank add up. Where no width is given, the list is
/// built with masks of three octets.
#[derive(Debug)]
pub struct PcrSelectionsBuilder {
    size_of_select: Option<u8>,
    items: Vec<PcrSelection>,
}

impl View for PcrSelectionsBuilder {
    type V = PcrSelectionsBuilderView;

    closed spec fn view(&self) -> PcrSelectionsBuilderView {
        PcrSelectionsBuilderView {
            size_of_select: self.size_of_select,
            banks: slots_by_bank(views(self.items@)),
        }
    }
}

impl PcrSelectionsBuilder {
    /// Whether the value is one that the functions of this type produce.
    #[verifier::type_invariant]
    pub closed spec fn wf(self) -> bool {
        &&& items_wf(self.items@)
        &&& full_width(self.items@)
    }

    /// What a builder has collected is well formed: no bank occurs twice, so
    /// there are at most eight.
    pub proof fn lemma_wf(self)
        requires
            self.wf(),
        ensures
            self@.banks.len() <= HASHING_ALGORITHM_COUNT,
            forall|i: int, j: int|
                0 <= i < self@.banks.len() && 0 <= j < self@.banks.len() && i != j
                    ==> self@.banks[i].0 != self@.banks[j].0,
            banks_wf(banks_at_full_width(self@.banks)),
    {
        lemma_items_wf(self.items@);
        lemma_full_width(self.items@);
        assert forall|i: int, j: int|
            0 <= i < self@.banks.len() && 0 <= j < self@.banks.len() && i
                != j implies self@.banks[i].0 != self@.banks[j].0 by {
            assert(views(self.items@)[i].hashing_algorithm != views(
                self.items@,
            )[j].hashing_algorithm);
        }
    }

    /// A builder that has collected nothing.
    pub fn new() -> (builder: Self)
        ensures
            builder.wf(),
            builder@ == (PcrSelectionsBuilderView { size_of_select: None, banks: Seq::empty() }),
    {
        let builder = PcrSelectionsBuilder { size_of_select: None, items: Vec::new() };
        assert(builder@.banks =~= Seq::empty());
        builder
    }

    /// Sets the width, in octets, of the masks of all selections.
    pub fn with_size_of_select(self, size_of_select: u8) -> (builder: Self)
        ensures
            builder.wf(),
            builder@ == (PcrSelectionsBuilderView {
                size_of_select: Some(size_of_select),
                banks: self@.banks,
            }),
    {
        proof {
            use_type_invariant(&self);
        }
        PcrSelectionsBuilder { size_of_select: Some(size_of_select), items: self.items }
    }

    /// Adds `pcr_slots` to the selection in the bank of `hash_algorithm`.
    /// What was selected in that bank before stays selected.
    pub fn with_selection(
        self,
        hash_algorithm: HashingAlgorithm,
        pcr_slots: &[PcrSlot],
    ) -> (builder: Self)
        ensures
            builder.wf(),
            builder@ == (PcrSelectionsBuilderView {
                size_of_select: self@.size_of_select,
                banks: with_slots(self@.banks, hash_algorithm, pcr_slots@.to_set()),
            }),
    {
        proof {
            use_type_invariant(&self);
            lemma_full_width(self.items@);
        }
        let selection = PcrSelection::new(hash_algorithm, PcrSelectSize::FourBytes, pcr_slots);
        proof {
            PcrSlot::lemma_index_at();
            assert(selection@.selected =~= pcr_slots@.to_set());
        }
        let mut items = self.items;
        put(&mut items, selection);
        PcrSelectionsBuilder { size_of_select: self.size_of_select, items }
    }

    /// The list of what was collected, with masks of the width that was set,
    /// or of three octets where none was. A slot that a mask of that width
    /// has no place for is left out.
    pub fn build(self) -> (selections: PcrSelections)
        ensures
            selections.wf(),
            selections@.size_of_select == (match self@.size_of_select {
                Some(size_of_select) => size_of_select,
                None => DEFAULT_SIZE_OF_SELECT,
            }),
            selections@.banks == fitted(self@.banks, selections@.size_of_select),
    {
        proof {
            use_type_invariant(&self);
        }
        let size_of_select = match self.size_of_select {
            Some(size_of_select) => size_of_select,
            None => DEFAULT_SIZE_OF_SELECT,
        };
        let mut items: Vec<PcrSelection> = Vec::new();
        let mut i: usize = 0;
        while i < self.items.len()
            invariant
                i <= self.items@.len(),
                items_wf(self.items@),
                full_width(self.items@),
                items@.len() == i,
                forall|k: int| 0 <= k < i ==> (#[trigger] items@[k]).wf(),
                forall|k: int|
                    0 <= k < i ==> (#[trigger] items@[k])@ == (PcrSelectionView {
                        selected: self.items@[k]@.selected.filter(
                            |slot: PcrSlot| slot_fits(slot, size_of_select as nat),
                        ),
                        ..self.items@[k]@
                    }),
            decreases self.items@.len() - i,
        {
            items.push(self.items[i].restricted(size_of_select));
            i += 1;
        }
        proof {
            assert(slots_by_bank(views(items@)) =~= fitted(
                slots_by_bank(views(self.items@)),
                size_of_select,
            ));
            assert forall|a: int, b: int|
                0 <= a < items@.len() && 0 <= b < items@.len() && a != b implies views(
                items@,
            )[a].hashing_algorithm != views(items@)[b].hashing_algorithm by {
                assert(views(self.items@)[a].hashing_algorithm != views(
                    self.items@,
                )[b].hashing_algorithm);
            }
        }
        PcrSelections { size_of_select, items }
    }
}

impl Default for PcrSelectionsBuilder {
    fn default() -> (builder: Self)
        ensures
            builder.wf(),
            builder@ == (PcrSelectionsBuilderView { size_of_select: None, banks: Seq::empty() }),
    {
        PcrSelectionsBuilder::new()
    }
}

impl TryFrom<TPML_PCR_SELECTION> for PcrSelections {
    type Error = Error;

    /// Reads a list of the device. Its width is that of the entries, or
    /// three octets where there is no entry.
    ///
    /// Fails with `InvalidParam` if more than sixteen entries are said to
    /// count, and otherwise as `decode_banks` says of the entries that count.
    fn try_from(tpml_pcr_selection: TPML_PCR_SELECTION) -> (r: Result<PcrSelections, Error>)
        ensures
            tpml_pcr_selection.count > 16 ==> r == Err::<PcrSelections, Error>(
                Error::WrapperError(WrapperErrorKind::InvalidParam),
            ),
            tpml_pcr_selection.count <= 16 ==> match decode_banks(
                tpml_pcr_selection.pcrSelections@.take(tpml_pcr_selection.count as int),
            ) {
                Ok(banks) => {
                    &&& r is Ok
                    &&& r->Ok_0.wf()
                    &&& r->Ok_0@.banks == slots_by_bank(banks)
                    &&& r->Ok_0@.size_of_select == (if banks.len() > 0 {
                        banks[0].size_of_select.octets() as u8
                    } else {
                        DEFAULT_SIZE_OF_SELECT
                    })
                },
                Err(kind) => r == Err::<PcrSelections, Error>(Error::WrapperError(kind)),
            },
    {
        let list = match PcrSelectionList::try_from(tpml_pcr_selection) {
            Ok(list) => list,
            Err(e) => {
                return Err(e);
            },
        };
        let ghost banks = list@;
        let parsed = list.into_selections();
        proof {
            lemma_items_wf(parsed@);
        }
        let size_of_select: u8 = if parsed.len() > 0 {
            assert(banks[0] == parsed@[0]@);
            parsed[0].size_of_select().into()
        } else {
            DEFAULT_SIZE_OF_SELECT
        };
        let mut items: Vec<PcrSelection> = Vec::new();
        let mut i: usize = 0;
        while i < parsed.len()
            invariant
                i <= parsed@.len(),
                items_wf(parsed@),
                banks_wf(views(parsed@)),
                parsed@.len() > 0 ==> size_of_select == parsed@[0]@.size_of_select.octets(),
                items@.len() == i,
                forall|k: int| 0 <= k < i ==> (#[trigger] items@[k]).wf(),
                forall|k: int|
                    0 <= k < i ==> (#[trigger] items@[k])@ == at_full_width(
                        parsed@[k]@.hashing_algorithm,
                        parsed@[k]@.selected,
                    ),
            decreases parsed@.len() - i,
        {
            let widened = parsed[i].narrowed(PcrSelectSize::FourBytes);
            proof {
                PcrSlot::lemma_index_at();
                assert(widened@.selected =~= parsed@[i as int]@.selected);
            }
            items.push(widened);
            i += 1;
        }
        proof {
            assert(slots_by_bank(views(items@)) =~= slots_by_bank(banks));
            assert forall|a: int, b: int|
                0 <= a < items@.len() && 0 <= b < items@.len() && a != b implies views(
                items@,
            )[a].hashing_algorithm != views(items@)[b].hashing_algorithm by {
                assert(views(parsed@)[a].hashing_algorithm != views(parsed@)[b].hashing_algorithm);
            }
            assert forall|k: int, slot: PcrSlot|
                0 <= k < items@.len() && #[trigger] items@[k]@.selected.contains(
                    slot,
                ) implies slot_fits(slot, size_of_select as nat) by {
                assert(views(parsed@)[k].wf());
                assert(views(parsed@)[k].size_of_select == views(parsed@)[0].size_of_select);
            }
        }
        Ok(PcrSelections { size_of_select, items })
    }
}

/// The conversion is stated by the `ensures` of `try_from`, over the view of
/// the list.
impl TryFromSpecImpl<TPML_PCR_SELECTION> for PcrSelections {
    open spec fn obeys_try_from_spec() -> bool {
        false
    }

    open spec fn try_from_spec(tpml_pcr_selection: TPML_PCR_SELECTION) -> Result<
        PcrSelections,
        Error,
    > {
        arbitrary()
    }
}

} // verus!
