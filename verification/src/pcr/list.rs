//! Lists of PCR selections: at most one selection per bank, all of one width.
use vstd::prelude::*;
use vstd::std_specs::cmp::PartialEqSpecImpl;
use vstd::std_specs::convert::{FromSpecImpl, TryFromSpecImpl};
use crate::algorithm::HashingAlgorithm;
use crate::error::{Error, WrapperErrorKind};
use crate::pcr::selection::{PcrSelectSize, PcrSelection, PcrSelectionView};
use crate::pcr::slot::PcrSlot;
use crate::tss2_esys::{TPML_PCR_SELECTION, TPMS_PCR_SELECTION};

verus! {

/// Whether the bank at `index` of `banks` is that of `algorithm`.
pub open spec fn is_bank_of(
    banks: Seq<PcrSelectionView>,
    algorithm: HashingAlgorithm,
    index: int,
) -> bool {
    0 <= index < banks.len() && banks[index].hashing_algorithm == algorithm
}

/// Where in `banks` the bank of `algorithm` stands, if it is there.
pub open spec fn position(banks: Seq<PcrSelectionView>, algorithm: HashingAlgorithm) -> Option<
    int,
> {
    if exists|index: int| is_bank_of(banks, algorithm, index) {
        Some(choose|index: int| is_bank_of(banks, algorithm, index))
    } else {
        None
    }
}

/// The selection in the bank of `algorithm`, if `banks` has one.
pub open spec fn bank(banks: Seq<PcrSelectionView>, algorithm: HashingAlgorithm) -> Option<
    PcrSelectionView,
> {
    match position(banks, algorithm) {
        Some(index) => Some(banks[index]),
        None => None,
    }
}

/// No two of `banks` are of the same hash algorithm.
pub open spec fn distinct_banks(banks: Seq<PcrSelectionView>) -> bool {
    forall|i: int, j: int|
        0 <= i < banks.len() && 0 <= j < banks.len() && i != j ==> banks[i].hashing_algorithm
            != banks[j].hashing_algorithm
}

/// All of `banks` have masks of the same width.
pub open spec fn uniform_width(banks: Seq<PcrSelectionView>) -> bool {
    forall|i: int, j: int|
        0 <= i < banks.len() && 0 <= j < banks.len() ==> banks[i].size_of_select
            == banks[j].size_of_select
}

/// What holds of the banks of every list: each selection is well formed, no
/// bank occurs twice, and all the masks have the same width.
pub open spec fn banks_wf(banks: Seq<PcrSelectionView>) -> bool {
    &&& forall|i: int| 0 <= i < banks.len() ==> (#[trigger] banks[i]).wf()
    &&& distinct_banks(banks)
    &&& uniform_width(banks)
}

/// Two sequences of banks hold the same selections, whatever their order.
pub open spec fn same_banks(a: Seq<PcrSelectionView>, b: Seq<PcrSelectionView>) -> bool {
    forall|algorithm: HashingAlgorithm| bank(a, algorithm) == bank(b, algorithm)
}

/// `banks` with `selection` put in: merged into the bank of its hash
/// algorithm where there is one, added behind the others where there is none.
pub open spec fn with_bank(banks: Seq<PcrSelectionView>, selection: PcrSelectionView) -> Seq<
    PcrSelectionView,
> {
    match position(banks, selection.hashing_algorithm) {
        Some(index) => banks.update(index, banks[index].merged(selection)),
        None => banks.push(selection),
    }
}

/// Whether `tpml` is `banks` as the device takes them: as many entries count
/// as there are banks, entry `i` is the encoding of bank `i`, and the entries
/// that do not count are zeroed.
pub open spec fn banks_encoded_as(banks: Seq<PcrSelectionView>, tpml: TPML_PCR_SELECTION) -> bool {
    &&& tpml.count == banks.len()
    &&& forall|i: int|
        0 <= i < banks.len() ==> (#[trigger] banks[i]).encoded_as(tpml.pcrSelections@[i])
    &&& forall|i: int|
        banks.len() <= i < 16 ==> #[trigger] tpml.pcrSelections@[i] == TPMS_PCR_SELECTION::zeroed()
}

/// Whether all of `entries` declare the width that the first declares.
pub open spec fn one_width(entries: Seq<TPMS_PCR_SELECTION>) -> bool {
    forall|i: int|
        0 <= i < entries.len() ==> (#[trigger] entries[i]).sizeofSelect == entries[0].sizeofSelect
}

/// The banks that entries of one width stand for, read from the first entry
/// to the last, or `InvalidParam` if one of them is not decodable. An entry
/// for a bank that an earlier entry was for is merged into that bank.
pub open spec fn merge_entries(entries: Seq<TPMS_PCR_SELECTION>) -> Result<
    Seq<PcrSelectionView>,
    WrapperErrorKind,
>
    decreases entries.len(),
{
    if entries.len() == 0 {
        Ok(Seq::empty())
    } else {
        match merge_entries(entries.drop_last()) {
            Err(kind) => Err(kind),
            Ok(banks) => {
                let entry = entries.last();
                if !PcrSelectionView::decodable(entry) {
                    Err(WrapperErrorKind::InvalidParam)
                } else {
                    Ok(with_bank(banks, PcrSelectionView::decoded(entry)))
                }
            },
        }
    }
}

/// The banks that the entries of a device structure stand for, or the
/// reason why they stand for none.
///
/// The widths are looked at before anything else: where an entry declares
/// another width than the first, that is an `InconsistentParams`. Entries of
/// one width are then read as `merge_entries` says.
pub open spec fn decode_banks(entries: Seq<TPMS_PCR_SELECTION>) -> Result<
    Seq<PcrSelectionView>,
    WrapperErrorKind,
> {
    if one_width(entries) {
        merge_entries(entries)
    } else {
        Err(WrapperErrorKind::InconsistentParams)
    }
}

/// Why the selection `removed` cannot be subtracted from `banks`, if it
/// cannot: `banks` has no bank of its hash algorithm, which is an
/// `InvalidParam`, or the selection in that bank refuses it.
pub open spec fn bank_subtract_error(
    banks: Seq<PcrSelectionView>,
    removed: PcrSelectionView,
) -> Option<WrapperErrorKind> {
    match position(banks, removed.hashing_algorithm) {
        None => Some(WrapperErrorKind::InvalidParam),
        Some(index) => banks[index].subtract_error(removed),
    }
}

/// Why the first of the selections of `other` that cannot be subtracted
/// from `banks` cannot be, if there is one.
pub open spec fn first_subtract_refusal(
    banks: Seq<PcrSelectionView>,
    other: Seq<PcrSelectionView>,
) -> Option<WrapperErrorKind>
    decreases other.len(),
{
    if other.len() == 0 {
        None
    } else {
        match first_subtract_refusal(banks, other.drop_last()) {
            Some(kind) => Some(kind),
            None => bank_subtract_error(banks, other.last()),
        }
    }
}

/// Whether `other` has a selection for a bank that `banks` does not have.
pub open spec fn names_absent_bank(
    banks: Seq<PcrSelectionView>,
    other: Seq<PcrSelectionView>,
) -> bool {
    exists|k: int|
        0 <= k < other.len() && position(banks, (#[trigger] other[k]).hashing_algorithm) is None
}

/// Why `other` cannot be subtracted from `banks`, if it cannot.
///
/// Where `other` has a selection for a bank that `banks` does not have, that
/// is an `InvalidParam`, whatever else is wrong. Otherwise it is the reason
/// of the first selection of `other` that cannot be subtracted.
pub open spec fn list_subtract_error(
    banks: Seq<PcrSelectionView>,
    other: Seq<PcrSelectionView>,
) -> Option<WrapperErrorKind> {
    if names_absent_bank(banks, other) {
        Some(WrapperErrorKind::InvalidParam)
    } else {
        first_subtract_refusal(banks, other)
    }
}

/// `banks` without what `other` selects: each bank that `other` has a
/// selection for loses the slots of that selection, and is dropped if no
/// slot is left; the other banks stay as they are, and the order stays.
pub open spec fn list_subtracted(
    banks: Seq<PcrSelectionView>,
    other: Seq<PcrSelectionView>,
) -> Seq<PcrSelectionView>
    decreases banks.len(),
{
    if banks.len() == 0 {
        Seq::empty()
    } else {
        let rest = list_subtracted(banks.drop_last(), other);
        let last = banks.last();
        match position(other, last.hashing_algorithm) {
            None => rest.push(last),
            Some(index) => {
                let left = last.subtracted(other[index]);
                if left.selected == Set::<PcrSlot>::empty() {
                    rest
                } else {
                    rest.push(left)
                }
            },
        }
    }
}

/// The number that tells the hash algorithms apart, from 0 to 7.
pub open spec fn ordinal(algorithm: HashingAlgorithm) -> int {
    match algorithm {
        HashingAlgorithm::Sha1 => 0,
        HashingAlgorithm::Sha256 => 1,
        HashingAlgorithm::Sha384 => 2,
        HashingAlgorithm::Sha512 => 3,
        HashingAlgorithm::Sm3_256 => 4,
        HashingAlgorithm::Sha3_256 => 5,
        HashingAlgorithm::Sha3_384 => 6,
        HashingAlgorithm::Sha3_512 => 7,
    }
}

/// Number of hash algorithms, and so the most banks that a list can have.
pub const HASHING_ALGORITHM_COUNT: usize = 8;

/// Where no bank occurs twice, the bank of an algorithm stands where it is found.
pub proof fn lemma_position(banks: Seq<PcrSelectionView>, algorithm: HashingAlgorithm, index: int)
    requires
        distinct_banks(banks),
        is_bank_of(banks, algorithm, index),
    ensures
        position(banks, algorithm) == Some(index),
        bank(banks, algorithm) == Some(banks[index]),
{
}

/// A list in which no bank occurs twice has at most as many banks as there
/// are hash algorithms.
pub proof fn lemma_distinct_banks_len(banks: Seq<PcrSelectionView>)
    requires
        distinct_banks(banks),
    ensures
        banks.len() <= HASHING_ALGORITHM_COUNT,
{
    let ordinals = Seq::new(banks.len(), |i: int| ordinal(banks[i].hashing_algorithm));
    assert(ordinals.no_duplicates());
    ordinals.unique_seq_to_set();
    let range = vstd::set_lib::set_int_range(0, 8);
    vstd::set_lib::lemma_int_range(0, 8);
    assert forall|x: int| ordinals.to_set().contains(x) implies range.contains(x) by {
        let i = choose|i: int| 0 <= i < ordinals.len() && ordinals[i] == x;
        assert(x == ordinal(banks[i].hashing_algorithm));
    }
    vstd::set_lib::lemma_len_subset(ordinals.to_set(), range);
}

/// The selections of PCR slots that a command is to work on: at most one
/// selection for each bank, all of them with masks of the same width.
#[derive(Debug)]
pub struct PcrSelectionList {
    items: Vec<PcrSelection>,
}

impl View for PcrSelectionList {
    type V = Seq<PcrSelectionView>;

    /// The selections, bank by bank, in the order in which the device is
    /// handed them.
    closed spec fn view(&self) -> Seq<PcrSelectionView> {
        Seq::new(self.items@.len(), |i: int| self.items@[i]@)
    }
}

/// The views of a sequence of selections.
pub open spec fn views(items: Seq<PcrSelection>) -> Seq<PcrSelectionView> {
    Seq::new(items.len(), |i: int| items[i]@)
}

/// Each selection is well formed, no bank occurs twice, and all the masks
/// have the same width.
pub open spec fn items_wf(items: Seq<PcrSelection>) -> bool {
    &&& forall|i: int| 0 <= i < items.len() ==> (#[trigger] items[i]).wf()
    &&& distinct_banks(views(items))
    &&& uniform_width(views(items))
}

/// The views of well-formed selections are well-formed banks, at most eight.
pub proof fn lemma_items_wf(items: Seq<PcrSelection>)
    requires
        items_wf(items),
    ensures
        banks_wf(views(items)),
        items.len() <= HASHING_ALGORITHM_COUNT,
{
    assert forall|i: int| 0 <= i < items.len() implies (#[trigger] views(items)[i]).wf() by {
        items[i].lemma_view_determines(items[i]);
    }
    lemma_distinct_banks_len(views(items));
}

/// Finds the bank of `algorithm` among `items`.
pub(crate) fn find(items: &Vec<PcrSelection>, algorithm: HashingAlgorithm) -> (found: Option<usize>)
    requires
        items_wf(items@),
    ensures
        match found {
            Some(index) => position(views(items@), algorithm) == Some(index as int) && index
                < items@.len(),
            None => position(views(items@), algorithm) is None,
        },
{
    let mut i: usize = 0;
    while i < items.len()
        invariant
            i <= items@.len(),
            items_wf(items@),
            forall|k: int| 0 <= k < i ==> !is_bank_of(views(items@), algorithm, k),
        decreases items@.len() - i,
    {
        if items[i].hashing_algorithm() == algorithm {
            proof {
                assert(is_bank_of(views(items@), algorithm, i as int));
                lemma_position(views(items@), algorithm, i as int);
            }
            return Some(i);
        }
        i += 1;
    }
    None
}

/// Puts `selection` among `items`: merges it into the bank of its hash
/// algorithm, or adds it behind the others.
pub(crate) fn put(items: &mut Vec<PcrSelection>, selection: PcrSelection)
    requires
        items_wf(old(items)@),
        selection.wf(),
        forall|i: int|
            0 <= i < old(items)@.len() ==> old(items)@[i]@.size_of_select
                == selection@.size_of_select,
    ensures
        items_wf(final(items)@),
        views(final(items)@) == with_bank(views(old(items)@), selection@),
        forall|i: int|
            0 <= i < final(items)@.len() ==> (#[trigger] final(items)@[i])@.size_of_select
                == selection@.size_of_select,
{
    let ghost before = views(items@);
    match find(items, selection.hashing_algorithm()) {
        Some(index) => {
            let mut merged = items[index];
            let outcome = merged.merge(&selection);
            assert(outcome is Ok);
            items[index] = merged;
            proof {
                assert(views(items@) =~= before.update(index as int, before[index as int].merged(
                    selection@,
                )));
            }
        },
        None => {
            items.push(selection);
            proof {
                assert(views(items@) =~= before.push(selection@));
                assert forall|i: int, j: int|
                    0 <= i < items@.len() && 0 <= j < items@.len() && i != j implies views(
                    items@,
                )[i].hashing_algorithm != views(items@)[j].hashing_algorithm by {
                    if i == before.len() {
                        assert(!is_bank_of(before, selection@.hashing_algorithm, j));
                    } else if j == before.len() {
                        assert(!is_bank_of(before, selection@.hashing_algorithm, i));
                    } else {
                        assert(before[i].hashing_algorithm != before[j].hashing_algorithm);
                    }
                }
            }
        },
    }
}

impl PcrSelectionList {
    /// The most banks that the device structure of a list has room for.
    pub const MAX_SIZE: usize = 16;

    /// Whether the value is one that the functions of this type produce.
    #[verifier::type_invariant]
    pub closed spec fn wf(self) -> bool {
        items_wf(self.items@)
    }

    /// The banks of a list are well formed, and there are at most eight.
    pub proof fn lemma_wf(self)
        requires
            self.wf(),
        ensures
            banks_wf(self@),
            self@.len() <= HASHING_ALGORITHM_COUNT,
    {
        lemma_items_wf(self.items@);
    }

    /// The number of banks in the list.
    pub fn len(&self) -> (len: usize)
        ensures
            len == self@.len(),
    {
        self.items.len()
    }

    /// Whether the list has no bank.
    pub fn is_empty(&self) -> (empty: bool)
        ensures
            empty == (self@.len() == 0),
    {
        self.items.len() == 0
    }

    /// The list that `pcr_list` holds, or the empty list where it holds none.
    pub fn list_from_option(pcr_list: Option<PcrSelectionList>) -> (list: PcrSelectionList)
        ensures
            list.wf(),
            match pcr_list {
                Some(given) => list == given,
                None => list@ == Seq::<PcrSelectionView>::empty(),
            },
    {
        match pcr_list {
            Some(given) => {
                proof {
                    use_type_invariant(&given);
                }
                given
            },
            None => PcrSelectionList { items: Vec::new() },
        }
    }

    /// Removes from the list what `other` selects.
    ///
    /// Each bank that `other` has a selection for loses the slots of that
    /// selection, and a bank in which no slot is left is dropped from the
    /// list. Subtracting a list from itself leaves the empty list.
    ///
    /// Fails with `InvalidParam` if `other` has a selection for a bank that
    /// the list does not have, whatever else is wrong. Where the list has
    /// every bank of `other`, the first selection of `other` that cannot be
    /// subtracted decides: `InconsistentParams` if its mask is of another
    /// width, `InvalidParam` if it selects a slot that the list does not. A
    /// call that fails changes nothing.
    pub fn subtract(&mut self, other: &Self) -> (r: Result<(), Error>)
        ensures
            final(self).wf(),
            match r {
                Ok(()) => list_subtract_error(old(self)@, other@) is None && final(self)@
                    == list_subtracted(old(self)@, other@),
                Err(e) => list_subtract_error(old(self)@, other@) == Some(e->WrapperError_0)
                    && e is WrapperError && *final(self) == *old(self),
            },
            same_banks(old(self)@, other@) ==> r is Ok && final(self)@ == Seq::<
                PcrSelectionView,
            >::empty(),
    {
        proof {
            use_type_invariant(&*self);
            use_type_invariant(other);
            lemma_items_wf(self.items@);
            lemma_items_wf(other.items@);
            if same_banks(views(self.items@), views(other.items@)) {
                lemma_subtract_same(views(self.items@), views(other.items@));
            }
        }
        let ghost banks = views(self.items@);
        let ghost removed = views(other.items@);
        let mut k: usize = 0;
        while k < other.items.len()
            invariant
                k <= other.items@.len(),
                items_wf(self.items@),
                items_wf(other.items@),
                banks == views(self.items@),
                removed == views(other.items@),
                *self == *old(self),
                forall|n: int|
                    0 <= n < k ==> position(banks, (#[trigger] removed[n]).hashing_algorithm)
                        is Some,
                same_banks(banks, removed) ==> list_subtract_error(banks, removed) is None,
            decreases other.items@.len() - k,
        {
            assert(removed[k as int] == other.items@[k as int]@);
            if find(&self.items, other.items[k].hashing_algorithm()).is_none() {
                assert(names_absent_bank(banks, removed));
                return Err(Error::local_error(WrapperErrorKind::InvalidParam));
            }
            k += 1;
        }
        assert(!names_absent_bank(banks, removed));
        let mut j: usize = 0;
        while j < other.items.len()
            invariant
                j <= other.items@.len(),
                items_wf(self.items@),
                items_wf(other.items@),
                banks == views(self.items@),
                removed == views(other.items@),
                *self == *old(self),
                !names_absent_bank(banks, removed),
                first_subtract_refusal(banks, removed.take(j as int)) is None,
                same_banks(banks, removed) ==> list_subtract_error(banks, removed) is None,
            decreases other.items@.len() - j,
        {
            proof {
                assert(removed.take(j + 1).drop_last() =~= removed.take(j as int));
                assert(removed.take(j + 1).last() == other.items@[j as int]@);
            }
            let outcome = match find(&self.items, other.items[j].hashing_algorithm()) {
                None => Err(Error::local_error(WrapperErrorKind::InvalidParam)),
                Some(index) => {
                    let mut trial = self.items[index];
                    assert(banks[index as int] == self.items@[index as int]@);
                    trial.subtract(&other.items[j])
                },
            };
            if let Err(e) = outcome {
                proof {
                    assert(first_subtract_refusal(banks, removed.take(j + 1)) == Some(
                        e->WrapperError_0,
                    ));
                    lemma_subtract_error_stays(banks, removed, j + 1, removed.len() as int);
                    assert(removed.take(removed.len() as int) =~= removed);
                }
                return Err(e);
            }
            j += 1;
        }
        proof {
            assert(removed.take(removed.len() as int) =~= removed);
            lemma_subtract_error_none(banks, removed);
        }
        let mut items: Vec<PcrSelection> = Vec::new();
        let ghost mut origin: Seq<int> = Seq::empty();
        let mut i: usize = 0;
        proof {
            assert(banks.take(0) =~= Seq::<PcrSelectionView>::empty());
            assert(views(items@) =~= Seq::<PcrSelectionView>::empty());
        }
        while i < self.items.len()
            invariant
                i <= self.items@.len(),
                items_wf(self.items@),
                items_wf(other.items@),
                banks == views(self.items@),
                removed == views(other.items@),
                banks_wf(banks),
                forall|k: int|
                    0 <= k < removed.len() ==> bank_subtract_error(banks, #[trigger] removed[k])
                        is None,
                views(items@) == list_subtracted(banks.take(i as int), removed),
                origin.len() == items@.len(),
                forall|k: int| 0 <= k < items@.len() ==> (#[trigger] items@[k]).wf(),
                forall|k: int| 0 <= k < origin.len() ==> 0 <= #[trigger] origin[k] < i,
                forall|k: int, l: int| 0 <= k < l < origin.len() ==> origin[k] < origin[l],
                forall|k: int|
                    0 <= k < origin.len() ==> (#[trigger] items@[k])@.hashing_algorithm
                        == banks[origin[k]].hashing_algorithm && items@[k]@.size_of_select
                        == banks[origin[k]].size_of_select,
            decreases self.items@.len() - i,
        {
            let current = self.items[i];
            let ghost before = views(items@);
            proof {
                assert(banks.take(i + 1).drop_last() =~= banks.take(i as int));
                assert(banks.take(i + 1).last() == current@);
                assert(banks[i as int] == current@);
            }
            match find(&other.items, current.hashing_algorithm()) {
                None => {
                    items.push(current);
                    proof {
                        origin = origin.push(i as int);
                        assert(views(items@) =~= before.push(current@));
                    }
                },
                Some(index) => {
                    let mut left = current;
                    proof {
                        assert(removed[index as int] == other.items@[index as int]@);
                        assert(bank_subtract_error(banks, removed[index as int]) is None);
                        lemma_position(banks, current@.hashing_algorithm, i as int);
                    }
                    let outcome = left.subtract(&other.items[index]);
                    assert(outcome is Ok);
                    if !left.is_empty() {
                        items.push(left);
                        proof {
                            origin = origin.push(i as int);
                            assert(views(items@) =~= before.push(left@));
                        }
                    }
                },
            }
            i += 1;
        }
        proof {
            assert(banks.take(banks.len() as int) =~= banks);
            if same_banks(banks, removed) {
                lemma_items_wf(other.items@);
                lemma_subtract_same(banks, removed);
            }
            assert forall|a: int, b: int|
                0 <= a < items@.len() && 0 <= b < items@.len() && a != b implies views(
                items@,
            )[a].hashing_algorithm != views(items@)[b].hashing_algorithm by {
                assert(origin[a] != origin[b]);
                assert(items@[a]@.hashing_algorithm == banks[origin[a]].hashing_algorithm);
                assert(items@[b]@.hashing_algorithm == banks[origin[b]].hashing_algorithm);
            }
            assert forall|a: int, b: int|
                0 <= a < items@.len() && 0 <= b < items@.len() implies views(
                items@,
            )[a].size_of_select == views(items@)[b].size_of_select by {
                assert(items@[a]@.size_of_select == banks[origin[a]].size_of_select);
                assert(items@[b]@.size_of_select == banks[origin[b]].size_of_select);
            }
        }
        self.items = items;
        Ok(())
    }

    /// The selections of the list, bank by bank.
    pub fn into_selections(self) -> (selections: Vec<PcrSelection>)
        ensures
            views(selections@) == self@,
            items_wf(selections@),
    {
        proof {
            use_type_invariant(&self);
        }
        self.items
    }

    /// The selection in the bank of `algorithm`, if the list has one.
    pub fn selection(&self, algorithm: HashingAlgorithm) -> (found: Option<PcrSelection>)
        ensures
            match found {
                Some(selection) => bank(self@, algorithm) == Some(selection@) && selection.wf(),
                None => bank(self@, algorithm) is None,
            },
    {
        proof {
            use_type_invariant(self);
        }
        match find(&self.items, algorithm) {
            Some(index) => Some(self.items[index]),
            None => None,
        }
    }
}

/// What a builder of lists has collected: the width that was asked for, if
/// one was, and the selections, bank by bank, each at the full width of four
/// octets.
pub ghost struct PcrSelectionListBuilderView {
    pub size_of_select: Option<PcrSelectSize>,
    pub selections: Seq<PcrSelectionView>,
}

/// Collects the selections of a list and the width of their masks.
///
/// Selections for the same bank add up. Where no width is given, the list is
/// built with masks of three octets.
#[derive(Debug)]
pub struct PcrSelectionListBuilder {
    size_of_select: Option<PcrSelectSize>,
    items: Vec<PcrSelection>,
}

impl View for PcrSelectionListBuilder {
    type V = PcrSelectionListBuilderView;

    closed spec fn view(&self) -> PcrSelectionListBuilderView {
        PcrSelectionListBuilderView {
            size_of_select: self.size_of_select,
            selections: views(self.items@),
        }
    }
}

/// The banks of a list built from `selections` with masks of `size_of_select` octets.
pub open spec fn narrowed_banks(
    selections: Seq<PcrSelectionView>,
    size_of_select: PcrSelectSize,
) -> Seq<PcrSelectionView> {
    Seq::new(selections.len(), |i: int| selections[i].narrowed(size_of_select))
}

impl PcrSelectionListBuilder {
    /// Whether the value is one that the functions of this type produce.
    #[verifier::type_invariant]
    pub closed spec fn wf(self) -> bool {
        &&& items_wf(self.items@)
        &&& forall|i: int|
            0 <= i < self.items@.len() ==> self.items@[i]@.size_of_select
                == PcrSelectSize::FourBytes
    }

    /// What a builder has collected is well formed: no bank occurs twice, so
    /// there are at most eight, and each selection is at the full width.
    pub proof fn lemma_wf(self)
        requires
            self.wf(),
        ensures
            banks_wf(self@.selections),
            self@.selections.len() <= HASHING_ALGORITHM_COUNT,
            forall|i: int|
                0 <= i < self@.selections.len() ==> (#[trigger] self@.selections[i]).size_of_select
                    == PcrSelectSize::FourBytes,
    {
        lemma_items_wf(self.items@);
    }

    /// A builder that has collected nothing.
    pub fn new() -> (builder: Self)
        ensures
            builder.wf(),
            builder@ == (PcrSelectionListBuilderView {
                size_of_select: None,
                selections: Seq::empty(),
            }),
    {
        let builder = PcrSelectionListBuilder { size_of_select: None, items: Vec::new() };
        assert(builder@.selections =~= Seq::empty());
        builder
    }

    /// Sets the width of the masks of all selections.
    pub fn with_size_of_select(self, size_of_select: PcrSelectSize) -> (builder: Self)
        ensures
            builder.wf(),
            builder@ == (PcrSelectionListBuilderView {
                size_of_select: Some(size_of_select),
                selections: self@.selections,
            }),
    {
        proof {
            use_type_invariant(&self);
        }
        PcrSelectionListBuilder { size_of_select: Some(size_of_select), items: self.items }
    }

    /// Adds `pcr_slots` to the selection in the bank of `hash_algorithm`.
    /// What was selected in that bank before stays selected.
    pub fn with_selection(
        self,
        hash_algorithm: HashingAlgorithm,
        pcr_slots: &[PcrSlot],
    ) -> (builder: Self)
        ensures
            builder.wf(),
            builder@ == (PcrSelectionListBuilderView {
                size_of_select: self@.size_of_select,
                selections: with_bank(
                    self@.selections,
                    PcrSelectionView {
                        hashing_algorithm: hash_algorithm,
                        size_of_select: PcrSelectSize::FourBytes,
                        selected: pcr_slots@.to_set(),
                    },
                ),
            }),
    {
        proof {
            use_type_invariant(&self);
        }
        let selection = PcrSelection::new(hash_algorithm, PcrSelectSize::FourBytes, pcr_slots);
        proof {
            PcrSlot::lemma_index_at();
            assert(selection@.selected =~= pcr_slots@.to_set());
        }
        let mut items = self.items;
        put(&mut items, selection);
        PcrSelectionListBuilder { size_of_select: self.size_of_select, items }
    }

    /// The list of what was collected, with masks of the width that was set,
    /// or of three octets where none was. A slot that a mask of that width
    /// has no place for is left out.
    pub fn build(self) -> (list: PcrSelectionList)
        ensures
            list.wf(),
            list@ == narrowed_banks(
                self@.selections,
                match self@.size_of_select {
                    Some(size_of_select) => size_of_select,
                    None => PcrSelectSize::ThreeBytes,
                },
            ),
    {
        proof {
            use_type_invariant(&self);
        }
        let size_of_select = match self.size_of_select {
            Some(size_of_select) => size_of_select,
            None => PcrSelectSize::default(),
        };
        let mut items: Vec<PcrSelection> = Vec::new();
        let mut i: usize = 0;
        while i < self.items.len()
            invariant
                i <= self.items@.len(),
                items_wf(self.items@),
                items@.len() == i,
                forall|k: int| 0 <= k < i ==> (#[trigger] items@[k]).wf(),
                forall|k: int|
                    0 <= k < i ==> (#[trigger] items@[k])@ == self.items@[k]@.narrowed(
                        size_of_select,
                    ),
            decreases self.items@.len() - i,
        {
            items.push(self.items[i].narrowed(size_of_select));
            i += 1;
        }
        proof {
            assert(views(items@) =~= narrowed_banks(views(self.items@), size_of_select));
            assert forall|a: int, b: int|
                0 <= a < items@.len() && 0 <= b < items@.len() && a != b implies views(
                items@,
            )[a].hashing_algorithm != views(items@)[b].hashing_algorithm by {
                assert(views(self.items@)[a].hashing_algorithm != views(
                    self.items@,
                )[b].hashing_algorithm);
            }
        }
        PcrSelectionList { items }
    }
}

impl Default for PcrSelectionListBuilder {
    fn default() -> (builder: Self)
        ensures
            builder.wf(),
            builder@ == (PcrSelectionListBuilderView {
                size_of_select: None,
                selections: Seq::empty(),
            }),
    {
        PcrSelectionListBuilder::new()
    }
}

impl From<PcrSelectionList> for TPML_PCR_SELECTION {
    /// Writes the list as the device takes it, bank by bank.
    fn from(pcr_selections: PcrSelectionList) -> (tpml: TPML_PCR_SELECTION)
        ensures
            banks_encoded_as(pcr_selections@, tpml),
    {
        proof {
            use_type_invariant(&pcr_selections);
            lemma_items_wf(pcr_selections.items@);
        }
        let mut tpml = TPML_PCR_SELECTION::default();
        let mut i: usize = 0;
        while i < pcr_selections.items.len()
            invariant
                i <= pcr_selections.items@.len() <= HASHING_ALGORITHM_COUNT,
                tpml.count == i,
                forall|k: int|
                    0 <= k < i ==> (#[trigger] pcr_selections@[k]).encoded_as(
                        tpml.pcrSelections@[k],
                    ),
                forall|k: int|
                    i <= k < 16 ==> #[trigger] tpml.pcrSelections@[k]
                        == TPMS_PCR_SELECTION::zeroed(),
            decreases pcr_selections.items@.len() - i,
        {
            tpml.pcrSelections[i] = pcr_selections.items[i].into();
            tpml.count = tpml.count + 1;
            i += 1;
        }
        tpml
    }
}

/// The conversion is stated by the `ensures` of `from`, over the view of the list.
impl FromSpecImpl<PcrSelectionList> for TPML_PCR_SELECTION {
    open spec fn obeys_from_spec() -> bool {
        false
    }

    open spec fn from_spec(pcr_selections: PcrSelectionList) -> TPML_PCR_SELECTION {
        arbitrary()
    }
}

impl TryFrom<TPML_PCR_SELECTION> for PcrSelectionList {
    type Error = Error;

    /// Reads a list of the device.
    ///
    /// Fails with `InvalidParam` if more than sixteen entries are said to
    /// count, and otherwise as `decode_banks` says of the entries that count:
    /// with `InconsistentParams` if they are not of one width, and else with
    /// `InvalidParam` if one of them is not decodable.
    fn try_from(tpml_pcr_selection: TPML_PCR_SELECTION) -> (r: Result<PcrSelectionList, Error>)
        ensures
            tpml_pcr_selection.count > PcrSelectionList::MAX_SIZE ==> r == Err::<
                PcrSelectionList,
                Error,
            >(Error::WrapperError(WrapperErrorKind::InvalidParam)),
            tpml_pcr_selection.count <= PcrSelectionList::MAX_SIZE ==> match decode_banks(
                tpml_pcr_selection.pcrSelections@.take(tpml_pcr_selection.count as int),
            ) {
                Ok(banks) => r is Ok && r->Ok_0.wf() && r->Ok_0@ == banks,
                Err(kind) => r == Err::<PcrSelectionList, Error>(Error::WrapperError(kind)),
            },
    {
        let size = tpml_pcr_selection.count as usize;
        if size > PcrSelectionList::MAX_SIZE {
            return Err(Error::local_error(WrapperErrorKind::InvalidParam));
        }
        let ghost entries = tpml_pcr_selection.pcrSelections@.take(size as int);
        let mut n: usize = 1;
        while n < size
            invariant
                1 <= n,
                size <= 16,
                size == tpml_pcr_selection.count,
                entries == tpml_pcr_selection.pcrSelections@.take(size as int),
                forall|k: int|
                    0 <= k < n && k < size ==> (#[trigger] entries[k]).sizeofSelect
                        == entries[0].sizeofSelect,
            decreases size - n,
        {
            if tpml_pcr_selection.pcrSelections[n].sizeofSelect
                != tpml_pcr_selection.pcrSelections[0].sizeofSelect {
                proof {
                    assert(entries[n as int].sizeofSelect != entries[0].sizeofSelect);
                }
                return Err(Error::local_error(WrapperErrorKind::InconsistentParams));
            }
            n += 1;
        }
        assert(one_width(entries));
        let mut items: Vec<PcrSelection> = Vec::new();
        let mut i: usize = 0;
        proof {
            assert(entries.take(0) =~= Seq::<TPMS_PCR_SELECTION>::empty());
            assert(views(items@) =~= Seq::<PcrSelectionView>::empty());
        }
        while i < size
            invariant
                i <= size <= 16,
                size == tpml_pcr_selection.count,
                entries == tpml_pcr_selection.pcrSelections@.take(size as int),
                one_width(entries),
                items_wf(items@),
                merge_entries(entries.take(i as int)) == Ok::<
                    Seq<PcrSelectionView>,
                    WrapperErrorKind,
                >(views(items@)),
                forall|k: int|
                    0 <= k < items@.len() ==> (#[trigger] items@[k])@.size_of_select.octets()
                        == entries[0].sizeofSelect,
            decreases size - i,
        {
            proof {
                assert(entries.take(i + 1).drop_last() =~= entries.take(i as int));
                assert(entries.take(i + 1).last() == entries[i as int]);
                assert(entries[i as int].sizeofSelect == entries[0].sizeofSelect);
            }
            let parsed = match PcrSelection::try_from(tpml_pcr_selection.pcrSelections[i]) {
                Ok(parsed) => parsed,
                Err(e) => {
                    proof {
                        assert(merge_entries(entries.take(i + 1)) == Err::<
                            Seq<PcrSelectionView>,
                            WrapperErrorKind,
                        >(WrapperErrorKind::InvalidParam));
                        lemma_merge_error_stays(entries, i + 1, size as int);
                        assert(entries.take(size as int) =~= entries);
                    }
                    return Err(e);
                },
            };
            proof {
                assert(parsed@.size_of_select.octets() == entries[0].sizeofSelect);
                assert forall|k: int| 0 <= k < items@.len() implies items@[k]@.size_of_select
                    == parsed@.size_of_select by {
                    assert(items@[k]@.size_of_select.octets()
                        == parsed@.size_of_select.octets());
                }
            }
            put(&mut items, parsed);
            i += 1;
        }
        proof {
            assert(entries.take(size as int) =~= entries);
            assert(views(items@) =~= (PcrSelectionList { items })@);
        }
        Ok(PcrSelectionList { items })
    }
}

/// The conversion is stated by the `ensures` of `try_from`, over the view of
/// the list.
impl TryFromSpecImpl<TPML_PCR_SELECTION> for PcrSelectionList {
    open spec fn obeys_try_from_spec() -> bool {
        false
    }

    open spec fn try_from_spec(tpml_pcr_selection: TPML_PCR_SELECTION) -> Result<
        PcrSelectionList,
        Error,
    > {
        arbitrary()
    }
}

/// Once the selections up to `upto` cannot be subtracted, neither can the
/// selections up to any later point, and for the same reason.
proof fn lemma_subtract_error_stays(
    banks: Seq<PcrSelectionView>,
    other: Seq<PcrSelectionView>,
    upto: int,
    end: int,
)
    requires
        0 <= upto <= end <= other.len(),
        first_subtract_refusal(banks, other.take(upto)) is Some,
    ensures
        first_subtract_refusal(banks, other.take(end)) == first_subtract_refusal(
            banks,
            other.take(upto),
        ),
    decreases end - upto,
{
    if upto < end {
        lemma_subtract_error_stays(banks, other, upto, end - 1);
        assert(other.take(end).drop_last() =~= other.take(end - 1));
    }
}

/// A list can be subtracted exactly when each of its selections can be.
pub proof fn lemma_subtract_error_none(banks: Seq<PcrSelectionView>, other: Seq<PcrSelectionView>)
    ensures
        list_subtract_error(banks, other) is None <==> (forall|k: int|
            0 <= k < other.len() ==> bank_subtract_error(banks, #[trigger] other[k]) is None),
{
    lemma_first_refusal_none(banks, other);
    if names_absent_bank(banks, other) {
        let k = choose|k: int|
            0 <= k < other.len() && position(banks, (#[trigger] other[k]).hashing_algorithm)
                is None;
        assert(bank_subtract_error(banks, other[k]) is Some);
    }
}

/// No selection of a list is refused exactly when each of them can be
/// subtracted.
proof fn lemma_first_refusal_none(banks: Seq<PcrSelectionView>, other: Seq<PcrSelectionView>)
    ensures
        first_subtract_refusal(banks, other) is None <==> (forall|k: int|
            0 <= k < other.len() ==> bank_subtract_error(banks, #[trigger] other[k]) is None),
    decreases other.len(),
{
    if other.len() > 0 {
        lemma_first_refusal_none(banks, other.drop_last());
        if first_subtract_refusal(banks, other) is None {
            assert forall|k: int| 0 <= k < other.len() implies bank_subtract_error(
                banks,
                #[trigger] other[k],
            ) is None by {
                if k < other.len() - 1 {
                    assert(other.drop_last()[k] == other[k]);
                }
            }
        }
        if forall|k: int|
            0 <= k < other.len() ==> bank_subtract_error(banks, #[trigger] other[k]) is None {
            assert forall|k: int| 0 <= k < other.drop_last().len() implies bank_subtract_error(
                banks,
                #[trigger] other.drop_last()[k],
            ) is None by {
                assert(other.drop_last()[k] == other[k]);
            }
            assert(bank_subtract_error(banks, other[other.len() - 1]) is None);
        }
    }
}

/// What is left of the bank `bank` when the selection `removed` of that bank,
/// if there is one, has been subtracted: nothing if no slot is left.
pub open spec fn bank_subtracted(
    bank: PcrSelectionView,
    removed: Option<PcrSelectionView>,
) -> Option<PcrSelectionView> {
    match removed {
        None => Some(bank),
        Some(removed) => if bank.subtracted(removed).selected == Set::<PcrSlot>::empty() {
            None
        } else {
            Some(bank.subtracted(removed))
        },
    }
}

/// Bank by bank, a subtraction leaves of each bank of the list what is left
/// of it when the selection that `other` has for it has been subtracted.
/// No bank comes to the list, and no bank occurs twice.
pub proof fn lemma_subtracted_banks(banks: Seq<PcrSelectionView>, other: Seq<PcrSelectionView>)
    requires
        distinct_banks(banks),
    ensures
        distinct_banks(list_subtracted(banks, other)),
        forall|algorithm: HashingAlgorithm| #[trigger]
            bank(list_subtracted(banks, other), algorithm) == (match bank(banks, algorithm) {
                None => None,
                Some(selection) => bank_subtracted(selection, bank(other, algorithm)),
            }),
    decreases banks.len(),
{
    let after = list_subtracted(banks, other);
    if banks.len() == 0 {
        assert forall|algorithm: HashingAlgorithm| #[trigger]
            bank(after, algorithm) is None && bank(banks, algorithm) is None by {
            assert(forall|i: int| !is_bank_of(after, algorithm, i));
            assert(forall|i: int| !is_bank_of(banks, algorithm, i));
        }
    } else {
        let front = banks.drop_last();
        let last = banks.last();
        let rest = list_subtracted(front, other);
        assert forall|i: int| 0 <= i < front.len() implies front[i] == banks[i] by {}
        assert(distinct_banks(front)) by {
            assert forall|i: int, j: int|
                0 <= i < front.len() && 0 <= j < front.len() && i
                    != j implies front[i].hashing_algorithm != front[j].hashing_algorithm by {
                assert(banks[i].hashing_algorithm != banks[j].hashing_algorithm);
            }
        }
        lemma_subtracted_banks(front, other);
        assert(position(front, last.hashing_algorithm) is None) by {
            if position(front, last.hashing_algorithm) is Some {
                let i = position(front, last.hashing_algorithm)->0;
                assert(banks[i].hashing_algorithm == banks[banks.len() - 1].hashing_algorithm);
            }
        }
        assert(bank(rest, last.hashing_algorithm) is None);
        assert(forall|i: int| !is_bank_of(rest, last.hashing_algorithm, i));
        lemma_position(banks, last.hashing_algorithm, banks.len() - 1);
        let kept = bank_subtracted(last, bank(other, last.hashing_algorithm));
        assert(after == (match kept {
            Some(left) => rest.push(left),
            None => rest,
        }));
        assert(distinct_banks(after)) by {
            assert forall|i: int, j: int|
                0 <= i < after.len() && 0 <= j < after.len() && i
                    != j implies after[i].hashing_algorithm != after[j].hashing_algorithm by {
                if i == rest.len() {
                    assert(!is_bank_of(rest, last.hashing_algorithm, j));
                } else if j == rest.len() {
                    assert(!is_bank_of(rest, last.hashing_algorithm, i));
                } else {
                    assert(rest[i].hashing_algorithm != rest[j].hashing_algorithm);
                }
            }
        }
        assert forall|algorithm: HashingAlgorithm| #[trigger]
            bank(after, algorithm) == (match bank(banks, algorithm) {
                None => None,
                Some(selection) => bank_subtracted(selection, bank(other, algorithm)),
            }) by {
            if algorithm == last.hashing_algorithm {
                match kept {
                    Some(left) => {
                        lemma_position(after, algorithm, rest.len() as int);
                    },
                    None => {},
                }
            } else {
                assert(bank(banks, algorithm) == bank(front, algorithm)) by {
                    if position(banks, algorithm) is Some {
                        let i = position(banks, algorithm)->0;
                        assert(is_bank_of(front, algorithm, i));
                        lemma_position(front, algorithm, i);
                        lemma_position(banks, algorithm, i);
                    } else if position(front, algorithm) is Some {
                        let i = position(front, algorithm)->0;
                        assert(is_bank_of(banks, algorithm, i));
                    }
                }
                assert(bank(after, algorithm) == bank(rest, algorithm)) by {
                    if position(rest, algorithm) is Some {
                        let i = position(rest, algorithm)->0;
                        assert(is_bank_of(after, algorithm, i));
                        lemma_position(after, algorithm, i);
                        lemma_position(rest, algorithm, i);
                    } else if position(after, algorithm) is Some {
                        let i = position(after, algorithm)->0;
                        assert(is_bank_of(rest, algorithm, i));
                    }
                }
            }
        }
    }
}

/// Subtracting from a list a list that holds the same selections leaves the
/// empty list.
pub proof fn lemma_subtract_same(banks: Seq<PcrSelectionView>, other: Seq<PcrSelectionView>)
    requires
        distinct_banks(banks),
        distinct_banks(other),
        same_banks(banks, other),
    ensures
        list_subtract_error(banks, other) is None,
        list_subtracted(banks, other) == Seq::<PcrSelectionView>::empty(),
{
    assert forall|k: int| 0 <= k < other.len() implies bank_subtract_error(
        banks,
        #[trigger] other[k],
    ) is None by {
        let algorithm = other[k].hashing_algorithm;
        lemma_position(other, algorithm, k);
        assert(bank(banks, algorithm) == bank(other, algorithm));
        let index = position(banks, algorithm)->0;
        banks[index].lemma_subtract_self();
    }
    lemma_subtract_error_none(banks, other);
    lemma_subtract_same_prefix(banks, other, banks.len() as int);
    assert(banks.take(banks.len() as int) =~= banks);
}

/// Subtracting a list that holds the same selections leaves nothing of any
/// prefix of the list.
proof fn lemma_subtract_same_prefix(
    banks: Seq<PcrSelectionView>,
    other: Seq<PcrSelectionView>,
    upto: int,
)
    requires
        distinct_banks(banks),
        distinct_banks(other),
        same_banks(banks, other),
        0 <= upto <= banks.len(),
    ensures
        list_subtracted(banks.take(upto), other) == Seq::<PcrSelectionView>::empty(),
    decreases upto,
{
    if upto > 0 {
        lemma_subtract_same_prefix(banks, other, upto - 1);
        assert(banks.take(upto).drop_last() =~= banks.take(upto - 1));
        let last = banks[upto - 1];
        assert(banks.take(upto).last() == last);
        lemma_position(banks, last.hashing_algorithm, upto - 1);
        assert(bank(banks, last.hashing_algorithm) == bank(other, last.hashing_algorithm));
        last.lemma_subtract_self();
    }
}

/// Subtracting a list with a selection for a bank that the target does not
/// have is refused with `InvalidParam`.
pub proof fn lemma_subtract_absent(
    banks: Seq<PcrSelectionView>,
    other: Seq<PcrSelectionView>,
    absent: int,
)
    requires
        0 <= absent < other.len(),
        position(banks, other[absent].hashing_algorithm) is None,
    ensures
        list_subtract_error(banks, other) == Some(WrapperErrorKind::InvalidParam),
{
}

/// What is written can be read back: the entries of the encoding of a list
/// stand for the banks of that list, in their order.
pub proof fn lemma_encoding_reads_back(banks: Seq<PcrSelectionView>, tpml: TPML_PCR_SELECTION)
    requires
        banks_wf(banks),
        banks.len() <= 16,
        banks_encoded_as(banks, tpml),
    ensures
        decode_banks(tpml.pcrSelections@.take(tpml.count as int)) == Ok::<
            Seq<PcrSelectionView>,
            WrapperErrorKind,
        >(banks),
{
    let entries = tpml.pcrSelections@.take(tpml.count as int);
    lemma_encoding_reads_back_prefix(banks, tpml, banks.len() as int);
    assert(banks.take(banks.len() as int) =~= banks);
    assert(one_width(entries)) by {
        assert forall|i: int| 0 <= i < entries.len() implies (#[trigger] entries[i]).sizeofSelect
            == entries[0].sizeofSelect by {
            assert(banks[i].encoded_as(tpml.pcrSelections@[i]));
            assert(banks[0].encoded_as(tpml.pcrSelections@[0]));
            assert(banks[i].size_of_select == banks[0].size_of_select);
        }
    }
}

/// The first entries of the encoding of a list stand for the first banks of
/// that list.
proof fn lemma_encoding_reads_back_prefix(
    banks: Seq<PcrSelectionView>,
    tpml: TPML_PCR_SELECTION,
    upto: int,
)
    requires
        banks_wf(banks),
        banks.len() <= 16,
        banks_encoded_as(banks, tpml),
        0 <= upto <= banks.len(),
    ensures
        merge_entries(tpml.pcrSelections@.take(upto)) == Ok::<
            Seq<PcrSelectionView>,
            WrapperErrorKind,
        >(banks.take(upto)),
    decreases upto,
{
    let entries = tpml.pcrSelections@;
    if upto == 0 {
        assert(banks.take(0) =~= Seq::<PcrSelectionView>::empty());
        assert(entries.take(0) =~= Seq::<TPMS_PCR_SELECTION>::empty());
    } else {
        lemma_encoding_reads_back_prefix(banks, tpml, upto - 1);
        assert(entries.take(upto).drop_last() =~= entries.take(upto - 1));
        assert(entries.take(upto).last() == entries[upto - 1]);
        let before = banks.take(upto - 1);
        let selection = banks[upto - 1];
        selection.lemma_encoding_reads_back(entries[upto - 1]);
        assert(position(before, selection.hashing_algorithm) is None) by {
            if position(before, selection.hashing_algorithm) is Some {
                let index = position(before, selection.hashing_algorithm)->0;
                assert(before[index] == banks[index]);
            }
        }
        assert(before.push(selection) =~= banks.take(upto));
    }
}

/// To put a well-formed selection of the same width among well-formed banks
/// gives well-formed banks of that width again, the bank of the selection
/// among them.
pub proof fn lemma_with_bank(banks: Seq<PcrSelectionView>, selection: PcrSelectionView)
    requires
        banks_wf(banks),
        selection.wf(),
        forall|i: int| 0 <= i < banks.len() ==> banks[i].size_of_select == selection.size_of_select,
    ensures
        banks_wf(with_bank(banks, selection)),
        with_bank(banks, selection).len() > 0,
        forall|i: int|
            0 <= i < with_bank(banks, selection).len() ==> (#[trigger] with_bank(
                banks,
                selection,
            )[i]).size_of_select == selection.size_of_select,
        forall|algorithm: HashingAlgorithm|
            position(with_bank(banks, selection), algorithm) is Some <==> algorithm
                == selection.hashing_algorithm || position(banks, algorithm) is Some,
{
    let after = with_bank(banks, selection);
    match position(banks, selection.hashing_algorithm) {
        Some(index) => {
            banks[index].lemma_merge_wf(selection);
            assert forall|algorithm: HashingAlgorithm|
                position(after, algorithm) is Some <==> algorithm == selection.hashing_algorithm
                    || position(banks, algorithm) is Some by {
                if position(after, algorithm) is Some {
                    let k = position(after, algorithm)->0;
                    assert(is_bank_of(banks, algorithm, k));
                }
                if position(banks, algorithm) is Some {
                    let k = position(banks, algorithm)->0;
                    assert(is_bank_of(after, algorithm, k));
                }
            }
        },
        None => {
            assert forall|i: int, j: int|
                0 <= i < after.len() && 0 <= j < after.len() && i
                    != j implies after[i].hashing_algorithm != after[j].hashing_algorithm by {
                if i == banks.len() {
                    assert(!is_bank_of(banks, selection.hashing_algorithm, j));
                } else if j == banks.len() {
                    assert(!is_bank_of(banks, selection.hashing_algorithm, i));
                }
            }
            assert forall|algorithm: HashingAlgorithm|
                position(after, algorithm) is Some <==> algorithm == selection.hashing_algorithm
                    || position(banks, algorithm) is Some by {
                if position(after, algorithm) is Some {
                    let k = position(after, algorithm)->0;
                    if k < banks.len() {
                        assert(is_bank_of(banks, algorithm, k));
                    }
                }
                if position(banks, algorithm) is Some {
                    let k = position(banks, algorithm)->0;
                    assert(is_bank_of(after, algorithm, k));
                }
                if algorithm == selection.hashing_algorithm {
                    assert(is_bank_of(after, algorithm, banks.len() as int));
                }
            }
        },
    }
}

/// When the entries of a device structure stand for banks: when each of
/// them is decodable and all have the same width. The banks are then well
/// formed, of that width, and there is one for each hash algorithm that an
/// entry names, and no other.
pub proof fn lemma_decode_banks(entries: Seq<TPMS_PCR_SELECTION>)
    ensures
        decode_banks(entries) is Ok <==> (forall|i: int|
            0 <= i < entries.len() ==> PcrSelectionView::decodable(#[trigger] entries[i])
                && entries[i].sizeofSelect == entries[0].sizeofSelect),
        decode_banks(entries) matches Ok(banks) ==> {
            &&& banks_wf(banks)
            &&& banks.len() > 0 <==> entries.len() > 0
            &&& forall|k: int|
                0 <= k < banks.len() ==> (#[trigger] banks[k]).size_of_select.octets()
                    == entries[0].sizeofSelect
            &&& forall|algorithm: HashingAlgorithm|
                position(banks, algorithm) is Some <==> exists|i: int|
                    0 <= i < entries.len() && (#[trigger] entries[i]).hash == algorithm.alg_id()
        },
{
    if one_width(entries) {
        lemma_merge_entries(entries);
    } else {
        let i = choose|i: int|
            0 <= i < entries.len() && (#[trigger] entries[i]).sizeofSelect
                != entries[0].sizeofSelect;
        assert(entries[i].sizeofSelect != entries[0].sizeofSelect);
    }
}

/// Entries of one width stand for banks when each of them is decodable. The
/// banks are then well formed, of that width, and there is one for each
/// hash algorithm that an entry names, and no other.
proof fn lemma_merge_entries(entries: Seq<TPMS_PCR_SELECTION>)
    requires
        one_width(entries),
    ensures
        merge_entries(entries) is Ok <==> (forall|i: int|
            0 <= i < entries.len() ==> PcrSelectionView::decodable(#[trigger] entries[i])),
        merge_entries(entries) matches Ok(banks) ==> {
            &&& banks_wf(banks)
            &&& banks.len() > 0 <==> entries.len() > 0
            &&& forall|k: int|
                0 <= k < banks.len() ==> (#[trigger] banks[k]).size_of_select.octets()
                    == entries[0].sizeofSelect
            &&& forall|algorithm: HashingAlgorithm|
                position(banks, algorithm) is Some <==> exists|i: int|
                    0 <= i < entries.len() && (#[trigger] entries[i]).hash == algorithm.alg_id()
        },
    decreases entries.len(),
{
    if entries.len() > 0 {
        let front = entries.drop_last();
        let last = entries.last();
        assert forall|i: int| 0 <= i < front.len() implies front[i] == entries[i] by {}
        assert(last == entries[entries.len() - 1]);
        assert(one_width(front)) by {
            assert forall|i: int| 0 <= i < front.len() implies (#[trigger] front[i]).sizeofSelect
                == front[0].sizeofSelect by {
                assert(entries[i].sizeofSelect == entries[0].sizeofSelect);
                assert(front[0] == entries[0]);
            }
        }
        lemma_merge_entries(front);
        HashingAlgorithm::lemma_alg_id_round_trip();
        if front.len() > 0 {
            assert(front[0] == entries[0]);
        }
        assert(entries[entries.len() - 1].sizeofSelect == entries[0].sizeofSelect);
        let all_fit = forall|i: int|
            0 <= i < entries.len() ==> PcrSelectionView::decodable(#[trigger] entries[i]);
        let front_fit = forall|i: int|
            0 <= i < front.len() ==> PcrSelectionView::decodable(#[trigger] front[i]);
        if all_fit {
            assert(front_fit) by {
                assert forall|i: int| 0 <= i < front.len() implies PcrSelectionView::decodable(
                    #[trigger] front[i],
                ) by {
                    assert(PcrSelectionView::decodable(entries[i]));
                }
            }
            assert(PcrSelectionView::decodable(entries[entries.len() - 1]));
        }
        match merge_entries(front) {
            Err(_) => {
                assert(!all_fit);
            },
            Ok(banks) => {
                assert(front_fit);
                let selection = PcrSelectionView::decoded(last);
                if !PcrSelectionView::decodable(last) {
                    assert(!all_fit);
                } else {
                    assert(selection.wf());
                    assert(selection.size_of_select.octets() == last.sizeofSelect);
                    assert forall|i: int| 0 <= i < banks.len() implies banks[i].size_of_select
                        == selection.size_of_select by {
                        assert(banks[i].size_of_select.octets() == entries[0].sizeofSelect);
                    }
                    lemma_with_bank(banks, selection);
                    let after = with_bank(banks, selection);
                    assert(all_fit) by {
                        assert forall|i: int|
                            0 <= i < entries.len() implies PcrSelectionView::decodable(
                            #[trigger] entries[i],
                        ) by {
                            if i < front.len() {
                                assert(PcrSelectionView::decodable(front[i]));
                            }
                        }
                    }
                    assert forall|algorithm: HashingAlgorithm|
                        position(after, algorithm) is Some <==> exists|i: int|
                            0 <= i < entries.len() && (#[trigger] entries[i]).hash
                                == algorithm.alg_id() by {
                        if algorithm == selection.hashing_algorithm {
                            assert(entries[entries.len() - 1].hash == algorithm.alg_id());
                        }
                        if position(banks, algorithm) is Some {
                            let i = choose|i: int|
                                0 <= i < front.len() && (#[trigger] front[i]).hash
                                    == algorithm.alg_id();
                            assert(entries[i].hash == algorithm.alg_id());
                        }
                        if exists|i: int|
                            0 <= i < entries.len() && (#[trigger] entries[i]).hash
                                == algorithm.alg_id() {
                            let i = choose|i: int|
                                0 <= i < entries.len() && (#[trigger] entries[i]).hash
                                    == algorithm.alg_id();
                            if i < front.len() {
                                assert(front[i].hash == algorithm.alg_id());
                            } else {
                                assert(last.hash == algorithm.alg_id());
                                assert(HashingAlgorithm::from_alg_id(algorithm.alg_id()) == Some(
                                    algorithm,
                                ));
                            }
                        }
                    }
                }
            },
        }
    }
}

/// Once the entries up to `upto` are refused, so are the entries up to any
/// later point, and for the same reason.
proof fn lemma_merge_error_stays(entries: Seq<TPMS_PCR_SELECTION>, upto: int, end: int)
    requires
        0 <= upto <= end <= entries.len(),
        merge_entries(entries.take(upto)) is Err,
    ensures
        merge_entries(entries.take(end)) == merge_entries(entries.take(upto)),
    decreases end - upto,
{
    if upto < end {
        lemma_merge_error_stays(entries, upto, end - 1);
        assert(entries.take(end).drop_last() =~= entries.take(end - 1));
    }
}

impl PartialEq for PcrSelectionList {
    /// Two lists are equal when they hold the same selections, in whatever order.
    fn eq(&self, other: &Self) -> (equal: bool) {
        proof {
            use_type_invariant(self);
            use_type_invariant(other);
            lemma_items_wf(self.items@);
            lemma_items_wf(other.items@);
        }
        let ghost a = views(self.items@);
        let ghost b = views(other.items@);
        let mut i: usize = 0;
        while i < self.items.len()
            invariant
                i <= self.items@.len(),
                items_wf(self.items@),
                items_wf(other.items@),
                a == views(self.items@),
                b == views(other.items@),
                forall|k: int| 0 <= k < i ==> bank(b, a[k].hashing_algorithm) == Some(a[k]),
            decreases self.items@.len() - i,
        {
            let ghost algorithm = a[i as int].hashing_algorithm;
            proof {
                assert(a[i as int] == self.items@[i as int]@);
                lemma_position(a, algorithm, i as int);
            }
            match find(&other.items, self.items[i].hashing_algorithm()) {
                None => {
                    return false;
                },
                Some(index) => {
                    proof {
                        assert(b[index as int] == other.items@[index as int]@);
                        self.items@[i as int].lemma_view_determines(other.items@[index as int]);
                    }
                    if self.items[i] != other.items[index] {
                        return false;
                    }
                },
            }
            i += 1;
        }
        let mut j: usize = 0;
        while j < other.items.len()
            invariant
                j <= other.items@.len(),
                items_wf(self.items@),
                items_wf(other.items@),
                a == views(self.items@),
                b == views(other.items@),
                forall|k: int| 0 <= k < a.len() ==> bank(b, a[k].hashing_algorithm) == Some(a[k]),
                forall|k: int| 0 <= k < j ==> position(a, b[k].hashing_algorithm) is Some,
            decreases other.items@.len() - j,
        {
            let ghost algorithm = b[j as int].hashing_algorithm;
            proof {
                assert(b[j as int] == other.items@[j as int]@);
                lemma_position(b, algorithm, j as int);
            }
            if find(&self.items, other.items[j].hashing_algorithm()).is_none() {
                return false;
            }
            j += 1;
        }
        proof {
            assert forall|algorithm: HashingAlgorithm| bank(a, algorithm) == bank(
                b,
                algorithm,
            ) by {
                match position(a, algorithm) {
                    Some(k) => {
                        assert(bank(b, a[k].hashing_algorithm) == Some(a[k]));
                    },
                    None => {
                        if position(b, algorithm) is Some {
                            let k = position(b, algorithm)->0;
                            assert(position(a, b[k].hashing_algorithm) is Some);
                        }
                    },
                }
            }
        }
        true
    }
}

impl PartialEqSpecImpl for PcrSelectionList {
    open spec fn obeys_eq_spec() -> bool {
        true
    }

    open spec fn eq_spec(&self, other: &Self) -> bool {
        same_banks(self@, other@)
    }
}

impl Eq for PcrSelectionList {

}

impl Clone for PcrSelectionList {
    fn clone(&self) -> (list: Self)
        ensures
            list@ == self@,
            list.wf(),
    {
        proof {
            use_type_invariant(self);
        }
        let mut items: Vec<PcrSelection> = Vec::new();
        let mut i: usize = 0;
        while i < self.items.len()
            invariant
                i <= self.items@.len(),
                items@ == self.items@.take(i as int),
            decreases self.items@.len() - i,
        {
            items.push(self.items[i]);
            assert(self.items@.take(i as int).push(self.items@[i as int]) =~= self.items@.take(
                i + 1,
            ));
            i += 1;
        }
        assert(self.items@.take(self.items@.len() as int) =~= self.items@);
        PcrSelectionList { items }
    }
}

} // verus!
