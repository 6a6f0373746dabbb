use std::convert::TryFrom;
use tss_esapi::algorithm::HashingAlgorithm;
use tss_esapi::error::{Error, WrapperErrorKind};
use tss_esapi::pcr::selections::{PcrSelections, PcrSelectionsBuilder};
use tss_esapi::pcr::{PcrSelectSize, PcrSelection, PcrSelectionList, PcrSelectionListBuilder, PcrSlot};
use tss_esapi::tss2_esys::{TPML_PCR_SELECTION, TPMS_PCR_SELECTION};

const ALL_ALGORITHMS: [HashingAlgorithm; 8] = [
    HashingAlgorithm::Sha1,
    HashingAlgorithm::Sha256,
    HashingAlgorithm::Sha384,
    HashingAlgorithm::Sha512,
    HashingAlgorithm::Sm3_256,
    HashingAlgorithm::Sha3_256,
    HashingAlgorithm::Sha3_384,
    HashingAlgorithm::Sha3_512,
];

fn local(kind: WrapperErrorKind) -> Error {
    Error::WrapperError(kind)
}

fn selection(algorithm: HashingAlgorithm, slots: &[PcrSlot]) -> PcrSelection {
    PcrSelection::new(algorithm, PcrSelectSize::ThreeBytes, slots)
}

fn entry(hash: u16, size: u8, mask: [u8; 4]) -> TPMS_PCR_SELECTION {
    TPMS_PCR_SELECTION { hash, sizeofSelect: size, pcrSelect: mask }
}

fn list_of(entries: &[TPMS_PCR_SELECTION]) -> TPML_PCR_SELECTION {
    let mut tpml = TPML_PCR_SELECTION::default();
    for (i, e) in entries.iter().enumerate() {
        tpml.pcrSelections[i] = *e;
    }
    tpml.count = entries.len() as u32;
    tpml
}

#[test]
fn slot_numbers_round_trip() {
    for number in 0..24u32 {
        let slot = PcrSlot::try_from(number).unwrap();
        assert_eq!(slot.number(), number);
    }
    assert_eq!(PcrSlot::try_from(0).unwrap(), PcrSlot::Slot0);
    assert_eq!(PcrSlot::try_from(23).unwrap(), PcrSlot::Slot23);
    assert_eq!(PcrSlot::try_from(24), Err(local(WrapperErrorKind::InvalidParam)));
    assert_eq!(PcrSlot::try_from(u32::MAX), Err(local(WrapperErrorKind::InvalidParam)));
}

#[test]
fn select_size_conversions() {
    assert_eq!(PcrSelectSize::default(), PcrSelectSize::ThreeBytes);
    assert_eq!(PcrSelectSize::try_from(1u8), Ok(PcrSelectSize::OneByte));
    assert_eq!(PcrSelectSize::try_from(4u8), Ok(PcrSelectSize::FourBytes));
    assert_eq!(PcrSelectSize::try_from(0u8), Err(local(WrapperErrorKind::InvalidParam)));
    assert_eq!(PcrSelectSize::try_from(5u8), Err(local(WrapperErrorKind::InvalidParam)));
    assert_eq!(u8::from(PcrSelectSize::TwoBytes), 2);
}

#[test]
fn hashing_algorithm_conversions() {
    for algorithm in ALL_ALGORITHMS {
        let id: u16 = algorithm.into();
        assert_eq!(HashingAlgorithm::try_from(id), Ok(algorithm));
    }
    assert_eq!(u16::from(HashingAlgorithm::Sha1), 0x0004);
    assert_eq!(u16::from(HashingAlgorithm::Sha256), 0x000B);
    assert_eq!(u16::from(HashingAlgorithm::Sha3_512), 0x0029);
    assert_eq!(HashingAlgorithm::try_from(0x0001u16), Err(local(WrapperErrorKind::InvalidParam)));
}

#[test]
fn encoding_of_slot_0() {
    let list = PcrSelectionListBuilder::new()
        .with_size_of_select(PcrSelectSize::ThreeBytes)
        .with_selection(HashingAlgorithm::Sha256, &[PcrSlot::Slot0])
        .build();
    let tpml: TPML_PCR_SELECTION = list.into();
    assert_eq!(tpml.count, 1);
    assert_eq!(tpml.pcrSelections[0].hash, 0x000B);
    assert_eq!(tpml.pcrSelections[0].sizeofSelect, 3);
    assert_eq!(tpml.pcrSelections[0].pcrSelect, [0x01, 0x00, 0x00, 0x00]);
    assert_eq!(tpml.pcrSelections[1], TPMS_PCR_SELECTION::default());
}

#[test]
fn encoding_of_slots_0_and_16() {
    let list = PcrSelectionListBuilder::new()
        .with_size_of_select(PcrSelectSize::ThreeBytes)
        .with_selection(HashingAlgorithm::Sha256, &[PcrSlot::Slot0, PcrSlot::Slot16])
        .build();
    let tpml: TPML_PCR_SELECTION = list.into();
    assert_eq!(&tpml.pcrSelections[0].pcrSelect[..3], &[0x01, 0x00, 0x01]);
    assert_eq!(tpml.pcrSelections[0].pcrSelect[3], 0);
}

#[test]
fn encoding_of_every_slot() {
    for number in 0..24u32 {
        let slot = PcrSlot::try_from(number).unwrap();
        let tss: TPMS_PCR_SELECTION = selection(HashingAlgorithm::Sha1, &[slot]).into();
        let mut expected = [0u8; 4];
        expected[(number / 8) as usize] = 1 << (number % 8);
        assert_eq!(tss.pcrSelect, expected);
        assert_eq!(tss.hash, 0x0004);
        assert_eq!(tss.sizeofSelect, 3);
    }
}

#[test]
fn selection_round_trip() {
    let a = selection(HashingAlgorithm::Sha384, &[PcrSlot::Slot3, PcrSlot::Slot9, PcrSlot::Slot23]);
    let tss: TPMS_PCR_SELECTION = a.into();
    assert_eq!(tss.pcrSelect, [0b0000_1000, 0b0000_0010, 0b1000_0000, 0]);
    assert_eq!(PcrSelection::try_from(tss), Ok(a));
}

#[test]
fn selection_decoding_rejects_what_is_out_of_domain() {
    let invalid = Err(local(WrapperErrorKind::InvalidParam));
    // no hash algorithm
    assert_eq!(PcrSelection::try_from(entry(0x0001, 3, [1, 0, 0, 0])), invalid);
    // widths that no mask has
    assert_eq!(PcrSelection::try_from(entry(0x000B, 0, [0, 0, 0, 0])), invalid);
    assert_eq!(PcrSelection::try_from(entry(0x000B, 5, [0, 0, 0, 0])), invalid);
    // a bit that stands for no slot
    assert_eq!(PcrSelection::try_from(entry(0x000B, 4, [0, 0, 0, 1])), invalid);
}

#[test]
fn selection_decoding_reads_the_octets_that_count() {
    // the octets behind the width are no part of the mask
    let parsed = PcrSelection::try_from(entry(0x000B, 1, [0b101, 0xFF, 0xFF, 0xFF])).unwrap();
    assert_eq!(parsed.size_of_select(), PcrSelectSize::OneByte);
    assert!(parsed.is_selected(PcrSlot::Slot0));
    assert!(!parsed.is_selected(PcrSlot::Slot1));
    assert!(parsed.is_selected(PcrSlot::Slot2));
    assert!(!parsed.is_selected(PcrSlot::Slot8));
    // the last bit of the mask counts
    let parsed = PcrSelection::try_from(entry(0x000B, 3, [0, 0, 0x80, 0])).unwrap();
    assert!(parsed.is_selected(PcrSlot::Slot23));
    let parsed = PcrSelection::try_from(entry(0x000B, 4, [0, 0, 0x80, 0])).unwrap();
    assert!(parsed.is_selected(PcrSlot::Slot23));
    assert_eq!(parsed.size_of_select(), PcrSelectSize::FourBytes);
}

#[test]
fn selection_keeps_only_slots_that_fit() {
    let narrow = PcrSelection::new(
        HashingAlgorithm::Sha256,
        PcrSelectSize::OneByte,
        &[PcrSlot::Slot0, PcrSlot::Slot7, PcrSlot::Slot8, PcrSlot::Slot16],
    );
    assert!(narrow.is_selected(PcrSlot::Slot0));
    assert!(narrow.is_selected(PcrSlot::Slot7));
    assert!(!narrow.is_selected(PcrSlot::Slot8));
    assert!(!narrow.is_selected(PcrSlot::Slot16));
    let tss: TPMS_PCR_SELECTION = narrow.into();
    assert_eq!(tss.sizeofSelect, 1);
    assert_eq!(tss.pcrSelect, [0x81, 0, 0, 0]);
    let built = PcrSelectionListBuilder::new()
        .with_selection(HashingAlgorithm::Sha256, &[PcrSlot::Slot1, PcrSlot::Slot20])
        .with_size_of_select(PcrSelectSize::TwoBytes)
        .build();
    let tpml: TPML_PCR_SELECTION = built.into();
    assert_eq!(tpml.pcrSelections[0].sizeofSelect, 2);
    assert_eq!(tpml.pcrSelections[0].pcrSelect, [0x02, 0, 0, 0]);
}

#[test]
fn selection_is_empty_and_membership() {
    let none = selection(HashingAlgorithm::Sha1, &[]);
    assert!(none.is_empty());
    let some = selection(HashingAlgorithm::Sha1, &[PcrSlot::Slot5, PcrSlot::Slot5]);
    assert!(!some.is_empty());
    assert!(some.is_selected(PcrSlot::Slot5));
    assert!(!some.is_selected(PcrSlot::Slot4));
    assert_eq!(some.hashing_algorithm(), HashingAlgorithm::Sha1);
    assert_eq!(some.size_of_select(), PcrSelectSize::ThreeBytes);
}

#[test]
fn merge_is_commutative_and_idempotent() {
    let a = selection(HashingAlgorithm::Sha256, &[PcrSlot::Slot0, PcrSlot::Slot8]);
    let b = selection(HashingAlgorithm::Sha256, &[PcrSlot::Slot8, PcrSlot::Slot17]);
    let mut ab = a;
    ab.merge(&b).unwrap();
    let mut ba = b;
    ba.merge(&a).unwrap();
    assert_eq!(ab, ba);
    assert_eq!(ab, selection(HashingAlgorithm::Sha256, &[PcrSlot::Slot0, PcrSlot::Slot8, PcrSlot::Slot17]));
    let mut aa = a;
    aa.merge(&a).unwrap();
    assert_eq!(aa, a);
    let mut abb = ab;
    abb.merge(&b).unwrap();
    assert_eq!(abb, ab);
}

#[test]
fn merge_rejects_other_width_and_other_bank() {
    let a = selection(HashingAlgorithm::Sha256, &[PcrSlot::Slot0]);
    let wide = PcrSelection::new(HashingAlgorithm::Sha256, PcrSelectSize::FourBytes, &[PcrSlot::Slot1]);
    let other = selection(HashingAlgorithm::Sha1, &[PcrSlot::Slot1]);
    let mut target = a;
    assert_eq!(target.merge(&wide), Err(local(WrapperErrorKind::InconsistentParams)));
    assert_eq!(target, a);
    assert_eq!(target.merge(&other), Err(local(WrapperErrorKind::InconsistentParams)));
    assert_eq!(target, a);
}

#[test]
fn selection_subtract() {
    let a = selection(HashingAlgorithm::Sha256, &[PcrSlot::Slot0, PcrSlot::Slot8, PcrSlot::Slot9]);
    let b = selection(HashingAlgorithm::Sha256, &[PcrSlot::Slot8]);
    let mut left = a;
    left.subtract(&b).unwrap();
    assert_eq!(left, selection(HashingAlgorithm::Sha256, &[PcrSlot::Slot0, PcrSlot::Slot9]));
    let mut all = a;
    all.subtract(&a).unwrap();
    assert!(all.is_empty());
    // a slot that was never selected
    let c = selection(HashingAlgorithm::Sha256, &[PcrSlot::Slot8, PcrSlot::Slot10]);
    let mut target = a;
    assert_eq!(target.subtract(&c), Err(local(WrapperErrorKind::InvalidParam)));
    assert_eq!(target, a);
    // another width
    let wide = PcrSelection::new(HashingAlgorithm::Sha256, PcrSelectSize::FourBytes, &[PcrSlot::Slot8]);
    assert_eq!(target.subtract(&wide), Err(local(WrapperErrorKind::InconsistentParams)));
    assert_eq!(target, a);
}

#[test]
fn builder_merges_repeated_selections() {
    let list = PcrSelectionListBuilder::new()
        .with_selection(HashingAlgorithm::Sha256, &[PcrSlot::Slot0])
        .with_selection(HashingAlgorithm::Sha1, &[PcrSlot::Slot1])
        .with_selection(HashingAlgorithm::Sha256, &[PcrSlot::Slot8])
        .build();
    assert_eq!(list.len(), 2);
    assert!(!list.is_empty());
    assert_eq!(
        list.selection(HashingAlgorithm::Sha256),
        Some(selection(HashingAlgorithm::Sha256, &[PcrSlot::Slot0, PcrSlot::Slot8]))
    );
    assert_eq!(
        list.selection(HashingAlgorithm::Sha1),
        Some(selection(HashingAlgorithm::Sha1, &[PcrSlot::Slot1]))
    );
    assert_eq!(list.selection(HashingAlgorithm::Sha512), None);
    let tpml: TPML_PCR_SELECTION = list.into();
    assert_eq!(tpml.count, 2);
    assert_eq!(tpml.pcrSelections[0], entry(0x000B, 3, [1, 1, 0, 0]));
    assert_eq!(tpml.pcrSelections[1], entry(0x0004, 3, [2, 0, 0, 0]));
}

#[test]
fn list_equality_ignores_order() {
    let a = PcrSelectionListBuilder::new()
        .with_selection(HashingAlgorithm::Sha256, &[PcrSlot::Slot0])
        .with_selection(HashingAlgorithm::Sha1, &[PcrSlot::Slot1])
        .build();
    let b = PcrSelectionListBuilder::new()
        .with_selection(HashingAlgorithm::Sha1, &[PcrSlot::Slot1])
        .with_selection(HashingAlgorithm::Sha256, &[PcrSlot::Slot0])
        .build();
    let c = PcrSelectionListBuilder::new()
        .with_selection(HashingAlgorithm::Sha1, &[PcrSlot::Slot1])
        .build();
    let d = PcrSelectionListBuilder::new()
        .with_selection(HashingAlgorithm::Sha1, &[PcrSlot::Slot2])
        .with_selection(HashingAlgorithm::Sha256, &[PcrSlot::Slot0])
        .build();
    assert_eq!(a, b);
    assert_eq!(a, a.clone());
    assert_ne!(a, c);
    assert_ne!(c, a);
    assert_ne!(a, d);
    assert_eq!(PcrSelectionListBuilder::new().build(), PcrSelectionList::list_from_option(None));
}

#[test]
fn list_from_option_hands_the_list_on() {
    let a = PcrSelectionListBuilder::new()
        .with_selection(HashingAlgorithm::Sha256, &[PcrSlot::Slot0])
        .build();
    assert_eq!(PcrSelectionList::list_from_option(Some(a.clone())), a);
    let empty = PcrSelectionList::list_from_option(None);
    assert!(empty.is_empty());
    assert_eq!(empty.len(), 0);
}

#[test]
fn subtract_removes_slots_and_empty_banks() {
    let mut list = PcrSelectionListBuilder::new()
        .with_size_of_select(Default::default())
        .with_selection(HashingAlgorithm::Sha256, &[PcrSlot::Slot0, PcrSlot::Slot8])
        .with_selection(HashingAlgorithm::Sha1, &[PcrSlot::Slot1])
        .with_selection(HashingAlgorithm::Sha384, &[PcrSlot::Slot2])
        .build();
    let other = PcrSelectionListBuilder::new()
        .with_size_of_select(Default::default())
        .with_selection(HashingAlgorithm::Sha256, &[PcrSlot::Slot0])
        .with_selection(HashingAlgorithm::Sha1, &[PcrSlot::Slot1])
        .build();
    list.subtract(&other).unwrap();
    assert_eq!(list.len(), 2);
    let expected = PcrSelectionListBuilder::new()
        .with_selection(HashingAlgorithm::Sha256, &[PcrSlot::Slot8])
        .with_selection(HashingAlgorithm::Sha384, &[PcrSlot::Slot2])
        .build();
    assert_eq!(list, expected);
    let tpml: TPML_PCR_SELECTION = list.into();
    assert_eq!(tpml.pcrSelections[0], entry(0x000B, 3, [0, 1, 0, 0]));
    assert_eq!(tpml.pcrSelections[1], entry(0x000C, 3, [4, 0, 0, 0]));
}

#[test]
fn subtract_of_a_list_from_itself_is_empty() {
    let list = PcrSelectionListBuilder::new()
        .with_selection(HashingAlgorithm::Sha256, &[PcrSlot::Slot0, PcrSlot::Slot8])
        .with_selection(HashingAlgorithm::Sha1, &[])
        .build();
    let mut target = list.clone();
    target.subtract(&list).unwrap();
    assert!(target.is_empty());
    let mut empty = PcrSelectionListBuilder::new().build();
    empty.subtract(&PcrSelectionListBuilder::new().build()).unwrap();
    assert!(empty.is_empty());
}

#[test]
fn subtract_of_what_was_never_selected_fails() {
    let list = PcrSelectionListBuilder::new()
        .with_selection(HashingAlgorithm::Sha256, &[PcrSlot::Slot0])
        .build();
    // a bank that the target does not have
    let absent = PcrSelectionListBuilder::new()
        .with_selection(HashingAlgorithm::Sha1, &[PcrSlot::Slot0])
        .build();
    let mut target = list.clone();
    assert_eq!(target.subtract(&absent), Err(local(WrapperErrorKind::InvalidParam)));
    assert_eq!(target, list);
    // the empty target has no bank at all
    let mut empty = PcrSelectionListBuilder::new().build();
    assert_eq!(empty.subtract(&list), Err(local(WrapperErrorKind::InvalidParam)));
    // a slot that the target does not have
    let slot = PcrSelectionListBuilder::new()
        .with_selection(HashingAlgorithm::Sha256, &[PcrSlot::Slot1])
        .build();
    assert_eq!(target.subtract(&slot), Err(local(WrapperErrorKind::InvalidParam)));
    assert_eq!(target, list);
    // a failure changes nothing, also when an earlier bank could be subtracted
    let partly = PcrSelectionListBuilder::new()
        .with_selection(HashingAlgorithm::Sha256, &[PcrSlot::Slot0])
        .with_selection(HashingAlgorithm::Sha1, &[PcrSlot::Slot0])
        .build();
    assert_eq!(target.subtract(&partly), Err(local(WrapperErrorKind::InvalidParam)));
    assert_eq!(target, list);
}

#[test]
fn subtract_of_an_absent_bank_is_invalid_whatever_else_is_wrong() {
    let list = PcrSelectionListBuilder::new()
        .with_selection(HashingAlgorithm::Sha1, &[PcrSlot::Slot0])
        .build();
    // the bank that both have is of another width and comes first
    let other = PcrSelectionListBuilder::new()
        .with_size_of_select(PcrSelectSize::TwoBytes)
        .with_selection(HashingAlgorithm::Sha1, &[PcrSlot::Slot0])
        .with_selection(HashingAlgorithm::Sha256, &[PcrSlot::Slot0])
        .build();
    let mut target = list.clone();
    assert_eq!(target.subtract(&other), Err(local(WrapperErrorKind::InvalidParam)));
    assert_eq!(target, list);
    // without the absent bank, the width decides
    let shared = PcrSelectionListBuilder::new()
        .with_size_of_select(PcrSelectSize::TwoBytes)
        .with_selection(HashingAlgorithm::Sha1, &[PcrSlot::Slot0])
        .build();
    assert_eq!(target.subtract(&shared), Err(local(WrapperErrorKind::InconsistentParams)));
    assert_eq!(target, list);
}

#[test]
fn subtract_of_another_width_fails() {
    let list = PcrSelectionListBuilder::new()
        .with_selection(HashingAlgorithm::Sha256, &[PcrSlot::Slot0])
        .build();
    let wide = PcrSelectionListBuilder::new()
        .with_size_of_select(PcrSelectSize::FourBytes)
        .with_selection(HashingAlgorithm::Sha256, &[PcrSlot::Slot0])
        .build();
    let mut target = list.clone();
    assert_eq!(target.subtract(&wide), Err(local(WrapperErrorKind::InconsistentParams)));
    assert_eq!(target, list);
}

#[test]
fn list_with_17_banks_fails_to_parse() {
    let mut tpml = TPML_PCR_SELECTION::default();
    for i in 0..16 {
        tpml.pcrSelections[i] = entry(ALL_ALGORITHMS[i % 8].into(), 3, [1, 0, 0, 0]);
    }
    tpml.count = 17;
    assert_eq!(PcrSelectionList::try_from(tpml), Err(local(WrapperErrorKind::InvalidParam)));
    tpml.count = u32::MAX;
    assert_eq!(PcrSelectionList::try_from(tpml), Err(local(WrapperErrorKind::InvalidParam)));
}

#[test]
fn list_with_16_banks_parses() {
    let mut tpml = TPML_PCR_SELECTION::default();
    for i in 0..16 {
        let mut mask = [0u8; 4];
        mask[i / 8] = 1 << (i % 8);
        tpml.pcrSelections[i] = entry(ALL_ALGORITHMS[i % 8].into(), 3, mask);
    }
    tpml.count = 16;
    let list = PcrSelectionList::try_from(tpml).unwrap();
    // entries for the same bank are merged
    assert_eq!(list.len(), 8);
    for (i, algorithm) in ALL_ALGORITHMS.iter().enumerate() {
        let bank = list.selection(*algorithm).unwrap();
        let low = PcrSlot::try_from(i as u32).unwrap();
        let high = PcrSlot::try_from(i as u32 + 8).unwrap();
        assert_eq!(bank, selection(*algorithm, &[low, high]));
    }
}

#[test]
fn list_decoding_rejects_mixed_widths() {
    let tpml = list_of(&[entry(0x000B, 3, [1, 0, 0, 0]), entry(0x0004, 2, [1, 0, 0, 0])]);
    assert_eq!(PcrSelectionList::try_from(tpml), Err(local(WrapperErrorKind::InconsistentParams)));
    let tpml = list_of(&[entry(0x000B, 3, [1, 0, 0, 0]), entry(0x000B, 4, [2, 0, 0, 0])]);
    assert_eq!(PcrSelectionList::try_from(tpml), Err(local(WrapperErrorKind::InconsistentParams)));
    // the widths are looked at before anything else
    let tpml = list_of(&[
        entry(0x000B, 3, [1, 0, 0, 0]),
        entry(0x0001, 3, [1, 0, 0, 0]),
        entry(0x0004, 2, [1, 0, 0, 0]),
    ]);
    assert_eq!(PcrSelectionList::try_from(tpml), Err(local(WrapperErrorKind::InconsistentParams)));
    // also where the entry of another width could not be read for itself
    let tpml = list_of(&[entry(0x000B, 3, [1, 0, 0, 0]), entry(0x000B, 5, [1, 0, 0, 0])]);
    assert_eq!(PcrSelectionList::try_from(tpml), Err(local(WrapperErrorKind::InconsistentParams)));
    assert_eq!(
        PcrSelections::try_from(tpml).err(),
        Some(local(WrapperErrorKind::InconsistentParams))
    );
    let tpml = list_of(&[entry(0x0001, 0, [1, 0, 0, 0]), entry(0x000B, 3, [1, 0, 0, 0])]);
    assert_eq!(PcrSelectionList::try_from(tpml), Err(local(WrapperErrorKind::InconsistentParams)));
    // entries of one width: the first that cannot be read is an invalid parameter
    let tpml = list_of(&[entry(0x000B, 3, [1, 0, 0, 0]), entry(0x0001, 3, [1, 0, 0, 0])]);
    assert_eq!(PcrSelectionList::try_from(tpml), Err(local(WrapperErrorKind::InvalidParam)));
    let tpml = list_of(&[entry(0x000B, 5, [1, 0, 0, 0]), entry(0x000B, 5, [1, 0, 0, 0])]);
    assert_eq!(PcrSelectionList::try_from(tpml), Err(local(WrapperErrorKind::InvalidParam)));
    assert_eq!(PcrSelections::try_from(tpml).err(), Some(local(WrapperErrorKind::InvalidParam)));
}

#[test]
fn list_decoding_ignores_entries_that_do_not_count() {
    let mut tpml = list_of(&[entry(0x000B, 3, [1, 0, 0, 0]), entry(0x0001, 9, [1, 1, 1, 1])]);
    tpml.count = 1;
    let list = PcrSelectionList::try_from(tpml).unwrap();
    assert_eq!(list.len(), 1);
    tpml.count = 0;
    assert!(PcrSelectionList::try_from(tpml).unwrap().is_empty());
}

#[test]
fn list_round_trip() {
    let list = PcrSelectionListBuilder::new()
        .with_size_of_select(PcrSelectSize::FourBytes)
        .with_selection(HashingAlgorithm::Sha512, &[PcrSlot::Slot7, PcrSlot::Slot15])
        .with_selection(HashingAlgorithm::Sm3_256, &[PcrSlot::Slot23])
        .with_selection(HashingAlgorithm::Sha3_256, &[])
        .build();
    let tpml: TPML_PCR_SELECTION = list.clone().into();
    assert_eq!(tpml.count, 3);
    assert_eq!(tpml.pcrSelections[0], entry(0x000D, 4, [0x80, 0x80, 0, 0]));
    assert_eq!(tpml.pcrSelections[1], entry(0x0012, 4, [0, 0, 0x80, 0]));
    assert_eq!(tpml.pcrSelections[2], entry(0x0027, 4, [0, 0, 0, 0]));
    assert_eq!(PcrSelectionList::try_from(tpml), Ok(list));
}

#[test]
fn plain_width_builder_and_encoding() {
    let selections = PcrSelectionsBuilder::new()
        .with_selection(HashingAlgorithm::Sha256, &[PcrSlot::Slot3])
        .with_selection(HashingAlgorithm::Sha256, &[PcrSlot::Slot9])
        .with_selection(HashingAlgorithm::Sha1, &[PcrSlot::Slot0, PcrSlot::Slot16])
        .build();
    assert_eq!(selections.size_of_select(), 3);
    assert_eq!(selections.len(), 2);
    assert!(selections.is_selected(HashingAlgorithm::Sha256, PcrSlot::Slot3));
    assert!(selections.is_selected(HashingAlgorithm::Sha256, PcrSlot::Slot9));
    assert!(!selections.is_selected(HashingAlgorithm::Sha256, PcrSlot::Slot0));
    assert!(!selections.is_selected(HashingAlgorithm::Sha512, PcrSlot::Slot3));
    let tpml: TPML_PCR_SELECTION = selections.clone().into();
    assert_eq!(tpml.count, 2);
    assert_eq!(tpml.pcrSelections[0], entry(0x000B, 3, [0b0000_1000, 0b0000_0010, 0, 0]));
    assert_eq!(tpml.pcrSelections[1], entry(0x0004, 3, [0x01, 0x00, 0x01, 0]));
    assert_eq!(tpml.pcrSelections[2], TPMS_PCR_SELECTION::default());
}

#[test]
fn plain_width_builder_keeps_only_slots_that_fit() {
    let selections = PcrSelectionsBuilder::new()
        .with_size_of_select(2)
        .with_selection(HashingAlgorithm::Sha256, &[PcrSlot::Slot15, PcrSlot::Slot16])
        .build();
    assert_eq!(selections.size_of_select(), 2);
    assert!(selections.is_selected(HashingAlgorithm::Sha256, PcrSlot::Slot15));
    assert!(!selections.is_selected(HashingAlgorithm::Sha256, PcrSlot::Slot16));
    let tpml: TPML_PCR_SELECTION = selections.into();
    assert_eq!(tpml.pcrSelections[0], entry(0x000B, 2, [0, 0x80, 0, 0]));
    let none = PcrSelectionsBuilder::new()
        .with_size_of_select(0)
        .with_selection(HashingAlgorithm::Sha256, &[PcrSlot::Slot0])
        .build();
    assert!(!none.is_selected(HashingAlgorithm::Sha256, PcrSlot::Slot0));
    let wide = PcrSelectionsBuilder::new()
        .with_size_of_select(9)
        .with_selection(HashingAlgorithm::Sha256, &[PcrSlot::Slot23])
        .build();
    let tpml: TPML_PCR_SELECTION = wide.into();
    assert_eq!(tpml.pcrSelections[0], entry(0x000B, 9, [0, 0, 0x80, 0]));
}

#[test]
fn plain_width_decoding() {
    let tpml = list_of(&[
        entry(0x000B, 3, [0b0000_1000, 0b0000_0010, 0, 0]),
        entry(0x0004, 3, [0, 0, 0x80, 0]),
        entry(0x000B, 3, [1, 0, 0, 0]),
    ]);
    let selections = PcrSelections::try_from(tpml).unwrap();
    assert_eq!(selections.size_of_select(), 3);
    assert_eq!(selections.len(), 2);
    assert!(selections.is_selected(HashingAlgorithm::Sha256, PcrSlot::Slot0));
    assert!(selections.is_selected(HashingAlgorithm::Sha256, PcrSlot::Slot3));
    assert!(selections.is_selected(HashingAlgorithm::Sha256, PcrSlot::Slot9));
    // the last bit of the mask counts
    assert!(selections.is_selected(HashingAlgorithm::Sha1, PcrSlot::Slot23));
    let back: TPML_PCR_SELECTION = selections.into();
    assert_eq!(back.count, 2);
    assert_eq!(back.pcrSelections[0], entry(0x000B, 3, [0b0000_1001, 0b0000_0010, 0, 0]));
    assert_eq!(back.pcrSelections[1], entry(0x0004, 3, [0, 0, 0x80, 0]));
}

#[test]
fn plain_width_decoding_errors() {
    let mixed = list_of(&[entry(0x000B, 3, [1, 0, 0, 0]), entry(0x0004, 1, [1, 0, 0, 0])]);
    assert_eq!(
        PcrSelections::try_from(mixed).err(),
        Some(local(WrapperErrorKind::InconsistentParams))
    );
    let unknown = list_of(&[entry(0x0001, 3, [1, 0, 0, 0])]);
    assert_eq!(PcrSelections::try_from(unknown).err(), Some(local(WrapperErrorKind::InvalidParam)));
    let no_width = list_of(&[entry(0x000B, 0, [0, 0, 0, 0])]);
    assert_eq!(PcrSelections::try_from(no_width).err(), Some(local(WrapperErrorKind::InvalidParam)));
    let mut too_many = TPML_PCR_SELECTION::default();
    too_many.count = 17;
    assert_eq!(PcrSelections::try_from(too_many).err(), Some(local(WrapperErrorKind::InvalidParam)));
    let empty = PcrSelections::try_from(TPML_PCR_SELECTION::default()).unwrap();
    assert_eq!(empty.len(), 0);
    assert_eq!(empty.size_of_select(), 3);
    assert_eq!(PcrSelections::default().size_of_select(), 0);
}

#[test]
fn selected_slots_and_their_number() {
    let none = selection(HashingAlgorithm::Sha1, &[]);
    assert_eq!(none.len(), 0);
    assert_eq!(none.selected_slots(), vec![]);
    let some = selection(
        HashingAlgorithm::Sha1,
        &[PcrSlot::Slot17, PcrSlot::Slot2, PcrSlot::Slot23, PcrSlot::Slot2, PcrSlot::Slot0],
    );
    assert_eq!(some.len(), 4);
    // by rising number, each once
    assert_eq!(
        some.selected_slots(),
        vec![PcrSlot::Slot0, PcrSlot::Slot2, PcrSlot::Slot17, PcrSlot::Slot23]
    );
    let all: Vec<PcrSlot> = (0..24).map(|number| PcrSlot::try_from(number).unwrap()).collect();
    let every = selection(HashingAlgorithm::Sha1, &all);
    assert_eq!(every.len(), 24);
    assert_eq!(every.selected_slots(), all);
}

#[test]
fn selection_in_another_width() {
    let wide = PcrSelection::new(
        HashingAlgorithm::Sha256,
        PcrSelectSize::FourBytes,
        &[PcrSlot::Slot1, PcrSlot::Slot9, PcrSlot::Slot17],
    );
    let two = wide.narrowed(PcrSelectSize::TwoBytes);
    assert_eq!(two.size_of_select(), PcrSelectSize::TwoBytes);
    assert_eq!(two.selected_slots(), vec![PcrSlot::Slot1, PcrSlot::Slot9]);
    let one = wide.restricted(1);
    assert_eq!(one.size_of_select(), PcrSelectSize::FourBytes);
    assert_eq!(one.selected_slots(), vec![PcrSlot::Slot1]);
    assert_eq!(wide.restricted(0).len(), 0);
    assert_eq!(wide.restricted(200), wide);
    assert_eq!(two.narrowed(PcrSelectSize::FourBytes).selected_slots(), two.selected_slots());
}

#[test]
fn list_hands_out_its_selections() {
    let list = PcrSelectionListBuilder::new()
        .with_selection(HashingAlgorithm::Sha256, &[PcrSlot::Slot0])
        .with_selection(HashingAlgorithm::Sha1, &[PcrSlot::Slot1])
        .build();
    assert_eq!(
        list.into_selections(),
        vec![
            selection(HashingAlgorithm::Sha256, &[PcrSlot::Slot0]),
            selection(HashingAlgorithm::Sha1, &[PcrSlot::Slot1]),
        ]
    );
}
