use ctv_emulators::bytes::{append, copy_option, same_bytes, to_vec};
use ctv_emulators::emulator::EmulatorError;
use ctv_emulators::request::{SpendInput, SpendRequest};

fn key(n: u8) -> Vec<u8> {
    vec![n; 33]
}

fn sig(n: u8) -> Vec<u8> {
    vec![n; 65]
}

#[test]
fn a_new_input_has_no_signatures() {
    let input = SpendInput::new(Some(vec![1, 2, 3]), Some(5));
    assert_eq!(input.witness_script(), &Some(vec![1u8, 2, 3]));
    assert_eq!(input.witness_value(), Some(5));
    assert!(input.partial_sigs().is_empty());
    let bare = SpendInput::new(None, None);
    assert_eq!(bare.witness_script(), &None);
    assert_eq!(bare.witness_value(), None);
}

#[test]
fn inserted_signatures_are_kept_in_order() {
    let mut input = SpendInput::new(None, None);
    input.insert_partial_sig(key(1), sig(10));
    input.insert_partial_sig(key(2), sig(20));
    input.insert_partial_sig(key(3), sig(30));
    let sigs = input.partial_sigs();
    assert_eq!(sigs.len(), 3);
    assert_eq!(sigs[0].key, key(1));
    assert_eq!(sigs[0].sig, sig(10));
    assert_eq!(sigs[1].key, key(2));
    assert_eq!(sigs[1].sig, sig(20));
    assert_eq!(sigs[2].key, key(3));
    assert_eq!(sigs[2].sig, sig(30));
}

#[test]
fn a_second_signature_of_a_key_replaces_the_first() {
    let mut input = SpendInput::new(None, None);
    input.insert_partial_sig(key(1), sig(10));
    input.insert_partial_sig(key(2), sig(20));
    input.insert_partial_sig(key(1), sig(11));
    let sigs = input.partial_sigs();
    assert_eq!(sigs.len(), 2);
    assert_eq!(sigs[0].key, key(1));
    assert_eq!(sigs[0].sig, sig(11));
    assert_eq!(sigs[1].key, key(2));
    assert_eq!(sigs[1].sig, sig(20));
}

#[test]
fn keys_of_different_length_are_different_keys() {
    let mut input = SpendInput::new(None, None);
    input.insert_partial_sig(vec![1u8; 33], sig(10));
    input.insert_partial_sig(vec![1u8; 32], sig(20));
    assert_eq!(input.partial_sigs().len(), 2);
}

#[test]
fn a_request_records_a_signature_on_the_input_named() {
    let mut b = SpendRequest::new(
        vec![9u8; 10],
        vec![SpendInput::new(None, None), SpendInput::new(Some(vec![7]), Some(1))],
    );
    b.insert_partial_sig(1, key(4), sig(40));
    assert_eq!(b.tx(), &vec![9u8; 10]);
    assert_eq!(b.inputs().len(), 2);
    assert!(b.inputs()[0].partial_sigs().is_empty());
    assert_eq!(b.inputs()[1].partial_sigs().len(), 1);
    assert_eq!(b.inputs()[1].partial_sigs()[0].key, key(4));
    assert_eq!(b.inputs()[1].partial_sigs()[0].sig, sig(40));
    assert_eq!(b.inputs()[1].witness_script(), &Some(vec![7u8]));
    assert_eq!(b.inputs()[1].witness_value(), Some(1));
}

#[test]
fn merging_inputs_adds_signatures_and_missing_witness_data() {
    let mut mine = SpendInput::new(None, Some(5));
    mine.insert_partial_sig(key(1), sig(10));
    mine.insert_partial_sig(key(2), sig(20));
    let mut theirs = SpendInput::new(Some(vec![0x51]), Some(6));
    theirs.insert_partial_sig(key(2), sig(21));
    theirs.insert_partial_sig(key(3), sig(30));
    mine.merge(&theirs);
    assert_eq!(mine.witness_script(), &Some(vec![0x51u8]));
    assert_eq!(mine.witness_value(), Some(5));
    let sigs = mine.partial_sigs();
    assert_eq!(sigs.len(), 3);
    assert_eq!((sigs[0].key.clone(), sigs[0].sig.clone()), (key(1), sig(10)));
    assert_eq!((sigs[1].key.clone(), sigs[1].sig.clone()), (key(2), sig(21)));
    assert_eq!((sigs[2].key.clone(), sigs[2].sig.clone()), (key(3), sig(30)));
    assert_eq!(theirs.partial_sigs().len(), 2);
}

#[test]
fn merging_keeps_the_witness_data_that_is_there() {
    let mut mine = SpendInput::new(Some(vec![1]), None);
    let theirs = SpendInput::new(Some(vec![2]), Some(9));
    mine.merge(&theirs);
    assert_eq!(mine.witness_script(), &Some(vec![1u8]));
    assert_eq!(mine.witness_value(), Some(9));
}

#[test]
fn merging_requests_merges_input_by_input() {
    let mut mine = SpendRequest::new(
        vec![1u8, 2, 3],
        vec![SpendInput::new(Some(vec![0x51]), Some(5)), SpendInput::new(None, None)],
    );
    mine.insert_partial_sig(0, key(1), sig(10));
    let mut theirs = SpendRequest::new(
        vec![1u8, 2, 3],
        vec![SpendInput::new(Some(vec![0x51]), Some(5)), SpendInput::new(None, Some(8))],
    );
    theirs.insert_partial_sig(0, key(2), sig(20));
    theirs.insert_partial_sig(1, key(3), sig(30));
    assert_eq!(mine.merge(theirs), Ok(()));
    assert_eq!(mine.tx(), &vec![1u8, 2, 3]);
    assert_eq!(mine.inputs()[0].partial_sigs().len(), 2);
    assert_eq!(mine.inputs()[0].partial_sigs()[1].key, key(2));
    assert_eq!(mine.inputs()[1].partial_sigs().len(), 1);
    assert_eq!(mine.inputs()[1].partial_sigs()[0].sig, sig(30));
    assert_eq!(mine.inputs()[1].witness_value(), Some(8));
}

#[test]
fn a_request_for_another_transaction_does_not_merge() {
    let mut mine = SpendRequest::new(vec![1u8, 2, 3], vec![SpendInput::new(None, None)]);
    mine.insert_partial_sig(0, key(1), sig(10));
    let mut theirs = SpendRequest::new(vec![1u8, 2, 4], vec![SpendInput::new(None, Some(1))]);
    theirs.insert_partial_sig(0, key(2), sig(20));
    assert_eq!(mine.merge(theirs), Err(EmulatorError::Merge));
    assert_eq!(mine.tx(), &vec![1u8, 2, 3]);
    assert_eq!(mine.inputs()[0].partial_sigs().len(), 1);
    assert_eq!(mine.inputs()[0].witness_value(), None);
}

#[test]
fn a_request_with_another_number_of_inputs_does_not_merge() {
    let mut mine = SpendRequest::new(vec![1u8, 2, 3], vec![SpendInput::new(None, None)]);
    let theirs = SpendRequest::new(
        vec![1u8, 2, 3],
        vec![SpendInput::new(None, None), SpendInput::new(None, None)],
    );
    assert_eq!(mine.merge(theirs), Err(EmulatorError::Merge));
    assert_eq!(mine.inputs().len(), 1);
}

#[test]
fn byte_helpers_do_what_they_say() {
    assert!(same_bytes(&vec![1, 2, 3], &vec![1, 2, 3]));
    assert!(!same_bytes(&vec![1, 2, 3], &vec![1, 2, 4]));
    assert!(!same_bytes(&vec![1, 2, 3], &vec![1, 2]));
    assert!(same_bytes(&Vec::new(), &Vec::new()));
    assert_eq!(to_vec(&[4u8, 5, 6]), vec![4u8, 5, 6]);
    let mut v = vec![1u8];
    append(&mut v, &[2u8, 3]);
    assert_eq!(v, vec![1u8, 2, 3]);
    assert_eq!(copy_option(&Some(vec![1u8, 2])), Some(vec![1u8, 2]));
    assert_eq!(copy_option(&None), None);
}
