use rustnithm::shmem::{init_shmem, ShmemManager, SEGMENT_SIZE};

#[test]
fn samples_layout() {
    let mut m = ShmemManager::new(vec![0xEE; SEGMENT_SIZE]);
    m.write_data(&[1, 0, 0, 0, 0, 0], &[0; 32]);
    let b = m.as_bytes();
    assert_eq!(b[0], 1);
    assert!(b[1..38].iter().all(|&x| x == 0));
    assert_eq!(b[38], 0xEE);
}

#[test]
fn samples_short_parts_are_skipped() {
    let mut m = ShmemManager::new(vec![7; 150]);
    m.write_data(&[1, 1, 1], &[1; 32]);
    let b = m.as_bytes();
    assert_eq!(&b[0..6], &[7; 6]);
    assert_eq!(&b[6..38], &[1; 32]);
}

#[test]
fn status_layout() {
    let mut m = ShmemManager::new(vec![0; 150]);
    m.write_status(1, 0, 1);
    let b = m.as_bytes();
    assert_eq!(b[134], 1);
    assert_eq!(b[135], 0);
    assert_eq!(b[136], 1);
    assert_eq!(b[133], 0);
    assert_eq!(b[137], 0);
}

#[test]
fn card_layout() {
    let mut m = ShmemManager::new(vec![0; SEGMENT_SIZE]);
    let raw = [0x01, 0x23, 0x45, 0x67, 0x89, 0x98, 0x76, 0x54, 0x32, 0x10];
    m.write_card_raw(&raw);
    let b = m.as_bytes();
    assert_eq!(b[138], 1);
    assert_eq!(&b[140..150], &raw);
}

#[test]
fn empty_card_clears_region() {
    let mut m = ShmemManager::new(vec![0x55; SEGMENT_SIZE]);
    m.write_card_raw(&[]);
    let b = m.as_bytes();
    assert_eq!(b[138], 0);
    assert_eq!(&b[140..150], &[0; 10]);
    assert_eq!(b[139], 0x55);
}

#[test]
fn zero_card_clears_region() {
    let mut m = ShmemManager::new(vec![0; SEGMENT_SIZE]);
    m.write_card_raw(&[9; 10]);
    m.write_card_raw(&[0; 10]);
    let b = m.as_bytes();
    assert_eq!(b[138], 0);
    assert_eq!(&b[140..150], &[0; 10]);
}

#[test]
fn short_card_writes_its_bytes() {
    let mut m = ShmemManager::new(vec![0xAA; 150]);
    m.write_card_raw(&[1, 2, 3]);
    let b = m.as_bytes();
    assert_eq!(b[138], 1);
    assert_eq!(&b[140..143], &[1, 2, 3]);
    assert_eq!(&b[143..150], &[0xAA; 7]);
}

#[test]
fn small_segment_is_left_alone() {
    let mut m = ShmemManager::new(vec![3; 100]);
    m.write_status(1, 1, 1);
    m.write_card_raw(&[5; 10]);
    m.write_data(&[1; 6], &[1; 32]);
    let b = m.as_bytes();
    assert_eq!(&b[0..6], &[1; 6]);
    assert_eq!(&b[6..38], &[1; 32]);
    assert!(b[38..100].iter().all(|&x| x == 3));
}

#[test]
fn init_clears_card_once() {
    let mut slot = None;
    init_shmem(&mut slot, vec![0x77; SEGMENT_SIZE]);
    {
        let b = slot.as_ref().unwrap().as_bytes();
        assert_eq!(b[138], 0);
        assert_eq!(&b[140..150], &[0; 10]);
        assert_eq!(b[0], 0x77);
    }
    slot.as_mut().unwrap().write_card_raw(&[4; 10]);
    init_shmem(&mut slot, vec![0; SEGMENT_SIZE]);
    let b = slot.as_ref().unwrap().as_bytes();
    assert_eq!(b[138], 1);
    assert_eq!(b[0], 0x77);
}
