use rfsspec::buffer::{ArcVec, SeekError};

#[test]
fn new_buffer_holds_zero_digits() {
    let b = ArcVec::new(4);
    assert_eq!(b.as_slice(), b"0000");
    assert_eq!(b.tell(), 0);
}

#[test]
fn reads_advance_the_cursor() {
    let mut b = ArcVec::new(5);
    assert_eq!(b.read(Some(2)), b"00");
    assert_eq!(b.tell(), 2);
    assert_eq!(b.read(Some(10)), b"000");
    assert_eq!(b.tell(), 12);
    assert_eq!(b.read(Some(1)), b"");
}

#[test]
fn read_all_moves_to_end() {
    let mut b = ArcVec::new(3);
    assert_eq!(b.read(None), b"000");
    assert_eq!(b.tell(), 3);
    b.seek(1, None).unwrap();
    assert_eq!(b.read(Some(-1)), b"00");
    assert_eq!(b.tell(), 3);
}

#[test]
fn seek_whence_variants() {
    let mut b = ArcVec::new(10);
    assert_eq!(b.seek(4, Some(0)), Ok(4));
    assert_eq!(b.seek(3, Some(1)), Ok(7));
    assert_eq!(b.seek(-2, Some(2)), Ok(8));
    assert_eq!(b.seek(1, Some(3)), Err(SeekError::BadWhence));
    assert_eq!(b.tell(), 8);
    assert_eq!(b.read(None), b"00");
}

#[test]
fn negative_cursor_reads_from_start() {
    let mut b = ArcVec::new(4);
    b.seek(-3, None).unwrap();
    assert_eq!(b.read(Some(5)), b"00");
    assert_eq!(b.tell(), 2);
}

#[test]
fn empty_buffer() {
    let mut b = ArcVec::new(0);
    assert_eq!(b.read(None), b"");
    assert_eq!(b.tell(), 0);
}
