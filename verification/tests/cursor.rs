use mspm0l222x_hal::cursor::{Cursor, CursorError};

#[test]
fn cursor_starts_at_offset_zero() {
    let c = Cursor::new(vec![0u8; 4]);
    assert_eq!(c.offset, 0);
    assert_eq!(c.written(), &[] as &[u8]);
}

#[test]
fn read_from_writes_at_offset_and_advances() {
    let mut c = Cursor::new(vec![9u8; 5]);
    assert_eq!(c.read_from(&[1, 2]), Ok(()));
    assert_eq!(c.offset, 2);
    assert_eq!(c.written(), &[1, 2]);
    assert_eq!(c.read_from(&[3]), Ok(()));
    assert_eq!(c.written(), &[1, 2, 3]);
    assert_eq!(c.into_inner(), vec![1, 2, 3, 9, 9]);
}

#[test]
fn read_from_refuses_oversize_and_reports_remaining() {
    let mut c = Cursor::new(vec![0u8; 4]);
    assert_eq!(c.read_from(&[1, 2, 3]), Ok(()));
    assert_eq!(c.read_from(&[4, 5]), Err(CursorError::OversizeError(1)));
    assert_eq!(c.offset, 3);
    assert_eq!(c.into_inner(), vec![1, 2, 3, 0]);
}

#[test]
fn read_from_fills_buffer_exactly() {
    let mut c = Cursor::new(vec![0u8; 3]);
    assert_eq!(c.read_from(&[7, 8, 9]), Ok(()));
    assert_eq!(c.read_from(&[]), Ok(()));
    assert_eq!(c.read_from(&[1]), Err(CursorError::OversizeError(0)));
}

#[test]
fn read_into_copies_next_bytes() {
    let mut c = Cursor::new(vec![10, 20, 30, 40]);
    let mut out = [0u8; 3];
    assert_eq!(c.read_into(&mut out), Ok(()));
    assert_eq!(out, [10, 20, 30]);
    assert_eq!(c.offset, 3);
    let mut more = [0u8; 2];
    assert_eq!(c.read_into(&mut more), Err(CursorError::OversizeError(1)));
    assert_eq!(more, [0, 0]);
    assert_eq!(c.offset, 3);
}

#[test]
fn write_then_read_back_gives_the_data() {
    let mut w = Cursor::new(vec![0u8; 8]);
    assert_eq!(w.read_from(&[5, 6, 7]), Ok(()));
    let mut r = Cursor::new(w.into_inner());
    let mut out = [0u8; 3];
    assert_eq!(r.read_into(&mut out), Ok(()));
    assert_eq!(out, [5, 6, 7]);
}

#[test]
fn write_str_writes_the_bytes() {
    let mut c = Cursor::new(vec![0u8; 6]);
    assert_eq!(c.write_str("hi "), Ok(()));
    assert_eq!(c.write_str("you"), Ok(()));
    assert_eq!(c.written(), b"hi you");
    assert!(c.write_str("!").is_err());
    assert_eq!(c.offset, 6);
}

#[test]
fn offset_can_be_moved() {
    let mut c = Cursor::new(vec![1, 2, 3, 4, 5]);
    c.set_offset(2);
    assert_eq!(c.get_offset(), 2);
    assert_eq!(c.read_from(&[9, 9]), Ok(()));
    c.set_offset(2);
    let mut out = [0u8; 2];
    assert_eq!(c.read_into(&mut out), Ok(()));
    assert_eq!(out, [9, 9]);
    assert_eq!(c.get_offset(), 4);
    assert_eq!(c.into_inner(), vec![1, 2, 9, 9, 5]);
}

#[test]
fn written_is_the_successful_writes_in_order() {
    let mut c = Cursor::new(vec![0u8; 5]);
    assert_eq!(c.read_from(&[1, 2]), Ok(()));
    assert_eq!(c.read_from(&[3, 4, 5, 6]), Err(CursorError::OversizeError(3)));
    assert_eq!(c.write_str("ab"), Ok(()));
    assert_eq!(c.written(), &[1, 2, b'a', b'b']);
}
