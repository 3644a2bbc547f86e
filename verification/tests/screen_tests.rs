use termie::screen::ScreenBuffer;

#[test]
fn printable_bytes_advance_the_column() {
    let mut s = ScreenBuffer::new();
    s.feed(b"abc");
    assert_eq!(s.transcript().as_slice(), b"abc");
    assert_eq!(s.cursor(), (0, 3));
}

#[test]
fn newline_advances_row_and_resets_column() {
    let mut s = ScreenBuffer::new();
    s.feed(b"ab\ncd");
    assert_eq!(s.transcript().as_slice(), b"ab\ncd");
    assert_eq!(s.cursor(), (1, 2));
}

#[test]
fn row_counts_every_newline() {
    let mut s = ScreenBuffer::new();
    s.feed(b"a\n\nbc\n");
    assert_eq!(s.cursor(), (3, 0));
}

#[test]
fn backspace_at_column_zero_is_noop() {
    let mut s = ScreenBuffer::new();
    s.feed(&[0x7f]);
    assert_eq!(s.transcript().as_slice(), b"");
    assert_eq!(s.cursor(), (0, 0));

    s.feed(b"a\n");
    s.feed(&[0x7f]);
    assert_eq!(s.transcript().as_slice(), b"a\n");
    assert_eq!(s.cursor(), (1, 0));
}

#[test]
fn backspace_removes_exactly_one_byte() {
    let mut s = ScreenBuffer::new();
    s.feed(b"abc");
    s.feed(&[0x7f]);
    assert_eq!(s.transcript().as_slice(), b"ab");
    assert_eq!(s.cursor(), (0, 2));
}

#[test]
fn bs_byte_acts_like_delete_byte() {
    let mut s = ScreenBuffer::new();
    s.feed(b"ab");
    s.feed(&[0x08]);
    assert_eq!(s.transcript().as_slice(), b"a");
    assert_eq!(s.cursor(), (0, 1));
}

#[test]
fn n_backspaces_undo_n_printables() {
    let mut s = ScreenBuffer::new();
    s.feed(b"xy");
    s.feed(b"abc");
    s.feed(&[0x7f, 0x7f, 0x7f]);
    assert_eq!(s.transcript().as_slice(), b"xy");
    assert_eq!(s.cursor(), (0, 2));
}

#[test]
fn render_text_decodes_valid_utf8() {
    let mut s = ScreenBuffer::new();
    s.feed(b"hi");
    assert_eq!(s.render_text(), "hi");
}

#[test]
fn render_text_decodes_multibyte_sequences() {
    let mut s = ScreenBuffer::new();
    s.feed(&[0xc3, 0xa9]);
    assert_eq!(s.render_text(), "\u{e9}");
}

#[test]
fn render_text_marks_invalid_utf8() {
    let mut s = ScreenBuffer::new();
    s.feed(&[0xff, 0xfe]);
    assert_eq!(s.render_text(), "<Invalid UTF-8>");
}

#[test]
fn render_text_of_empty_screen_is_empty() {
    let s = ScreenBuffer::new();
    assert_eq!(s.render_text(), "");
}
