use termie::input::{translate, InputEvent, Key};

fn key_seq(k: Key) -> Vec<u8> {
    translate(InputEvent::KeyPress(k)).expect("a key in the table must map")
}

#[test]
fn enter_tab_backspace_escape_map_to_single_bytes() {
    assert_eq!(key_seq(Key::Enter), b"\n");
    assert_eq!(key_seq(Key::Tab), b"\t");
    assert_eq!(key_seq(Key::Backspace), b"\x7f");
    assert_eq!(key_seq(Key::Escape), b"\x1b");
}

#[test]
fn editing_keys_map_to_tilde_sequences() {
    assert_eq!(key_seq(Key::Delete), b"\x1b[3~");
    assert_eq!(key_seq(Key::Insert), b"\x1b[2~");
}

#[test]
fn navigation_keys_map_to_tilde_sequences() {
    assert_eq!(key_seq(Key::Home), b"\x1b[1~");
    assert_eq!(key_seq(Key::End), b"\x1b[4~");
    assert_eq!(key_seq(Key::PageUp), b"\x1b[5~");
    assert_eq!(key_seq(Key::PageDown), b"\x1b[6~");
}

#[test]
fn arrow_keys_map_to_csi_letters() {
    assert_eq!(key_seq(Key::ArrowUp), b"\x1b[A");
    assert_eq!(key_seq(Key::ArrowDown), b"\x1b[B");
    assert_eq!(key_seq(Key::ArrowRight), b"\x1b[C");
    assert_eq!(key_seq(Key::ArrowLeft), b"\x1b[D");
}

#[test]
fn text_passes_through_verbatim() {
    let r = translate(InputEvent::Text(String::from("ab"))).expect("text always maps");
    assert_eq!(r, vec![b'a', b'b']);
}

#[test]
fn empty_text_maps_to_no_bytes() {
    let r = translate(InputEvent::Text(String::new())).expect("text always maps");
    assert!(r.is_empty());
}

#[test]
fn clipboard_events_are_dropped() {
    assert!(translate(InputEvent::Copy).is_none());
    assert!(translate(InputEvent::Cut).is_none());
}

#[test]
fn keys_outside_the_table_are_dropped() {
    assert!(translate(InputEvent::KeyPress(Key::Unmapped)).is_none());
}
