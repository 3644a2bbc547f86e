use vstd::prelude::*;

verus! {

/// A named key delivered by the host's presentation layer.
#[derive(Clone, Copy, PartialEq, Eq, Structural, Debug)]
pub enum Key {
    Enter,
    Tab,
    Backspace,
    Delete,
    Escape,
    Insert,
    Home,
    End,
    PageUp,
    PageDown,
    ArrowUp,
    ArrowDown,
    ArrowRight,
    ArrowLeft,
    /// Any key outside the table: pure modifier presses, function keys, and
    /// the rest. Such a press produces no bytes and is dropped.
    Unmapped,
}

/// One user input event handed over by the host, once per tick.
#[derive(Debug)]
pub enum InputEvent {
    /// Literal characters to forward to the child verbatim.
    Text(String),
    /// A named key press.
    KeyPress(Key),
    /// Clipboard copy: deliberately ignored, no bytes and no side effect.
    Copy,
    /// Clipboard cut: deliberately ignored, no bytes and no side effect.
    Cut,
}

/// The fixed table: the literal byte sequence each named key stands for on
/// the wire, or None for a key outside the table.
pub open spec fn key_bytes(k: Key) -> Option<Seq<u8>> {
    match k {
        Key::Enter => Some(seq![0x0au8]),
        Key::Tab => Some(seq![0x09u8]),
        Key::Backspace => Some(seq![0x7fu8]),
        Key::Delete => Some(seq![0x1bu8, 0x5bu8, 0x33u8, 0x7eu8]),
        Key::Escape => Some(seq![0x1bu8]),
        Key::Insert => Some(seq![0x1bu8, 0x5bu8, 0x32u8, 0x7eu8]),
        Key::Home => Some(seq![0x1bu8, 0x5bu8, 0x31u8, 0x7eu8]),
        Key::End => Some(seq![0x1bu8, 0x5bu8, 0x34u8, 0x7eu8]),
        Key::PageUp => Some(seq![0x1bu8, 0x5bu8, 0x35u8, 0x7eu8]),
        Key::PageDown => Some(seq![0x1bu8, 0x5bu8, 0x36u8, 0x7eu8]),
        Key::ArrowUp => Some(seq![0x1bu8, 0x5bu8, 0x41u8]),
        Key::ArrowDown => Some(seq![0x1bu8, 0x5bu8, 0x42u8]),
        Key::ArrowRight => Some(seq![0x1bu8, 0x5bu8, 0x43u8]),
        Key::ArrowLeft => Some(seq![0x1bu8, 0x5bu8, 0x44u8]),
        Key::Unmapped => None,
    }
}

/// What the translator owes for every event: the bytes of a Text event
/// verbatim (its UTF-8 encoding), a mapped key's table entry, and nothing
/// for clipboard events or keys outside the table.
pub open spec fn translate_spec(e: InputEvent) -> Option<Seq<u8>> {
    match e {
        InputEvent::Text(s) => Some(vstd::utf8::encode_utf8(s@)),
        InputEvent::KeyPress(k) => key_bytes(k),
        InputEvent::Copy => None,
        InputEvent::Cut => None,
    }
}

fn bytes1(a: u8) -> (r: Vec<u8>)
    ensures
        r@ == seq![a],
{
    let mut v: Vec<u8> = Vec::new();
    v.push(a);
    proof {
        assert(v@ =~= seq![a]);
    }
    v
}

fn bytes3(a: u8, b: u8, c: u8) -> (r: Vec<u8>)
    ensures
        r@ == seq![a, b, c],
{
    let mut v: Vec<u8> = Vec::new();
    v.push(a);
    v.push(b);
    v.push(c);
    proof {
        assert(v@ =~= seq![a, b, c]);
    }
    v
}

fn bytes4(a: u8, b: u8, c: u8, d: u8) -> (r: Vec<u8>)
    ensures
        r@ == seq![a, b, c, d],
{
    let mut v: Vec<u8> = Vec::new();
    v.push(a);
    v.push(b);
    v.push(c);
    v.push(d);
    proof {
        assert(v@ =~= seq![a, b, c, d]);
    }
    v
}

/// The table entry for one named key, as concrete bytes.
pub fn key_to_bytes(k: Key) -> (r: Option<Vec<u8>>)
    ensures
        r is Some <==> key_bytes(k) is Some,
        r matches Some(v) ==> key_bytes(k) == Some(v@),
{
    match k {
        Key::Enter => Some(bytes1(0x0a)),
        Key::Tab => Some(bytes1(0x09)),
        Key::Backspace => Some(bytes1(0x7f)),
        Key::Delete => Some(bytes4(0x1b, 0x5b, 0x33, 0x7e)),
        Key::Escape => Some(bytes1(0x1b)),
        Key::Insert => Some(bytes4(0x1b, 0x5b, 0x32, 0x7e)),
        Key::Home => Some(bytes4(0x1b, 0x5b, 0x31, 0x7e)),
        Key::End => Some(bytes4(0x1b, 0x5b, 0x34, 0x7e)),
        Key::PageUp => Some(bytes4(0x1b, 0x5b, 0x35, 0x7e)),
        Key::PageDown => Some(bytes4(0x1b, 0x5b, 0x36, 0x7e)),
        Key::ArrowUp => Some(bytes3(0x1b, 0x5b, 0x41)),
        Key::ArrowDown => Some(bytes3(0x1b, 0x5b, 0x42)),
        Key::ArrowRight => Some(bytes3(0x1b, 0x5b, 0x43)),
        Key::ArrowLeft => Some(bytes3(0x1b, 0x5b, 0x44)),
        Key::Unmapped => None,
    }
}

/// Map one input event to the bytes it puts on the wire, or None for an
/// event that is dropped. The translator keeps no state between calls.
pub fn translate(e: InputEvent) -> (r: Option<Vec<u8>>)
    ensures
        r is Some <==> translate_spec(e) is Some,
        r matches Some(v) ==> translate_spec(e) == Some(v@),
{
    match e {
        InputEvent::Text(s) => Some(vstd::slice::slice_to_vec(s.as_str().as_bytes())),
        InputEvent::KeyPress(k) => key_to_bytes(k),
        InputEvent::Copy => None,
        InputEvent::Cut => None,
    }
}

} // verus!
