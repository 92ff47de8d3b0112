//! What the keys of the keyboard send to the program.
use vstd::prelude::*;
use vstd::utf8::encode_utf8;

verus! {

/// A key press.
#[derive(Debug, Clone, PartialEq, Eq)]
pub enum KeyInput {
    Enter,
    Backspace,
    Tab,
    Escape,
    ArrowUp,
    ArrowDown,
    ArrowRight,
    ArrowLeft,
    Home,
    End,
    PageUp,
    PageDown,
    Delete,
    /// A key that stands for text.
    Text(String),
}

/// `ESC [` and `tail`.
pub open spec fn csi(tail: Seq<u8>) -> Seq<u8> {
    seq![0x1bu8, 0x5bu8] + tail
}

/// The bytes that a key sends: a control for Enter, Backspace, Tab and
/// Escape, a CSI sequence for the cursor and editing keys, and its UTF-8 for
/// text.
pub open spec fn key_sequence(key: KeyInput) -> Seq<u8> {
    match key {
        KeyInput::Enter => seq![0x0du8],
        KeyInput::Backspace => seq![0x7fu8],
        KeyInput::Tab => seq![0x09u8],
        KeyInput::Escape => seq![0x1bu8],
        KeyInput::ArrowUp => csi(seq![0x41u8]),
        KeyInput::ArrowDown => csi(seq![0x42u8]),
        KeyInput::ArrowRight => csi(seq![0x43u8]),
        KeyInput::ArrowLeft => csi(seq![0x44u8]),
        KeyInput::Home => csi(seq![0x48u8]),
        KeyInput::End => csi(seq![0x46u8]),
        KeyInput::PageUp => csi(seq![0x35u8, 0x7eu8]),
        KeyInput::PageDown => csi(seq![0x36u8, 0x7eu8]),
        KeyInput::Delete => csi(seq![0x33u8, 0x7eu8]),
        KeyInput::Text(s) => encode_utf8(s@),
    }
}

fn csi_bytes(first: u8, second: Option<u8>) -> (out: Vec<u8>)
    ensures
        out@ == csi(
            match second {
                Some(b) => seq![first, b],
                None => seq![first],
            },
        ),
{
    let mut out: Vec<u8> = Vec::new();
    out.push(0x1b);
    out.push(0x5b);
    out.push(first);
    match second {
        Some(b) => {
            out.push(b);
            assert(out@ =~= csi(seq![first, b]));
        },
        None => {
            assert(out@ =~= csi(seq![first]));
        },
    }
    out
}

fn one(b: u8) -> (out: Vec<u8>)
    ensures
        out@ == seq![b],
{
    let mut out: Vec<u8> = Vec::new();
    out.push(b);
    out
}

/// The bytes that a key sends to the program.
pub fn key_bytes(key: &KeyInput) -> (out: Vec<u8>)
    ensures
        out@ == key_sequence(*key),
{
    match key {
        KeyInput::Enter => one(0x0d),
        KeyInput::Backspace => one(0x7f),
        KeyInput::Tab => one(0x09),
        KeyInput::Escape => one(0x1b),
        KeyInput::ArrowUp => csi_bytes(0x41, None),
        KeyInput::ArrowDown => csi_bytes(0x42, None),
        KeyInput::ArrowRight => csi_bytes(0x43, None),
        KeyInput::ArrowLeft => csi_bytes(0x44, None),
        KeyInput::Home => csi_bytes(0x48, None),
        KeyInput::End => csi_bytes(0x46, None),
        KeyInput::PageUp => csi_bytes(0x35, Some(0x7e)),
        KeyInput::PageDown => csi_bytes(0x36, Some(0x7e)),
        KeyInput::Delete => csi_bytes(0x33, Some(0x7e)),
        KeyInput::Text(s) => s.as_str().as_bytes_vec(),
    }
}

} // verus!
