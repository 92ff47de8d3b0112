//! A streaming UTF-8 decoder that takes one byte at a time, and the table of
//! display widths.
use vstd::prelude::*;
use vstd::utf8::{decode_first_scalar, decode_utf8, valid_utf8};

verus! {

/// The character that stands for what could not be decoded.
pub open spec fn replacement() -> char {
    '\u{FFFD}'
}

/// The character that a complete sequence of bytes (a lead byte and its
/// continuation bytes) decodes to: its scalar where the bytes are well-formed
/// UTF-8, the replacement character where they are not (an overlong form, a
/// surrogate, a value past U+10FFFF).
pub open spec fn decode_sequence(bytes: Seq<u8>) -> char {
    if bytes.len() > 0 && valid_utf8(bytes) {
        decode_first_scalar(bytes) as char
    } else {
        replacement()
    }
}

/// The mathematical value of a [`Utf8Decoder`]: the bytes of the sequence
/// that it is in the middle of, and the length that their lead byte announced
/// (0 when idle).
pub struct Utf8State {
    pub pending: Seq<u8>,
    pub expected: int,
}

impl Utf8State {
    pub open spec fn idle() -> Utf8State {
        Utf8State { pending: Seq::empty(), expected: 0 }
    }

    pub open spec fn wf(self) -> bool {
        ||| self.expected == 0 && self.pending.len() == 0
        ||| 2 <= self.expected <= 4 && 1 <= self.pending.len() < self.expected
    }

    pub open spec fn is_pending(self) -> bool {
        self.expected > 0
    }

    /// What an idle decoder does with `byte`: an ASCII byte is its own
    /// character, a lead byte opens a sequence, anything else is replaced.
    pub open spec fn start(byte: u8) -> (Utf8State, Option<char>) {
        if byte < 0x80 {
            (Utf8State::idle(), Some(byte as char))
        } else if 0xC0 <= byte <= 0xDF {
            (Utf8State { pending: seq![byte], expected: 2 }, None)
        } else if 0xE0 <= byte <= 0xEF {
            (Utf8State { pending: seq![byte], expected: 3 }, None)
        } else if 0xF0 <= byte <= 0xF7 {
            (Utf8State { pending: seq![byte], expected: 4 }, None)
        } else {
            (Utf8State::idle(), Some(replacement()))
        }
    }

    /// The decoder after `byte`, and the character that it completed, if any.
    /// In the middle of a sequence a continuation byte is taken in, and
    /// decoded with the others when it is the last. Any other byte ends the
    /// sequence with a replacement character; if it is not ASCII it is then
    /// looked at as the possible lead of a new sequence, and what it would
    /// yield by itself is dropped.
    pub open spec fn feed(self, byte: u8) -> (Utf8State, Option<char>) {
        if self.expected == 0 {
            Utf8State::start(byte)
        } else if 0x80 <= byte <= 0xBF {
            let pending = self.pending.push(byte);
            if pending.len() == self.expected {
                (Utf8State::idle(), Some(decode_sequence(pending)))
            } else {
                (Utf8State { pending, expected: self.expected }, None)
            }
        } else {
            (
                if byte >= 0x80 {
                    Utf8State::start(byte).0
                } else {
                    Utf8State::idle()
                },
                Some(replacement()),
            )
        }
    }
}

/// A streaming decoder: bytes go in one at a time, characters come out as
/// they complete.
pub struct Utf8Decoder {
    pub buf: [u8; 4],
    pub len: u8,
    pub expected: u8,
}

impl View for Utf8Decoder {
    type V = Utf8State;

    open spec fn view(&self) -> Utf8State {
        Utf8State { pending: self.buf@.subrange(0, self.len as int), expected: self.expected as int }
    }
}

/// `core::str::from_utf8` on the first `len` bytes of `buf`: the string that
/// the bytes encode, or `None` where they are not well-formed UTF-8.
#[verifier::external_body]
fn str_from_utf8(buf: &[u8; 4], len: usize) -> (r: Option<&str>)
    requires
        len <= 4,
    ensures
        r is Some <==> valid_utf8(buf@.subrange(0, len as int)),
        r matches Some(s) ==> s@ == decode_utf8(buf@.subrange(0, len as int)),
{
    core::str::from_utf8(&buf[..len]).ok()
}

impl Utf8Decoder {
    pub open spec fn wf(&self) -> bool {
        &&& self.len <= 4
        &&& self@.wf()
    }

    pub fn new() -> (d: Utf8Decoder)
        ensures
            d.wf(),
            d@ == Utf8State::idle(),
    {
        let d = Utf8Decoder { buf: [0;4], len: 0, expected: 0 };
        assert(d@.pending =~= Seq::<u8>::empty());
        d
    }

    /// Feeds one byte. Returns the character that the byte completes, `None`
    /// while more bytes are needed, and the replacement character for a
    /// sequence that is not well formed.
    pub fn feed(&mut self, byte: u8) -> (r: Option<char>)
        requires
            old(self).wf(),
        ensures
            final(self).wf(),
            (final(self)@, r) == old(self)@.feed(byte),
    {
        if self.expected == 0 {
            self.begin(byte)
        } else if byte >= 0x80 && byte <= 0xBF {
            let at = self.len as usize;
            self.buf[at] = byte;
            self.len += 1;
            assert(self@.pending =~= old(self)@.pending.push(byte));
            if self.len == self.expected {
                let decoded = match str_from_utf8(&self.buf, self.len as usize) {
                    Some(s) => {
                        assert(s@.len() > 0);
                        s.get_char(0)
                    },
                    None => '\u{FFFD}',
                };
                self.expected = 0;
                self.len = 0;
                assert(self@.pending =~= Seq::<u8>::empty());
                Some(decoded)
            } else {
                None
            }
        } else {
            self.expected = 0;
            self.len = 0;
            assert(self@.pending =~= Seq::<u8>::empty());
            if byte >= 0x80 {
                let _ = self.begin(byte);
            }
            Some('\u{FFFD}')
        }
    }

    fn begin(&mut self, byte: u8) -> (r: Option<char>)
        requires
            old(self).wf(),
            old(self).expected == 0,
        ensures
            final(self).wf(),
            (final(self)@, r) == Utf8State::start(byte),
    {
        if byte < 0x80 {
            assert(self@.pending =~= Seq::<u8>::empty());
            return Some(byte as char);
        } else if byte >= 0xC0 && byte <= 0xDF {
            self.expected = 2;
        } else if byte >= 0xE0 && byte <= 0xEF {
            self.expected = 3;
        } else if byte >= 0xF0 && byte <= 0xF7 {
            self.expected = 4;
        } else {
            assert(self@.pending =~= Seq::<u8>::empty());
            return Some('\u{FFFD}');
        }
        self.buf[0] = byte;
        self.len = 1;
        assert(self@.pending =~= seq![byte]);
        None
    }

    /// Whether the decoder is in the middle of a sequence.
    pub fn is_pending(&self) -> (b: bool)
        ensures
            b == self@.is_pending(),
    {
        self.expected > 0
    }
}

impl Default for Utf8Decoder {
    fn default() -> (d: Utf8Decoder)
        ensures
            d.wf(),
            d@ == Utf8State::idle(),
    {
        Utf8Decoder::new()
    }
}

/// Whether the code point takes no cell: C0 and C1 controls, DEL, the common
/// combining marks, variation selectors, zero-width spaces, bidi controls,
/// the word joiner and its neighbours, and the byte-order mark.
pub open spec fn is_zero_width(cp: u32) -> bool {
    ||| cp <= 0x1f
    ||| 0x7f <= cp <= 0x9f
    ||| 0x0300 <= cp <= 0x036f
    ||| 0x0483 <= cp <= 0x0489
    ||| 0x0591 <= cp <= 0x05bd
    ||| cp == 0x05bf
    ||| 0x05c1 <= cp <= 0x05c2
    ||| 0x05c4 <= cp <= 0x05c5
    ||| cp == 0x05c7
    ||| 0x0610 <= cp <= 0x061a
    ||| 0x064b <= cp <= 0x065f
    ||| cp == 0x0670
    ||| 0xfe00 <= cp <= 0xfe0f
    ||| 0x200b <= cp <= 0x200f
    ||| 0x2028 <= cp <= 0x202e
    ||| 0x2060 <= cp <= 0x2064
    ||| cp == 0xfeff
}

/// Whether the code point takes two cells: Hangul Jamo and syllables, the CJK
/// blocks, kana, the fullwidth forms, and the principal emoji blocks.
pub open spec fn is_wide(cp: u32) -> bool {
    ||| 0x1100 <= cp <= 0x115f
    ||| 0x2e80 <= cp <= 0x303e
    ||| 0x3041 <= cp <= 0x33bf
    ||| 0x3400 <= cp <= 0x4dbf
    ||| 0x4e00 <= cp <= 0xa4cf
    ||| 0xa960 <= cp <= 0xa97c
    ||| 0xac00 <= cp <= 0xd7a3
    ||| 0xf900 <= cp <= 0xfaff
    ||| 0xfe30 <= cp <= 0xfe6f
    ||| 0xff01 <= cp <= 0xff60
    ||| 0xffe0 <= cp <= 0xffe6
    ||| 0x20000 <= cp <= 0x2fffd
    ||| 0x30000 <= cp <= 0x3fffd
    ||| 0x1f300 <= cp <= 0x1f9ff
    ||| 0x1fa00 <= cp <= 0x1faff
}

/// The number of cells that a character takes: 0, 1 or 2.
pub open spec fn width_of(ch: char) -> int {
    if is_zero_width(ch as u32) {
        0
    } else if is_wide(ch as u32) {
        2
    } else {
        1
    }
}

/// Returns the display width of a character: 0, 1, or 2.
pub fn char_width(ch: char) -> (w: usize)
    ensures
        w == width_of(ch),
        w <= 2,
{
    let cp = ch as u32;
    if cp <= 0x1f || (cp >= 0x7f && cp <= 0x9f) || (cp >= 0x0300 && cp <= 0x036f) || (cp >= 0x0483
        && cp <= 0x0489) || (cp >= 0x0591 && cp <= 0x05bd) || cp == 0x05bf || (cp >= 0x05c1 && cp
        <= 0x05c2) || (cp >= 0x05c4 && cp <= 0x05c5) || cp == 0x05c7 || (cp >= 0x0610 && cp
        <= 0x061a) || (cp >= 0x064b && cp <= 0x065f) || cp == 0x0670 || (cp >= 0xfe00 && cp
        <= 0xfe0f) || (cp >= 0x200b && cp <= 0x200f) || (cp >= 0x2028 && cp <= 0x202e) || (cp
        >= 0x2060 && cp <= 0x2064) || cp == 0xfeff {
        0
    } else if (cp >= 0x1100 && cp <= 0x115f) || (cp >= 0x2e80 && cp <= 0x303e) || (cp >= 0x3041
        && cp <= 0x33bf) || (cp >= 0x3400 && cp <= 0x4dbf) || (cp >= 0x4e00 && cp <= 0xa4cf) || (cp
        >= 0xa960 && cp <= 0xa97c) || (cp >= 0xac00 && cp <= 0xd7a3) || (cp >= 0xf900 && cp
        <= 0xfaff) || (cp >= 0xfe30 && cp <= 0xfe6f) || (cp >= 0xff01 && cp <= 0xff60) || (cp
        >= 0xffe0 && cp <= 0xffe6) || (cp >= 0x20000 && cp <= 0x2fffd) || (cp >= 0x30000 && cp
        <= 0x3fffd) || (cp >= 0x1f300 && cp <= 0x1f9ff) || (cp >= 0x1fa00 && cp <= 0x1faff) {
        2
    } else {
        1
    }
}

} // verus!
