//! Clipboard helpers: the bracketed-paste frame and the payload of an OSC 52
//! clipboard set.
use crate::text::{find_char, first_index, string_from_utf8, strip_prefix};
use vstd::prelude::*;
use vstd::utf8::{decode_utf8, encode_utf8, valid_utf8};

verus! {

/// The bytes that open a bracketed paste: `ESC [ 2 0 0 ~`.
pub open spec fn paste_start() -> Seq<u8> {
    seq![0x1bu8, 0x5bu8, 0x32u8, 0x30u8, 0x30u8, 0x7eu8]
}

/// The bytes that close a bracketed paste: `ESC [ 2 0 1 ~`.
pub open spec fn paste_end() -> Seq<u8> {
    seq![0x1bu8, 0x5bu8, 0x32u8, 0x30u8, 0x31u8, 0x7eu8]
}

/// Wrap text in bracketed paste escape sequences.
pub fn bracketed_paste_wrap(text: &str) -> (out: Vec<u8>)
    ensures
        out@ == paste_start() + encode_utf8(text@) + paste_end(),
{
    let mut out: Vec<u8> = Vec::new();
    out.push(0x1b);
    out.push(0x5b);
    out.push(0x32);
    out.push(0x30);
    out.push(0x30);
    out.push(0x7e);
    assert(out@ =~= paste_start());
    let bytes = text.as_bytes();
    let mut i: usize = 0;
    while i < bytes.len()
        invariant
            i <= bytes.len(),
            out@ == paste_start() + bytes@.take(i as int),
        decreases bytes.len() - i,
    {
        out.push(bytes[i]);
        assert(out@ =~= paste_start() + bytes@.take(i + 1));
        i += 1;
    }
    assert(bytes@.take(bytes.len() as int) =~= bytes@);
    out.push(0x1b);
    out.push(0x5b);
    out.push(0x32);
    out.push(0x30);
    out.push(0x31);
    out.push(0x7e);
    assert(out@ =~= paste_start() + encode_utf8(text@) + paste_end());
    out
}

/// The six bits that a symbol of the base64 alphabet stands for.
pub open spec fn sextet(b: u8) -> Option<u8> {
    if 0x41 <= b <= 0x5a {
        Some((b - 0x41) as u8)
    } else if 0x61 <= b <= 0x7a {
        Some((b - 0x61 + 26) as u8)
    } else if 0x30 <= b <= 0x39 {
        Some((b - 0x30 + 52) as u8)
    } else if b == 0x2b {
        Some(62u8)
    } else if b == 0x2f {
        Some(63u8)
    } else {
        None
    }
}

/// Padding and line breaks, which the decoder passes over.
pub open spec fn is_skipped(b: u8) -> bool {
    b == 0x3d || b == 0x0a || b == 0x0d
}

/// The sextets of the symbols of `input`, in order; `None` where a byte is
/// neither a symbol nor passed over.
pub open spec fn sextets(input: Seq<u8>) -> Option<Seq<u8>>
    decreases input.len(),
{
    if input.len() == 0 {
        Some(Seq::empty())
    } else {
        match sextets(input.drop_last()) {
            None => None,
            Some(vals) => if is_skipped(input.last()) {
                Some(vals)
            } else {
                match sextet(input.last()) {
                    Some(v) => Some(vals.push(v)),
                    None => None,
                }
            },
        }
    }
}

/// The bytes that the sextets from index `from` on join to: each four give
/// three bytes; of a shorter rest, three give two bytes, two give one, and
/// one gives none.
pub open spec fn join_sextets(vals: Seq<u8>, from: int) -> Seq<u8>
    decreases vals.len() - from,
{
    if from < 0 || vals.len() - from < 2 {
        Seq::empty()
    } else {
        let b0 = (vals[from] << 2) | (vals[from + 1] >> 4);
        if vals.len() - from == 2 {
            seq![b0]
        } else {
            let b1 = ((vals[from + 1] & 0x0f) << 4) | (vals[from + 2] >> 2);
            if vals.len() - from == 3 {
                seq![b0, b1]
            } else {
                let b2 = ((vals[from + 2] & 0x03) << 6) | vals[from + 3];
                seq![b0, b1, b2] + join_sextets(vals, from + 4)
            }
        }
    }
}

/// The bytes that base64 text decodes to.
pub open spec fn base64_bytes(input: Seq<u8>) -> Option<Seq<u8>> {
    match sextets(input) {
        Some(vals) => Some(join_sextets(vals, 0)),
        None => None,
    }
}

/// The text that base64 text decodes to, where it decodes to UTF-8.
pub open spec fn base64_text(input: Seq<char>) -> Option<Seq<char>> {
    match base64_bytes(encode_utf8(input)) {
        Some(bytes) => if valid_utf8(bytes) {
            Some(decode_utf8(bytes))
        } else {
            None
        },
        None => None,
    }
}

/// The text that an OSC 52 payload `52;TARGET;DATA` sets the clipboard to:
/// `DATA` decoded from base64. There is none where the payload has another
/// form, where `DATA` is `?` (a query), or where it does not decode.
pub open spec fn osc52_text(data: Seq<char>) -> Option<Seq<char>> {
    if seq!['5', '2', ';'].is_prefix_of(data) {
        let rest = data.skip(3);
        match first_index(rest, ';') {
            Some(i) => {
                let b64 = rest.skip(i + 1);
                if b64 == seq!['?'] {
                    None
                } else {
                    base64_text(b64)
                }
            },
            None => None,
        }
    } else {
        None
    }
}

/// Decode OSC 52 clipboard set: `52;c;BASE64_DATA`
pub fn decode_osc52_set(data: &str) -> (r: Option<String>)
    ensures
        r is Some <==> osc52_text(data@) is Some,
        r matches Some(s) ==> Some(s@) == osc52_text(data@),
{
    proof {
        reveal_strlit("52;");
        assert("52;"@ =~= seq!['5', '2', ';']);
    }
    let rest = match strip_prefix(data, "52;") {
        Some(rest) => rest,
        None => {
            return None;
        },
    };
    let at = match find_char(rest, ';') {
        Some(at) => at,
        None => {
            return None;
        },
    };
    let len = rest.unicode_len();
    let b64 = rest.substring_char(at + 1, len);
    if is_query(b64) {
        return None;
    }
    base64_decode(b64)
}

fn is_query(s: &str) -> (b: bool)
    ensures
        b == (s@ == seq!['?']),
{
    let b = s.unicode_len() == 1 && s.get_char(0) == '?';
    assert(b ==> s@ =~= seq!['?']);
    b
}

fn symbol_value(b: u8) -> (r: Option<u8>)
    ensures
        r == sextet(b),
        r matches Some(v) ==> v < 64,
{
    if b >= 0x41 && b <= 0x5a {
        Some(b - 0x41)
    } else if b >= 0x61 && b <= 0x7a {
        Some(b - 0x61 + 26)
    } else if b >= 0x30 && b <= 0x39 {
        Some(b - 0x30 + 52)
    } else if b == 0x2b {
        Some(62)
    } else if b == 0x2f {
        Some(63)
    } else {
        None
    }
}

/// Decodes base64 text, passing over padding and line breaks. `None` where a
/// character is outside the alphabet or the bytes are not UTF-8.
pub fn base64_decode(input: &str) -> (r: Option<String>)
    ensures
        r is Some <==> base64_text(input@) is Some,
        r matches Some(s) ==> Some(s@) == base64_text(input@),
{
    let bytes = input.as_bytes();
    let mut vals: Vec<u8> = Vec::new();
    let mut i: usize = 0;
    assert(bytes@.take(0) =~= Seq::<u8>::empty());
    while i < bytes.len()
        invariant
            i <= bytes.len(),
            bytes@ == encode_utf8(input@),
            sextets(bytes@.take(i as int)) == Some(vals@),
        decreases bytes.len() - i,
    {
        let b = bytes[i];
        proof {
            assert(bytes@.take(i + 1).drop_last() =~= bytes@.take(i as int));
            assert(bytes@.take(i + 1).last() == b);
        }
        if !(b == 0x3d || b == 0x0a || b == 0x0d) {
            match symbol_value(b) {
                Some(v) => {
                    vals.push(v);
                },
                None => {
                    proof {
                        lemma_sextets_none(bytes@, i + 1);
                    }
                    return None;
                },
            }
        }
        i += 1;
    }
    assert(bytes@.take(bytes.len() as int) =~= bytes@);
    let out = join(&vals);
    string_from_utf8(out)
}

/// Once a prefix has a byte that is no symbol, so has the whole.
proof fn lemma_sextets_none(input: Seq<u8>, n: int)
    requires
        0 <= n <= input.len(),
        sextets(input.take(n)) is None,
    ensures
        sextets(input) is None,
    decreases input.len() - n,
{
    if n < input.len() {
        assert(input.take(n + 1).drop_last() =~= input.take(n));
        lemma_sextets_none(input, n + 1);
    } else {
        assert(input.take(n) =~= input);
    }
}

fn join(vals: &Vec<u8>) -> (out: Vec<u8>)
    ensures
        out@ == join_sextets(vals@, 0),
{
    let mut out: Vec<u8> = Vec::new();
    let n = vals.len();
    let mut i: usize = 0;
    while n - i >= 4
        invariant
            i <= n,
            n == vals.len(),
            out@ + join_sextets(vals@, i as int) == join_sextets(vals@, 0),
        decreases n - i,
    {
        let b0 = (vals[i] << 2) | (vals[i + 1] >> 4);
        let b1 = ((vals[i + 1] & 0x0f) << 4) | (vals[i + 2] >> 2);
        let b2 = ((vals[i + 2] & 0x03) << 6) | vals[i + 3];
        let ghost before = out@;
        out.push(b0);
        out.push(b1);
        out.push(b2);
        assert(out@ + join_sextets(vals@, i + 4) =~= before + (seq![b0, b1, b2] + join_sextets(
            vals@,
            i + 4,
        )));
        i += 4;
    }
    let ghost before = out@;
    if n - i >= 2 {
        out.push((vals[i] << 2) | (vals[i + 1] >> 4));
        if n - i == 3 {
            out.push(((vals[i + 1] & 0x0f) << 4) | (vals[i + 2] >> 2));
        }
    }
    assert(out@ =~= before + join_sextets(vals@, i as int));
    out
}

} // verus!
