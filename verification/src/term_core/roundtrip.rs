//! UTF-8 goes through the parser and the decoder unharmed.
use super::laws::lemma_feed_split;
use super::parser::{ParserState, State};
use super::printing::{is_printed, lemma_print_all_on_row, print_all, text_cells};
use super::state::TermState;
use super::utf8::{decode_sequence, width_of, Utf8State};
use vstd::prelude::*;
use vstd::utf8::{encode_scalar, encode_utf8};

verus! {

/// Feeding one byte more is one step after feeding the bytes before it.
pub proof fn lemma_feed_push(term: TermState, parser: ParserState, data: Seq<u8>, byte: u8)
    ensures
        term.feed(parser, data.push(byte)) == ({
            let (mid_term, mid_parser) = term.feed(parser, data);
            mid_term.feed_byte(mid_parser, byte)
        }),
{
    assert(data.push(byte).drop_last() =~= data);
    assert(data.push(byte).last() == byte);
}

/// On the ground a byte from 0x80 on goes to the decoder, and the parser
/// stays as it is.
proof fn lemma_feed_raw_byte(term: TermState, parser: ParserState, byte: u8)
    requires
        parser.state == State::Ground,
        byte >= 0x80,
    ensures
        term.feed_byte(parser, byte) == ({
            let (utf8, decoded) = term.utf8.feed(byte);
            let fed = TermState { utf8, ..term };
            match decoded {
                Some(ch) => (fed.print(ch), parser),
                None => (fed, parser),
            }
        }),
{
    reveal(TermState::feed_byte);
}

/// What the encoding of one character looks like: a lead byte that announces
/// the length, continuation bytes after it, and bytes that decode to the
/// character.
proof fn lemma_encoding_shape(c: char)
    ensures
        ({
            let bytes = encode_scalar(c as u32);
            &&& 1 <= bytes.len() <= 4
            &&& bytes.len() == 1 ==> bytes[0] < 0x80 && bytes[0] as char == c
            &&& bytes.len() == 2 ==> 0xC0 <= bytes[0] <= 0xDF
            &&& bytes.len() == 3 ==> 0xE0 <= bytes[0] <= 0xEF
            &&& bytes.len() == 4 ==> 0xF0 <= bytes[0] <= 0xF7
            &&& forall|i: int| 1 <= i < bytes.len() ==> 0x80 <= #[trigger] bytes[i] <= 0xBF
            &&& bytes.len() >= 2 ==> decode_sequence(bytes) == c
        }),
{
    let chars = seq![c];
    let bytes = encode_scalar(c as u32);
    assert(encode_utf8(chars.drop_first()) =~= Seq::<u8>::empty()) by {
        assert(chars.drop_first().len() == 0);
    }
    assert(encode_utf8(chars) =~= bytes);
    vstd::utf8::encode_utf8_first_scalar(chars);
    vstd::utf8::encode_utf8_valid_utf8(chars);
    vstd::utf8::char_u32_cast(c, c as u32);
    vstd::utf8::char_is_scalar(c);
    if bytes.len() == 1 {
        assert(bytes[0] as u32 == c as u32) by {
            assert(vstd::utf8::codepoint_width_1(bytes[0]) == c as u32);
            let b0: u8 = bytes[0];
            assert(b0 & 0x7f == b0) by (bit_vector)
                requires
                    b0 <= 0x7f,
            ;
        }
        vstd::utf8::char_u32_cast(c, bytes[0] as u32);
    }
}

/// A lead byte opens a sequence in the decoder.
proof fn lemma_feed_lead(term: TermState, parser: ParserState, byte: u8)
    requires
        parser.state == State::Ground,
        term.utf8 == Utf8State::idle(),
        0xC0 <= byte <= 0xF7,
    ensures
        term.feed_byte(parser, byte) == (
            TermState {
                utf8: Utf8State {
                    pending: seq![byte],
                    expected: if byte <= 0xDF {
                        2
                    } else if byte <= 0xEF {
                        3
                    } else {
                        4
                    },
                },
                ..term
            },
            parser,
        ),
{
    lemma_feed_raw_byte(term, parser, byte);
}

/// A continuation byte that is not the last is taken in.
proof fn lemma_feed_middle(term: TermState, parser: ParserState, byte: u8)
    requires
        parser.state == State::Ground,
        term.utf8.expected > 0,
        term.utf8.pending.len() + 1 < term.utf8.expected,
        0x80 <= byte <= 0xBF,
    ensures
        term.feed_byte(parser, byte) == (
            TermState {
                utf8: Utf8State {
                    pending: term.utf8.pending.push(byte),
                    expected: term.utf8.expected,
                },
                ..term
            },
            parser,
        ),
{
    lemma_feed_raw_byte(term, parser, byte);
}

/// The last continuation byte completes the character, which is printed.
proof fn lemma_feed_last(term: TermState, parser: ParserState, byte: u8)
    requires
        parser.state == State::Ground,
        term.utf8.expected > 0,
        term.utf8.pending.len() + 1 == term.utf8.expected,
        0x80 <= byte <= 0xBF,
    ensures
        term.feed_byte(parser, byte) == (
            (TermState { utf8: Utf8State::idle(), ..term }).print(
                decode_sequence(term.utf8.pending.push(byte)),
            ),
            parser,
        ),
{
    lemma_feed_raw_byte(term, parser, byte);
}

/// Feeding the encoding of one printed character prints it.
proof fn lemma_feed_one_char(term: TermState, parser: ParserState, c: char)
    requires
        parser.state == State::Ground,
        term.utf8 == Utf8State::idle(),
        is_printed(c),
    ensures
        term.feed(parser, encode_scalar(c as u32)) == (term.print(c), parser),
{
    let bytes = encode_scalar(c as u32);
    lemma_encoding_shape(c);
    let empty = Seq::<u8>::empty();
    assert(term.feed(parser, empty) == (term, parser));
    assert(term == (TermState { utf8: Utf8State::idle(), ..term }));
    if bytes.len() == 1 {
        assert(bytes =~= empty.push(bytes[0]));
        lemma_feed_push(term, parser, empty, bytes[0]);
        lemma_feed_ascii(term, parser, bytes[0]);
    } else {
        let s1 = empty.push(bytes[0]);
        lemma_feed_push(term, parser, empty, bytes[0]);
        lemma_feed_lead(term, parser, bytes[0]);
        let t1 = term.feed(parser, s1).0;
        let s2 = s1.push(bytes[1]);
        lemma_feed_push(term, parser, s1, bytes[1]);
        if bytes.len() == 2 {
            lemma_feed_last(t1, parser, bytes[1]);
            assert(bytes =~= s2);
            assert(t1.utf8.pending.push(bytes[1]) =~= bytes);
        } else {
            lemma_feed_middle(t1, parser, bytes[1]);
            let t2 = term.feed(parser, s2).0;
            let s3 = s2.push(bytes[2]);
            lemma_feed_push(term, parser, s2, bytes[2]);
            if bytes.len() == 3 {
                lemma_feed_last(t2, parser, bytes[2]);
                assert(bytes =~= s3);
                assert(t2.utf8.pending.push(bytes[2]) =~= bytes);
            } else {
                lemma_feed_middle(t2, parser, bytes[2]);
                let t3 = term.feed(parser, s3).0;
                let s4 = s3.push(bytes[3]);
                lemma_feed_push(term, parser, s3, bytes[3]);
                lemma_feed_last(t3, parser, bytes[3]);
                assert(bytes =~= s4);
                assert(t3.utf8.pending.push(bytes[3]) =~= bytes);
            }
        }
    }
}

/// On the ground a printable ASCII byte is printed.
proof fn lemma_feed_ascii(term: TermState, parser: ParserState, byte: u8)
    requires
        parser.state == State::Ground,
        0x20 <= byte <= 0x7e,
    ensures
        term.feed_byte(parser, byte) == (term.print(byte as char), parser),
{
    reveal(TermState::feed_byte);
    reveal(TermState::handle_action);
}

/// UTF-8 goes through unharmed: fed to a terminal whose parser is on the
/// ground and whose decoder is idle, the encoding of a sequence of printed
/// characters prints these characters, one after the other, and leaves the
/// parser as it was.
pub proof fn lemma_feed_utf8_prints(term: TermState, parser: ParserState, chars: Seq<char>)
    requires
        parser.state == State::Ground,
        term.utf8 == Utf8State::idle(),
        forall|i: int| 0 <= i < chars.len() ==> is_printed(#[trigger] chars[i]),
    ensures
        term.feed(parser, encode_utf8(chars)) == (print_all(term, chars), parser),
        print_all(term, chars).utf8 == Utf8State::idle(),
    decreases chars.len(),
{
    if chars.len() > 0 {
        let first = encode_scalar(chars[0] as u32);
        let rest = chars.drop_first();
        lemma_feed_one_char(term, parser, chars[0]);
        lemma_feed_split(term, parser, first, encode_utf8(rest));
        lemma_print_keeps_decoder(term, chars[0]);
        lemma_feed_utf8_prints(term.print(chars[0]), parser, rest);
    }
}

/// Printing leaves the decoder alone.
proof fn lemma_print_keeps_decoder(term: TermState, ch: char)
    ensures
        term.print(ch).utf8 == term.utf8,
{
    reveal(TermState::print);
    reveal(TermState::settle_wrap);
    reveal(TermState::make_room);
    reveal(TermState::put);
    reveal(TermState::put_trailer);
    reveal(TermState::hold_margin);
    reveal(TermState::index);
}

/// UTF-8 goes through to the cells: fed to a terminal whose parser is on the
/// ground and whose decoder is idle, the encoding of a text that fits on the
/// cursor's row leaves the characters of the text in the row's cells, in
/// order, each wide one followed by NUL.
pub proof fn lemma_feed_utf8_on_row(term: TermState, parser: ParserState, chars: Seq<char>)
    requires
        term.wf(),
        parser.state == State::Ground,
        term.utf8 == Utf8State::idle(),
        forall|i: int| 0 <= i < chars.len() ==> width_of(#[trigger] chars[i]) != 0,
        term.grid.cursor_col + text_cells(chars, term.pen).len() <= term.grid.cols,
    ensures
        ({
            let after = term.feed(parser, encode_utf8(chars)).0;
            let image = text_cells(chars, term.pen);
            forall|c: int|
                0 <= c < image.len() ==> #[trigger] after.grid.cell(
                    term.grid.cursor_row,
                    term.grid.cursor_col + c,
                ) == image[c]
        }),
{
    assert forall|i: int| 0 <= i < chars.len() implies is_printed(#[trigger] chars[i]) by {
        assert(width_of(chars[i]) != 0);
    }
    lemma_feed_utf8_prints(term, parser, chars);
    lemma_print_all_on_row(term, chars);
}

} // verus!
