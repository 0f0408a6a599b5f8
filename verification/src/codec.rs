//! The protocol codec: commands to lines, reply lines to values.

use crate::protocol::{Color, ProtocolError, Vec2};
use crate::wire::{
    all_digits, decode_color, decode_pixel, decode_size, digits_value, finished, hex_value,
    is_space, keyword_size, lemma_digits_value_grows, parse_channel, parse_color, parse_number,
    parse_position, split, tokens, unsigned_part,
};
use crate::wire::{
    decimal, digit, get_pixel_line, get_size_line, hex_color, hex_pair, keyword_offset,
    is_ascii_bytes, keyword_px, lemma_position_lines_are_ascii,
    lemma_set_pixel_line_is_ascii, newline, set_offset_line, set_pixel_line, space,
};
use vstd::prelude::*;
use vstd::utf8::*;

verus! {

/// std's `String::push` appends the character to the end of the string and
/// leaves what was there untouched.
pub assume_specification[ String::push ](text: &mut String, ch: char)
    ensures
        final(text)@ == old(text)@.push(ch),
;

/// The bytes that a text puts on the wire.
pub open spec fn wire_bytes(text: Seq<char>) -> Seq<u8> {
    encode_utf8(text)
}

/// The text whose characters are the given bytes, one character per byte.
pub open spec fn ascii_text(bytes: Seq<u8>) -> Seq<char> {
    Seq::new(bytes.len(), |i: int| bytes[i] as char)
}

/// A text made of 7-bit bytes is encoded as exactly those bytes.
pub proof fn lemma_ascii_text_encodes(bytes: Seq<u8>)
    requires
        is_ascii_bytes(bytes),
    ensures
        is_ascii_chars(ascii_text(bytes)),
        encode_utf8(ascii_text(bytes)) == bytes,
{
    let text = ascii_text(bytes);
    assert(is_ascii_chars(text)) by {
        assert forall|i: int| 0 <= i < text.len() implies '\0' <= #[trigger] text[i]
            <= '\u{7f}' by {
            assert(bytes[i] < 0x80);
        }
    }
    is_ascii_chars_encode_utf8(text);
    assert(encode_utf8(text) =~= bytes) by {
        assert forall|i: int| 0 <= i < bytes.len() implies encode_utf8(text)[i] == bytes[i] by {
            assert(bytes[i] < 0x80);
            assert(text[i] as u8 == encode_utf8(text)[i]);
        }
    }
}

/// Concatenating bytes and then reading them as text is the same as
/// concatenating the texts.
proof fn lemma_ascii_text_concat(left: Seq<u8>, right: Seq<u8>)
    ensures
        ascii_text(left + right) == ascii_text(left) + ascii_text(right),
{
    assert(ascii_text(left + right) =~= ascii_text(left) + ascii_text(right));
}

fn push_ascii(text: &mut String, byte: u8)
    requires
        byte < 0x80,
    ensures
        final(text)@ == old(text)@ + ascii_text(seq![byte]),
{
    text.push(byte as char);
    assert(text@ =~= old(text)@ + ascii_text(seq![byte]));
}

fn push_space(text: &mut String)
    ensures
        final(text)@ == old(text)@ + ascii_text(space()),
{
    push_ascii(text, 0x20);
}

fn push_newline(text: &mut String)
    ensures
        final(text)@ == old(text)@ + ascii_text(newline()),
{
    push_ascii(text, 0x0a);
}

fn push_decimal(text: &mut String, n: u32)
    ensures
        final(text)@ == old(text)@ + ascii_text(decimal(n as nat)),
    decreases n,
{
    if n >= 10 {
        push_decimal(text, n / 10);
    }
    let last: u8 = (n % 10) as u8;
    push_ascii(text, 0x30 + last);
    proof {
        if n >= 10 {
            lemma_ascii_text_concat(decimal(n as nat / 10), seq![digit(n as nat % 10)]);
            assert(decimal(n as nat) =~= decimal(n as nat / 10) + seq![digit(n as nat % 10)]);
        }
        assert(text@ =~= old(text)@ + ascii_text(decimal(n as nat)));
    }
}

fn push_hex_pair(text: &mut String, channel: u8)
    ensures
        final(text)@ == old(text)@ + ascii_text(hex_pair(channel)),
{
    let high: u8 = channel / 16;
    let low: u8 = channel % 16;
    push_ascii(text, if high < 10 { 0x30 + high } else { 0x61 + (high - 10) });
    push_ascii(text, if low < 10 { 0x30 + low } else { 0x61 + (low - 10) });
    assert(text@ =~= old(text)@ + ascii_text(hex_pair(channel)));
}

fn push_color(text: &mut String, color: &Color)
    ensures
        final(text)@ == old(text)@ + ascii_text(hex_color(*color)),
{
    push_hex_pair(text, color.r);
    push_hex_pair(text, color.g);
    push_hex_pair(text, color.b);
    assert(text@ =~= old(text)@ + ascii_text(hex_color(*color)));
}

/// Appends ` <x> <y>`.
fn push_position(text: &mut String, position: Vec2)
    ensures
        final(text)@ == old(text)@ + ascii_text(
            space() + decimal(position.x as nat) + space() + decimal(position.y as nat),
        ),
{
    push_space(text);
    push_decimal(text, position.x);
    push_space(text);
    push_decimal(text, position.y);
    assert(text@ =~= old(text)@ + ascii_text(
        space() + decimal(position.x as nat) + space() + decimal(position.y as nat),
    ));
}

fn push_px(text: &mut String)
    ensures
        final(text)@ == old(text)@ + ascii_text(keyword_px()),
{
    push_ascii(text, 0x50);
    push_ascii(text, 0x58);
    assert(text@ =~= old(text)@ + ascii_text(keyword_px()));
}

/// The command that paints `position` in `color`: `PX <x> <y> <rrggbb>\n`,
/// the channels as two lowercase hexadecimal digits each.
pub fn to_ascii_command(position: Vec2, color: &Color) -> (command: String)
    ensures
        command@ == ascii_text(set_pixel_line(position, *color)),
        wire_bytes(command@) == set_pixel_line(position, *color),
{
    let mut command = String::new();
    push_px(&mut command);
    push_position(&mut command, position);
    push_space(&mut command);
    push_color(&mut command, color);
    push_newline(&mut command);
    proof {
        let line = set_pixel_line(position, *color);
        assert(line =~= keyword_px() + (space() + decimal(position.x as nat) + space() + decimal(
            position.y as nat,
        )) + space() + hex_color(*color) + newline());
        assert(command@ =~= ascii_text(line));
        lemma_set_pixel_line_is_ascii(position, *color);
        lemma_ascii_text_encodes(line);
    }
    command
}

/// The command that asks for the colour at `position`: `PX <x> <y>\n`.
pub fn encode_get_pixel(position: Vec2) -> (command: String)
    ensures
        command@ == ascii_text(get_pixel_line(position)),
        wire_bytes(command@) == get_pixel_line(position),
{
    let mut command = String::new();
    push_px(&mut command);
    push_position(&mut command, position);
    push_newline(&mut command);
    proof {
        let line = get_pixel_line(position);
        assert(line =~= keyword_px() + (space() + decimal(position.x as nat) + space() + decimal(
            position.y as nat,
        )) + newline());
        assert(command@ =~= ascii_text(line));
        lemma_position_lines_are_ascii(position);
        lemma_ascii_text_encodes(line);
    }
    command
}

/// The command that asks for the dimensions of the canvas: `SIZE\n`.
pub fn encode_get_size() -> (command: String)
    ensures
        command@ == ascii_text(get_size_line()),
        wire_bytes(command@) == get_size_line(),
{
    let mut command = String::new();
    push_ascii(&mut command, 0x53);
    push_ascii(&mut command, 0x49);
    push_ascii(&mut command, 0x5a);
    push_ascii(&mut command, 0x45);
    push_newline(&mut command);
    proof {
        assert(command@ =~= ascii_text(get_size_line()));
        lemma_ascii_text_encodes(get_size_line());
    }
    command
}

/// The command that asks the server to translate what this connection draws:
/// `OFFSET <x> <y>\n`. Not every server knows it; the client-side offset of
/// the endpoint and of the canvas needs no server support.
pub fn encode_set_offset(offset: Vec2) -> (command: String)
    ensures
        command@ == ascii_text(set_offset_line(offset)),
        wire_bytes(command@) == set_offset_line(offset),
{
    let mut command = String::new();
    push_ascii(&mut command, 0x4f);
    push_ascii(&mut command, 0x46);
    push_ascii(&mut command, 0x46);
    push_ascii(&mut command, 0x53);
    push_ascii(&mut command, 0x45);
    push_ascii(&mut command, 0x54);
    push_position(&mut command, offset);
    push_newline(&mut command);
    proof {
        let line = set_offset_line(offset);
        assert(line =~= keyword_offset() + (space() + decimal(offset.x as nat) + space() + decimal(
            offset.y as nat,
        )) + newline());
        assert(command@ =~= ascii_text(line));
        lemma_position_lines_are_ascii(offset);
        lemma_ascii_text_encodes(line);
    }
    command
}

/// The tokens that the spans cut out of `bytes`.
pub open spec fn words_at(bytes: Seq<u8>, spans: Seq<(usize, usize)>) -> Seq<Seq<u8>> {
    Seq::new(spans.len(), |k: int| bytes.subrange(spans[k].0 as int, spans[k].1 as int))
}

/// Whether every span lies inside a line of `len` bytes.
pub open spec fn spans_within(spans: Seq<(usize, usize)>, len: int) -> bool {
    forall|k: int|
        0 <= k < spans.len() ==> (#[trigger] spans[k]).0 <= spans[k].1 && spans[k].1 <= len
}

fn is_space_byte(byte: u8) -> (yes: bool)
    ensures
        yes == is_space(byte),
{
    byte == 0x20 || (0x09 <= byte && byte <= 0x0d)
}

/// Finds where the tokens of a line begin and end.
fn tokenize(bytes: &[u8]) -> (spans: Vec<(usize, usize)>)
    ensures
        spans_within(spans@, bytes@.len() as int),
        words_at(bytes@, spans@) == tokens(bytes@),
{
    let mut spans: Vec<(usize, usize)> = Vec::new();
    let mut start: usize = 0;
    let mut i: usize = 0;
    assert(bytes@.skip(0) =~= bytes@);
    assert(words_at(bytes@, spans@) =~= Seq::<Seq<u8>>::empty());
    assert(bytes@.subrange(0, 0) =~= Seq::<u8>::empty());
    while i < bytes.len()
        invariant
            start <= i <= bytes@.len(),
            spans_within(spans@, start as int),
            tokens(bytes@) == words_at(bytes@, spans@) + split(
                bytes@.skip(i as int),
                bytes@.subrange(start as int, i as int),
            ),
        decreases bytes@.len() - i,
    {
        let ghost rest = bytes@.skip(i as int);
        let ghost word = bytes@.subrange(start as int, i as int);
        let ghost before = spans@;
        assert(rest.drop_first() =~= bytes@.skip(i + 1));
        if is_space_byte(bytes[i]) {
            if start < i {
                spans.push((start, i));
            }
            start = i + 1;
            proof {
                assert(words_at(bytes@, spans@) =~= words_at(bytes@, before) + finished(word));
                assert(bytes@.subrange(start as int, i + 1) =~= Seq::<u8>::empty());
            }
        } else {
            assert(word.push(rest[0]) =~= bytes@.subrange(start as int, i + 1));
        }
        i += 1;
    }
    let ghost word = bytes@.subrange(start as int, i as int);
    let ghost before = spans@;
    if start < i {
        spans.push((start, i));
    }
    proof {
        assert(bytes@.skip(i as int) =~= Seq::<u8>::empty());
        assert(words_at(bytes@, spans@) =~= words_at(bytes@, before) + finished(word));
    }
    spans
}

/// Reads the token `bytes[start..end]` as a number.
fn parse_u32(bytes: &[u8], start: usize, end: usize) -> (number: Option<u32>)
    requires
        start <= end <= bytes@.len(),
    ensures
        number == parse_number(bytes@.subrange(start as int, end as int)),
{
    let ghost token = bytes@.subrange(start as int, end as int);
    let first: usize = if start < end && bytes[start] == 0x2b {
        start + 1
    } else {
        start
    };
    let ghost digits = bytes@.subrange(first as int, end as int);
    assert(digits =~= unsigned_part(token));
    if first == end {
        return None;
    }
    let mut value: u64 = 0;
    let mut i: usize = first;
    assert(digits.take(0) =~= Seq::<u8>::empty());
    while i < end
        invariant
            start <= first <= i <= end <= bytes@.len(),
            first < end,
            digits == bytes@.subrange(first as int, end as int),
            digits == unsigned_part(bytes@.subrange(start as int, end as int)),
            all_digits(digits.take(i - first)),
            value == digits_value(digits.take(i - first)),
            value <= u32::MAX,
        decreases end - i,
    {
        let byte = bytes[i];
        assert(byte == digits[i - first]);
        if !(0x30 <= byte && byte <= 0x39) {
            assert(!all_digits(digits));
            return None;
        }
        assert(digits.take(i - first + 1).drop_last() =~= digits.take(i - first));
        let next: u64 = value * 10 + (byte - 0x30) as u64;
        if next > u32::MAX as u64 {
            proof {
                if all_digits(digits) {
                    lemma_digits_value_grows(digits, i - first + 1);
                }
            }
            return None;
        }
        value = next;
        i += 1;
    }
    assert(digits.take(end - first) =~= digits);
    Some(value as u32)
}

/// Reads two tokens as a position.
fn parse_vec2(bytes: &[u8], first: (usize, usize), second: (usize, usize)) -> (position: Option<
    Vec2,
>)
    requires
        first.0 <= first.1 <= bytes@.len(),
        second.0 <= second.1 <= bytes@.len(),
    ensures
        position == parse_position(
            bytes@.subrange(first.0 as int, first.1 as int),
            bytes@.subrange(second.0 as int, second.1 as int),
        ),
{
    match parse_u32(bytes, first.0, first.1) {
        None => None,
        Some(x) => match parse_u32(bytes, second.0, second.1) {
            None => None,
            Some(y) => Some(Vec2 { x, y }),
        },
    }
}

fn hex_nibble(byte: u8) -> (value: Option<u8>)
    ensures
        match value {
            Some(v) => hex_value(byte) == Some(v as nat) && v < 16,
            None => hex_value(byte) is None,
        },
{
    if 0x30 <= byte && byte <= 0x39 {
        Some(byte - 0x30)
    } else if 0x61 <= byte && byte <= 0x66 {
        Some(byte - 0x61 + 10)
    } else if 0x41 <= byte && byte <= 0x46 {
        Some(byte - 0x41 + 10)
    } else {
        None
    }
}

fn hex_byte(high: u8, low: u8) -> (channel: Option<u8>)
    ensures
        channel == parse_channel(high, low),
{
    match hex_nibble(high) {
        None => None,
        Some(h) => match hex_nibble(low) {
            None => None,
            Some(l) => Some(16 * h + l),
        },
    }
}

/// Reads the token `bytes[start..end]` as a colour.
fn parse_rgb(bytes: &[u8], start: usize, end: usize) -> (color: Option<Color>)
    requires
        start <= end <= bytes@.len(),
    ensures
        color == parse_color(bytes@.subrange(start as int, end as int)),
{
    if end - start != 6 {
        return None;
    }
    let r = hex_byte(bytes[start], bytes[start + 1]);
    let g = hex_byte(bytes[start + 2], bytes[start + 3]);
    let b = hex_byte(bytes[start + 4], bytes[start + 5]);
    match (r, g, b) {
        (Some(r), Some(g), Some(b)) => Some(Color { r, g, b }),
        _ => None,
    }
}

fn is_px(bytes: &[u8], start: usize, end: usize) -> (yes: bool)
    requires
        start <= end <= bytes@.len(),
    ensures
        yes == (bytes@.subrange(start as int, end as int) == keyword_px()),
{
    let yes = end - start == 2 && bytes[start] == 0x50 && bytes[start + 1] == 0x58;
    proof {
        let token = bytes@.subrange(start as int, end as int);
        if yes {
            assert(token =~= keyword_px());
        } else if token.len() == 2 {
            assert(token[0] != keyword_px()[0] || token[1] != keyword_px()[1]);
        }
    }
    yes
}

fn is_size(bytes: &[u8], start: usize, end: usize) -> (yes: bool)
    requires
        start <= end <= bytes@.len(),
    ensures
        yes == (bytes@.subrange(start as int, end as int) == keyword_size()),
{
    let yes = end - start == 4 && bytes[start] == 0x53 && bytes[start + 1] == 0x49 && bytes[start
        + 2] == 0x5a && bytes[start + 3] == 0x45;
    proof {
        let token = bytes@.subrange(start as int, end as int);
        if yes {
            assert(token =~= keyword_size());
        } else if token.len() == 4 {
            assert(token[0] != keyword_size()[0] || token[1] != keyword_size()[1] || token[2]
                != keyword_size()[2] || token[3] != keyword_size()[3]);
        }
    }
    yes
}

/// Decodes the reply to a pixel query, `PX <x> <y> <rrggbb>`, into the
/// position and the colour that it reports. Any other line is rejected with
/// the first fault found; no input makes this function panic.
pub fn parse_pixel_from_ascii(buffer: &str) -> (reply: Result<(Vec2, Color), ProtocolError>)
    ensures
        reply == decode_pixel(wire_bytes(buffer@)),
{
    let bytes = buffer.as_bytes();
    let spans = tokenize(bytes);
    if spans.len() != 4 {
        return Err(ProtocolError::TokenCount);
    }
    let ghost words = tokens(bytes@);
    assert(words[0] == bytes@.subrange(spans@[0].0 as int, spans@[0].1 as int));
    assert(words[1] == bytes@.subrange(spans@[1].0 as int, spans@[1].1 as int));
    assert(words[2] == bytes@.subrange(spans@[2].0 as int, spans@[2].1 as int));
    assert(words[3] == bytes@.subrange(spans@[3].0 as int, spans@[3].1 as int));
    if !is_px(bytes, spans[0].0, spans[0].1) {
        return Err(ProtocolError::Keyword);
    }
    match parse_vec2(bytes, spans[1], spans[2]) {
        None => Err(ProtocolError::Number),
        Some(position) => match parse_rgb(bytes, spans[3].0, spans[3].1) {
            None => Err(ProtocolError::Color),
            Some(color) => Ok((position, color)),
        },
    }
}

/// Decodes the reply to a pixel query into the colour that it reports.
pub fn parse_color_from_ascii(buffer: &str) -> (reply: Result<Color, ProtocolError>)
    ensures
        reply == decode_color(wire_bytes(buffer@)),
{
    match parse_pixel_from_ascii(buffer) {
        Ok((_, color)) => Ok(color),
        Err(error) => Err(error),
    }
}

/// Decodes the reply to a size query, `SIZE <width> <height>`. Any other
/// line is rejected with the first fault found; no input makes this function
/// panic.
pub fn parse_size_from_ascii(buffer: &str) -> (reply: Result<Vec2, ProtocolError>)
    ensures
        reply == decode_size(wire_bytes(buffer@)),
{
    let bytes = buffer.as_bytes();
    let spans = tokenize(bytes);
    if spans.len() != 3 {
        return Err(ProtocolError::TokenCount);
    }
    let ghost words = tokens(bytes@);
    assert(words[0] == bytes@.subrange(spans@[0].0 as int, spans@[0].1 as int));
    assert(words[1] == bytes@.subrange(spans@[1].0 as int, spans@[1].1 as int));
    assert(words[2] == bytes@.subrange(spans@[2].0 as int, spans@[2].1 as int));
    if !is_size(bytes, spans[0].0, spans[0].1) {
        return Err(ProtocolError::Keyword);
    }
    match parse_vec2(bytes, spans[1], spans[2]) {
        None => Err(ProtocolError::Number),
        Some(size) => Ok(size),
    }
}

} // verus!
