//! The wire format as mathematics: which bytes a command is, and which value
//! a reply line stands for.
//!
//! The protocol is ASCII: one command per line, tokens separated by
//! whitespace, numbers in decimal, colours as six hexadecimal digits.

use crate::protocol::{Color, ProtocolError, Vec2};
use vstd::prelude::*;

verus! {

/// The ASCII digit for `d`, where `d` is below ten.
pub open spec fn digit(d: nat) -> u8 {
    (0x30 + d) as u8
}

/// The lowercase hexadecimal digit for `d`, where `d` is below sixteen.
pub open spec fn hex_digit(d: nat) -> u8 {
    if d < 10 {
        (0x30 + d) as u8
    } else {
        (0x61 + d - 10) as u8
    }
}

/// `n` in decimal, without sign and without leading zeros.
pub open spec fn decimal(n: nat) -> Seq<u8>
    decreases n,
{
    if n < 10 {
        seq![digit(n)]
    } else {
        decimal(n / 10).push(digit(n % 10))
    }
}

/// One channel as two lowercase hexadecimal digits.
pub open spec fn hex_pair(channel: u8) -> Seq<u8> {
    seq![hex_digit(channel as nat / 16), hex_digit(channel as nat % 16)]
}

/// A colour as `rrggbb`.
pub open spec fn hex_color(color: Color) -> Seq<u8> {
    hex_pair(color.r) + hex_pair(color.g) + hex_pair(color.b)
}

/// The keyword of the pixel commands and of the pixel reply: `PX`.
pub open spec fn keyword_px() -> Seq<u8> {
    seq![0x50u8, 0x58u8]
}

/// The keyword of the size query and of its reply: `SIZE`.
pub open spec fn keyword_size() -> Seq<u8> {
    seq![0x53u8, 0x49u8, 0x5au8, 0x45u8]
}

/// The keyword of the server-side offset command: `OFFSET`.
pub open spec fn keyword_offset() -> Seq<u8> {
    seq![0x4fu8, 0x46u8, 0x46u8, 0x53u8, 0x45u8, 0x54u8]
}

/// The separator between tokens, a single space.
pub open spec fn space() -> Seq<u8> {
    seq![0x20u8]
}

/// The end of a line.
pub open spec fn newline() -> Seq<u8> {
    seq![0x0au8]
}

/// `PX <x> <y> <rrggbb>\n`: sets a pixel when sent, and is the reply to a
/// pixel query when received.
pub open spec fn set_pixel_line(position: Vec2, color: Color) -> Seq<u8> {
    keyword_px() + space() + decimal(position.x as nat) + space() + decimal(position.y as nat)
        + space() + hex_color(color) + newline()
}

/// `PX <x> <y>\n`: asks for the colour of a pixel.
pub open spec fn get_pixel_line(position: Vec2) -> Seq<u8> {
    keyword_px() + space() + decimal(position.x as nat) + space() + decimal(position.y as nat)
        + newline()
}

/// `SIZE\n`: asks for the dimensions of the canvas.
pub open spec fn get_size_line() -> Seq<u8> {
    keyword_size() + newline()
}

/// `SIZE <width> <height>\n`: the reply to a size query.
pub open spec fn size_line(size: Vec2) -> Seq<u8> {
    keyword_size() + space() + decimal(size.x as nat) + space() + decimal(size.y as nat)
        + newline()
}

/// `OFFSET <x> <y>\n`: asks the server to translate what this connection
/// draws from now on.
pub open spec fn set_offset_line(offset: Vec2) -> Seq<u8> {
    keyword_offset() + space() + decimal(offset.x as nat) + space() + decimal(offset.y as nat)
        + newline()
}

/// Whether the byte separates tokens: space, tab, line feed, vertical tab,
/// form feed or carriage return.
pub open spec fn is_space(byte: u8) -> bool {
    byte == 0x20 || (0x09 <= byte && byte <= 0x0d)
}

/// The tokens of `line`, read after the bytes of `word` have already been
/// collected for the token in progress.
pub open spec fn split(line: Seq<u8>, word: Seq<u8>) -> Seq<Seq<u8>>
    decreases line.len(),
{
    if line.len() == 0 {
        finished(word)
    } else if is_space(line[0]) {
        finished(word) + split(line.drop_first(), Seq::empty())
    } else {
        split(line.drop_first(), word.push(line[0]))
    }
}

/// What a token in progress contributes once it ends: itself, unless it is
/// empty.
pub open spec fn finished(word: Seq<u8>) -> Seq<Seq<u8>> {
    if word.len() == 0 {
        Seq::empty()
    } else {
        seq![word]
    }
}

/// The maximal runs of bytes of `line` that are not whitespace, in order.
pub open spec fn tokens(line: Seq<u8>) -> Seq<Seq<u8>> {
    split(line, Seq::empty())
}

/// Whether the byte is an ASCII decimal digit.
pub open spec fn is_digit(byte: u8) -> bool {
    0x30 <= byte && byte <= 0x39
}

/// Whether every byte is an ASCII decimal digit.
pub open spec fn all_digits(digits: Seq<u8>) -> bool {
    forall|i: int| 0 <= i < digits.len() ==> is_digit(#[trigger] digits[i])
}

/// The number that a run of decimal digits denotes.
pub open spec fn digits_value(digits: Seq<u8>) -> nat
    decreases digits.len(),
{
    if digits.len() == 0 {
        0
    } else {
        digits_value(digits.drop_last()) * 10 + (digits.last() - 0x30) as nat
    }
}

/// The token without the plus sign that may stand in front of a number.
pub open spec fn unsigned_part(token: Seq<u8>) -> Seq<u8> {
    if token.len() > 0 && token[0] == 0x2b {
        token.drop_first()
    } else {
        token
    }
}

/// The number that a token denotes: an optional `+`, then at least one
/// decimal digit, with a value that fits 32 bits. Leading zeros are allowed.
pub open spec fn parse_number(token: Seq<u8>) -> Option<u32> {
    let digits = unsigned_part(token);
    if digits.len() > 0 && all_digits(digits) && digits_value(digits) <= u32::MAX {
        Some(digits_value(digits) as u32)
    } else {
        None
    }
}

/// The value of a hexadecimal digit of either case.
pub open spec fn hex_value(byte: u8) -> Option<nat> {
    if 0x30 <= byte && byte <= 0x39 {
        Some((byte - 0x30) as nat)
    } else if 0x61 <= byte && byte <= 0x66 {
        Some((byte - 0x61 + 10) as nat)
    } else if 0x41 <= byte && byte <= 0x46 {
        Some((byte - 0x41 + 10) as nat)
    } else {
        None
    }
}

/// The channel that two hexadecimal digits denote.
pub open spec fn parse_channel(high: u8, low: u8) -> Option<u8> {
    match (hex_value(high), hex_value(low)) {
        (Some(h), Some(l)) => Some((16 * h + l) as u8),
        _ => None,
    }
}

/// The colour that a token denotes: exactly six hexadecimal digits.
pub open spec fn parse_color(token: Seq<u8>) -> Option<Color> {
    if token.len() != 6 {
        None
    } else {
        match (
            parse_channel(token[0], token[1]),
            parse_channel(token[2], token[3]),
            parse_channel(token[4], token[5]),
        ) {
            (Some(r), Some(g), Some(b)) => Some(Color { r, g, b }),
            _ => None,
        }
    }
}

/// The position that two tokens denote.
pub open spec fn parse_position(first: Seq<u8>, second: Seq<u8>) -> Option<Vec2> {
    match (parse_number(first), parse_number(second)) {
        (Some(x), Some(y)) => Some(Vec2 { x, y }),
        _ => None,
    }
}

/// What a pixel reply stands for. The line must hold exactly the four tokens
/// `PX`, x, y and rrggbb; the first fault found, in that order, is the error.
pub open spec fn decode_pixel(line: Seq<u8>) -> Result<(Vec2, Color), ProtocolError> {
    let words = tokens(line);
    if words.len() != 4 {
        Err(ProtocolError::TokenCount)
    } else if words[0] != keyword_px() {
        Err(ProtocolError::Keyword)
    } else {
        match parse_position(words[1], words[2]) {
            None => Err(ProtocolError::Number),
            Some(position) => match parse_color(words[3]) {
                None => Err(ProtocolError::Color),
                Some(color) => Ok((position, color)),
            },
        }
    }
}

/// The colour that a pixel reply reports.
pub open spec fn decode_color(line: Seq<u8>) -> Result<Color, ProtocolError> {
    match decode_pixel(line) {
        Ok((_, color)) => Ok(color),
        Err(error) => Err(error),
    }
}

/// What a size reply stands for. The line must hold exactly the three tokens
/// `SIZE`, width and height; the first fault found, in that order, is the
/// error.
pub open spec fn decode_size(line: Seq<u8>) -> Result<Vec2, ProtocolError> {
    let words = tokens(line);
    if words.len() != 3 {
        Err(ProtocolError::TokenCount)
    } else if words[0] != keyword_size() {
        Err(ProtocolError::Keyword)
    } else {
        match parse_position(words[1], words[2]) {
            None => Err(ProtocolError::Number),
            Some(size) => Ok(size),
        }
    }
}

/// Whether every byte is a 7-bit ASCII code.
pub open spec fn is_ascii_bytes(bytes: Seq<u8>) -> bool {
    forall|i: int| 0 <= i < bytes.len() ==> #[trigger] bytes[i] < 0x80
}

/// A number in decimal is a non-empty run of digits.
pub proof fn lemma_decimal_is_digits(n: nat)
    ensures
        decimal(n).len() >= 1,
        all_digits(decimal(n)),
    decreases n,
{
    if n >= 10 {
        lemma_decimal_is_digits(n / 10);
    }
}

/// Reading more digits never makes the number smaller.
pub proof fn lemma_digits_value_grows(digits: Seq<u8>, k: int)
    requires
        all_digits(digits),
        0 <= k <= digits.len(),
    ensures
        digits_value(digits.take(k)) <= digits_value(digits),
    decreases digits.len(),
{
    if k == digits.len() {
        assert(digits.take(k) =~= digits);
    } else {
        let shorter = digits.drop_last();
        assert(shorter.take(k) =~= digits.take(k));
        assert(is_digit(digits.last()));
        lemma_digits_value_grows(shorter, k);
    }
}

/// The lines that carry a keyword and a position hold 7-bit bytes only.
pub proof fn lemma_position_lines_are_ascii(position: Vec2)
    ensures
        is_ascii_bytes(get_pixel_line(position)),
        is_ascii_bytes(size_line(position)),
        is_ascii_bytes(set_offset_line(position)),
{
    lemma_decimal_is_digits(position.x as nat);
    lemma_decimal_is_digits(position.y as nat);
}

/// The line that sets a pixel holds 7-bit bytes only.
pub proof fn lemma_set_pixel_line_is_ascii(position: Vec2, color: Color)
    ensures
        is_ascii_bytes(set_pixel_line(position, color)),
{
    lemma_decimal_is_digits(position.x as nat);
    lemma_decimal_is_digits(position.y as nat);
}

/// Whether no byte of the run separates tokens.
pub open spec fn no_space(bytes: Seq<u8>) -> bool {
    forall|i: int| 0 <= i < bytes.len() ==> !is_space(#[trigger] bytes[i])
}

/// Bytes that are not whitespace all join the token in progress.
pub proof fn lemma_split_word(word: Seq<u8>, rest: Seq<u8>, begun: Seq<u8>)
    requires
        no_space(word),
    ensures
        split(word + rest, begun) == split(rest, begun + word),
    decreases word.len(),
{
    if word.len() == 0 {
        assert(word + rest =~= rest);
        assert(begun + word =~= begun);
    } else {
        let tail = word.drop_first();
        assert(!is_space(word[0]));
        assert((word + rest).drop_first() =~= tail + rest);
        assert forall|i: int| 0 <= i < tail.len() implies !is_space(#[trigger] tail[i]) by {
            assert(tail[i] == word[i + 1]);
        }
        lemma_split_word(tail, rest, begun.push(word[0]));
        assert(begun.push(word[0]) + tail =~= begun + word);
    }
}

/// A token that is followed by whitespace is the first token of the line, and
/// the tokens of what follows come after it.
pub proof fn lemma_split_token(word: Seq<u8>, separator: u8, rest: Seq<u8>)
    requires
        word.len() > 0,
        no_space(word),
        is_space(separator),
    ensures
        tokens(word + seq![separator] + rest) == seq![word] + tokens(rest),
{
    let tail = seq![separator] + rest;
    assert(word + seq![separator] + rest =~= word + tail);
    lemma_split_word(word, tail, Seq::empty());
    assert(Seq::<u8>::empty() + word =~= word);
    assert(tail.drop_first() =~= rest);
}

/// The line end closes the last token, and nothing follows it.
pub proof fn lemma_tokens_of_line_end()
    ensures
        tokens(newline()) == Seq::<Seq<u8>>::empty(),
{
    assert(newline().drop_first() =~= Seq::<u8>::empty());
    assert(split(newline().drop_first(), Seq::empty()) == finished(Seq::empty()));
    assert(finished(Seq::<u8>::empty()) + finished(Seq::<u8>::empty()) =~= Seq::<Seq<u8>>::empty());
}

/// A run of digits written for `n` denotes `n`.
pub proof fn lemma_digits_value_of_decimal(n: nat)
    ensures
        digits_value(decimal(n)) == n,
    decreases n,
{
    if n < 10 {
        assert(decimal(n).drop_last() =~= Seq::<u8>::empty());
        assert(digits_value(decimal(n).drop_last()) == 0);
    } else {
        lemma_digits_value_of_decimal(n / 10);
        assert(decimal(n).drop_last() =~= decimal(n / 10));
    }
}

/// A number that fits 32 bits, written in decimal, is read back as itself.
pub proof fn lemma_parse_decimal(n: u32)
    ensures
        parse_number(decimal(n as nat)) == Some(n),
        decimal(n as nat).len() > 0,
        no_space(decimal(n as nat)),
{
    lemma_decimal_is_digits(n as nat);
    lemma_digits_value_of_decimal(n as nat);
    let digits = decimal(n as nat);
    assert(is_digit(digits[0]));
    assert(unsigned_part(digits) == digits);
}

/// A channel written as two hexadecimal digits is read back as itself.
pub proof fn lemma_parse_hex_pair(channel: u8)
    ensures
        parse_channel(hex_pair(channel)[0], hex_pair(channel)[1]) == Some(channel),
        !is_space(hex_pair(channel)[0]),
        !is_space(hex_pair(channel)[1]),
{
}

/// A colour written as `rrggbb` is read back as itself.
pub proof fn lemma_parse_hex_color(color: Color)
    ensures
        parse_color(hex_color(color)) == Some(color),
        hex_color(color).len() == 6,
        no_space(hex_color(color)),
{
    lemma_parse_hex_pair(color.r);
    lemma_parse_hex_pair(color.g);
    lemma_parse_hex_pair(color.b);
    let token = hex_color(color);
    assert(token[0] == hex_pair(color.r)[0] && token[1] == hex_pair(color.r)[1]);
    assert(token[2] == hex_pair(color.g)[0] && token[3] == hex_pair(color.g)[1]);
    assert(token[4] == hex_pair(color.b)[0] && token[5] == hex_pair(color.b)[1]);
}

/// The tokens of the line that sets a pixel are the keyword, the two
/// coordinates and the colour.
pub proof fn lemma_tokens_of_set_pixel_line(position: Vec2, color: Color)
    ensures
        tokens(set_pixel_line(position, color)) == seq![
            keyword_px(),
            decimal(position.x as nat),
            decimal(position.y as nat),
            hex_color(color),
        ],
{
    let x = decimal(position.x as nat);
    let y = decimal(position.y as nat);
    let c = hex_color(color);
    lemma_parse_decimal(position.x);
    lemma_parse_decimal(position.y);
    lemma_parse_hex_color(color);
    lemma_tokens_of_line_end();
    let after_c = Seq::<u8>::empty();
    let after_y = c + newline() + after_c;
    let after_x = y + space() + after_y;
    let after_px = x + space() + after_x;
    assert(set_pixel_line(position, color) =~= keyword_px() + space() + after_px);
    lemma_split_token(c, 0x0a, after_c);
    assert(tokens(after_c) =~= Seq::<Seq<u8>>::empty());
    lemma_split_token(y, 0x20, after_y);
    lemma_split_token(x, 0x20, after_x);
    lemma_split_token(keyword_px(), 0x20, after_px);
    assert(tokens(set_pixel_line(position, color)) =~= seq![keyword_px(), x, y, c]);
}

/// The tokens of a size reply are the keyword and the two dimensions.
pub proof fn lemma_tokens_of_size_line(size: Vec2)
    ensures
        tokens(size_line(size)) == seq![
            keyword_size(),
            decimal(size.x as nat),
            decimal(size.y as nat),
        ],
{
    let x = decimal(size.x as nat);
    let y = decimal(size.y as nat);
    lemma_parse_decimal(size.x);
    lemma_parse_decimal(size.y);
    let after_y = Seq::<u8>::empty();
    let after_x = y + newline() + after_y;
    let after_size = x + space() + after_x;
    assert(size_line(size) =~= keyword_size() + space() + after_size);
    lemma_split_token(y, 0x0a, after_y);
    assert(tokens(after_y) =~= Seq::<Seq<u8>>::empty());
    lemma_split_token(x, 0x20, after_x);
    lemma_split_token(keyword_size(), 0x20, after_size);
    assert(tokens(size_line(size)) =~= seq![keyword_size(), x, y]);
}

/// Round trip of a pixel: the line written for a position and a colour, read
/// as the reply to a pixel query, gives back that position and that colour.
pub proof fn lemma_pixel_round_trip(position: Vec2, color: Color)
    ensures
        decode_pixel(set_pixel_line(position, color)) == Ok::<(Vec2, Color), ProtocolError>(
            (position, color),
        ),
        decode_color(set_pixel_line(position, color)) == Ok::<Color, ProtocolError>(color),
{
    lemma_tokens_of_set_pixel_line(position, color);
    lemma_parse_decimal(position.x);
    lemma_parse_decimal(position.y);
    lemma_parse_hex_color(color);
}

/// Round trip of a size: the reply line written for a size is read back as
/// that size.
pub proof fn lemma_size_round_trip(size: Vec2)
    ensures
        decode_size(size_line(size)) == Ok::<Vec2, ProtocolError>(size),
{
    lemma_tokens_of_size_line(size);
    lemma_parse_decimal(size.x);
    lemma_parse_decimal(size.y);
}

/// A token that holds a byte other than a decimal digit, apart from a plus
/// sign in front, is not a number.
pub proof fn lemma_not_a_number(token: Seq<u8>, at: int)
    requires
        0 <= at < token.len(),
        !is_digit(token[at]),
        at > 0 || token[0] != 0x2b,
    ensures
        parse_number(token) is None,
{
    let digits = unsigned_part(token);
    if token[0] == 0x2b {
        assert(digits[at - 1] == token[at]);
    } else {
        assert(digits[at] == token[at]);
    }
}

/// A token that holds a byte other than a hexadecimal digit is not a colour.
pub proof fn lemma_not_a_color(token: Seq<u8>, at: int)
    requires
        0 <= at < token.len(),
        hex_value(token[at]) is None,
    ensures
        parse_color(token) is None,
{
}

/// Malformed pixel replies are rejected: a line that does not hold four
/// tokens, one whose coordinates are not numbers, and one whose colour is not
/// six hexadecimal digits each decode to an error.
pub proof fn lemma_malformed_pixel_reply(line: Seq<u8>)
    ensures
        tokens(line).len() != 4 ==> decode_pixel(line) == Err::<(Vec2, Color), ProtocolError>(
            ProtocolError::TokenCount,
        ),
        tokens(line).len() == 4 && (parse_number(tokens(line)[1]) is None || parse_number(
            tokens(line)[2],
        ) is None) ==> decode_pixel(line) is Err,
        tokens(line).len() == 4 && parse_color(tokens(line)[3]) is None ==> decode_pixel(line)
            is Err,
        decode_pixel(line) is Err ==> decode_color(line) is Err,
{
}

/// Malformed size replies are rejected: a line that does not hold three
/// tokens and one whose dimensions are not numbers each decode to an error.
pub proof fn lemma_malformed_size_reply(line: Seq<u8>)
    ensures
        tokens(line).len() != 3 ==> decode_size(line) == Err::<Vec2, ProtocolError>(
            ProtocolError::TokenCount,
        ),
        tokens(line).len() == 3 && (parse_number(tokens(line)[1]) is None || parse_number(
            tokens(line)[2],
        ) is None) ==> decode_size(line) is Err,
{
}

} // verus!
