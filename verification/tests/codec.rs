use pixelflut::codec::{
    encode_get_pixel, encode_get_size, encode_set_offset, parse_color_from_ascii,
    parse_pixel_from_ascii, parse_size_from_ascii, to_ascii_command,
};
use pixelflut::protocol::{Color, ProtocolError, Vec2};

#[test]
fn set_pixel_line_of_the_example() {
    let line = to_ascii_command(Vec2 { x: 10, y: 20 }, &Color { r: 255, g: 0, b: 128 });
    assert_eq!(line, "PX 10 20 ff0080\n");
}

#[test]
fn set_pixel_line_pads_channels_to_two_digits() {
    let line = to_ascii_command(Vec2 { x: 0, y: 0 }, &Color { r: 0, g: 1, b: 10 });
    assert_eq!(line, "PX 0 0 00010a\n");
}

#[test]
fn set_pixel_line_at_the_far_corner() {
    let line =
        to_ascii_command(Vec2 { x: u32::MAX, y: u32::MAX }, &Color { r: 255, g: 255, b: 255 });
    assert_eq!(line, "PX 4294967295 4294967295 ffffff\n");
}

#[test]
fn set_pixel_line_writes_every_decimal_digit() {
    let line = to_ascii_command(Vec2 { x: 1234567890, y: 9 }, &Color { r: 0xab, g: 0xcd, b: 0xef });
    assert_eq!(line, "PX 1234567890 9 abcdef\n");
}

#[test]
fn set_pixel_line_is_what_format_writes() {
    for (x, y, r, g, b) in [(0u32, 0u32, 0u8, 0u8, 0u8), (7, 100, 9, 16, 255), (99, 1000, 15, 160, 1)]
    {
        let expected = format!("PX {} {} {:02x}{:02x}{:02x}\n", x, y, r, g, b);
        assert_eq!(to_ascii_command(Vec2 { x, y }, &Color { r, g, b }), expected);
    }
}

#[test]
fn get_pixel_line() {
    assert_eq!(encode_get_pixel(Vec2 { x: 3, y: 40 }), "PX 3 40\n");
}

#[test]
fn get_size_line() {
    assert_eq!(encode_get_size(), "SIZE\n");
}

#[test]
fn set_offset_line() {
    assert_eq!(encode_set_offset(Vec2 { x: 100, y: 0 }), "OFFSET 100 0\n");
}

#[test]
fn size_reply_of_the_example() {
    assert_eq!(parse_size_from_ascii("SIZE 800 600\n"), Ok(Vec2 { x: 800, y: 600 }));
}

#[test]
fn size_reply_with_a_missing_number_is_rejected() {
    assert_eq!(parse_size_from_ascii("SIZE abc\n"), Err(ProtocolError::TokenCount));
}

#[test]
fn size_reply_without_line_end() {
    assert_eq!(parse_size_from_ascii("SIZE 1 2"), Ok(Vec2 { x: 1, y: 2 }));
}

#[test]
fn size_reply_with_other_whitespace() {
    assert_eq!(parse_size_from_ascii("  SIZE\t1920 \x0b\x0c 1080\r\n"), Ok(Vec2 { x: 1920, y: 1080 }));
}

#[test]
fn size_reply_with_wrong_token_count() {
    assert_eq!(parse_size_from_ascii(""), Err(ProtocolError::TokenCount));
    assert_eq!(parse_size_from_ascii("\n"), Err(ProtocolError::TokenCount));
    assert_eq!(parse_size_from_ascii("SIZE\n"), Err(ProtocolError::TokenCount));
    assert_eq!(parse_size_from_ascii("SIZE 800\n"), Err(ProtocolError::TokenCount));
    assert_eq!(parse_size_from_ascii("SIZE 800 600 32\n"), Err(ProtocolError::TokenCount));
}

#[test]
fn size_reply_with_wrong_keyword() {
    assert_eq!(parse_size_from_ascii("PX 800 600\n"), Err(ProtocolError::Keyword));
    assert_eq!(parse_size_from_ascii("size 800 600\n"), Err(ProtocolError::Keyword));
    assert_eq!(parse_size_from_ascii("SIZES 800 600\n"), Err(ProtocolError::Keyword));
    assert_eq!(parse_size_from_ascii("SIZ 800 600\n"), Err(ProtocolError::Keyword));
}

#[test]
fn size_reply_with_bad_numbers() {
    assert_eq!(parse_size_from_ascii("SIZE abc 600\n"), Err(ProtocolError::Number));
    assert_eq!(parse_size_from_ascii("SIZE 800 6x0\n"), Err(ProtocolError::Number));
    assert_eq!(parse_size_from_ascii("SIZE -1 600\n"), Err(ProtocolError::Number));
    assert_eq!(parse_size_from_ascii("SIZE 8.0 600\n"), Err(ProtocolError::Number));
    assert_eq!(parse_size_from_ascii("SIZE + 600\n"), Err(ProtocolError::Number));
    assert_eq!(parse_size_from_ascii("SIZE ++1 600\n"), Err(ProtocolError::Number));
    assert_eq!(parse_size_from_ascii("SIZE 0x10 600\n"), Err(ProtocolError::Number));
}

#[test]
fn numbers_are_read_as_u32_from_str_reads_them() {
    for token in ["0", "7", "007", "+5", "+0", "4294967295", "4294967296", "99999999999999999999999",
        "", "+", "-0", "1_000", "12a", "٣"]
    {
        let line = format!("SIZE {} 1\n", token);
        let expected = match token.parse::<u32>() {
            Ok(x) => Ok(Vec2 { x, y: 1 }),
            Err(_) if token.is_empty() => Err(ProtocolError::TokenCount),
            Err(_) => Err(ProtocolError::Number),
        };
        assert_eq!(parse_size_from_ascii(&line), expected, "token {:?}", token);
    }
}

#[test]
fn size_reply_at_the_limit_of_32_bits() {
    assert_eq!(
        parse_size_from_ascii("SIZE 4294967295 0\n"),
        Ok(Vec2 { x: 4294967295, y: 0 })
    );
    assert_eq!(parse_size_from_ascii("SIZE 4294967296 0\n"), Err(ProtocolError::Number));
    assert_eq!(
        parse_size_from_ascii("SIZE 0 18446744073709551616\n"),
        Err(ProtocolError::Number)
    );
}

#[test]
fn pixel_reply_gives_position_and_colour() {
    assert_eq!(
        parse_pixel_from_ascii("PX 10 20 ff0080\n"),
        Ok((Vec2 { x: 10, y: 20 }, Color { r: 255, g: 0, b: 128 }))
    );
    assert_eq!(parse_color_from_ascii("PX 10 20 ff0080\n"), Ok(Color { r: 255, g: 0, b: 128 }));
}

#[test]
fn pixel_reply_takes_hex_digits_of_either_case() {
    assert_eq!(parse_color_from_ascii("PX 0 0 ABCDEF\n"), Ok(Color { r: 0xab, g: 0xcd, b: 0xef }));
    assert_eq!(parse_color_from_ascii("PX 0 0 aBcDeF\n"), Ok(Color { r: 0xab, g: 0xcd, b: 0xef }));
    assert_eq!(parse_color_from_ascii("PX 0 0 09af19\n"), Ok(Color { r: 0x09, g: 0xaf, b: 0x19 }));
}

#[test]
fn pixel_reply_with_wrong_token_count() {
    assert_eq!(parse_color_from_ascii(""), Err(ProtocolError::TokenCount));
    assert_eq!(parse_color_from_ascii("PX 1 2\n"), Err(ProtocolError::TokenCount));
    assert_eq!(parse_color_from_ascii("PX 1 2 ff 00 80\n"), Err(ProtocolError::TokenCount));
    assert_eq!(parse_color_from_ascii("PX 1 2 ff0080 ff\n"), Err(ProtocolError::TokenCount));
}

#[test]
fn pixel_reply_with_wrong_keyword() {
    assert_eq!(parse_color_from_ascii("SIZE 1 2 ff0080\n"), Err(ProtocolError::Keyword));
    assert_eq!(parse_color_from_ascii("px 1 2 ff0080\n"), Err(ProtocolError::Keyword));
    assert_eq!(parse_color_from_ascii("PXX 1 2 ff0080\n"), Err(ProtocolError::Keyword));
}

#[test]
fn pixel_reply_with_bad_coordinates() {
    assert_eq!(parse_color_from_ascii("PX x 2 ff0080\n"), Err(ProtocolError::Number));
    assert_eq!(parse_color_from_ascii("PX 1 y ff0080\n"), Err(ProtocolError::Number));
    assert_eq!(parse_color_from_ascii("PX 1 4294967296 ff0080\n"), Err(ProtocolError::Number));
}

#[test]
fn pixel_reply_with_bad_colour() {
    assert_eq!(parse_color_from_ascii("PX 1 2 gg0080\n"), Err(ProtocolError::Color));
    assert_eq!(parse_color_from_ascii("PX 1 2 ff008\n"), Err(ProtocolError::Color));
    assert_eq!(parse_color_from_ascii("PX 1 2 ff00800\n"), Err(ProtocolError::Color));
    assert_eq!(parse_color_from_ascii("PX 1 2 ff0080ff\n"), Err(ProtocolError::Color));
    assert_eq!(parse_color_from_ascii("PX 1 2 +f0080f\n"), Err(ProtocolError::Color));
    assert_eq!(parse_color_from_ascii("PX 1 2 ff00`0\n"), Err(ProtocolError::Color));
}

#[test]
fn the_first_fault_is_reported() {
    assert_eq!(parse_color_from_ascii("XX y\n"), Err(ProtocolError::TokenCount));
    assert_eq!(parse_color_from_ascii("XX y 2 zz\n"), Err(ProtocolError::Keyword));
    assert_eq!(parse_color_from_ascii("PX y 2 zz\n"), Err(ProtocolError::Number));
    assert_eq!(parse_color_from_ascii("PX 1 2 zz\n"), Err(ProtocolError::Color));
}

#[test]
fn text_that_is_not_ascii_is_rejected_and_nothing_panics() {
    assert_eq!(parse_size_from_ascii("SIZE 8\u{a0}0 600\n"), Err(ProtocolError::Number));
    assert_eq!(parse_size_from_ascii("SIZE\u{2003}800 600\n"), Err(ProtocolError::TokenCount));
    assert_eq!(parse_color_from_ascii("PX 1 2 ffööff\n"), Err(ProtocolError::Color));
    assert_eq!(parse_color_from_ascii("PX 1 2 fföf\n"), Err(ProtocolError::Color));
    assert_eq!(parse_color_from_ascii("ＰＸ 1 2 ff0080\n"), Err(ProtocolError::Keyword));
    assert_eq!(parse_color_from_ascii("\u{0}\u{0}\u{0}"), Err(ProtocolError::TokenCount));
}

#[test]
fn round_trip_of_pixels() {
    let positions = [0u32, 1, 9, 10, 11, 99, 100, 255, 256, 65535, 1_000_000, u32::MAX - 1, u32::MAX];
    let channels = [0u8, 1, 9, 10, 15, 16, 17, 127, 128, 200, 254, 255];
    for (i, &x) in positions.iter().enumerate() {
        let y = positions[positions.len() - 1 - i];
        for (j, &r) in channels.iter().enumerate() {
            let g = channels[(j + 5) % channels.len()];
            let b = channels[(j + 7) % channels.len()];
            let position = Vec2 { x, y };
            let color = Color { r, g, b };
            let line = to_ascii_command(position, &color);
            assert_eq!(parse_pixel_from_ascii(&line), Ok((position, color)));
            assert_eq!(parse_color_from_ascii(&line), Ok(color));
        }
    }
}

#[test]
fn round_trip_of_every_channel_value() {
    for value in 0..=255u8 {
        let color = Color { r: value, g: 255 - value, b: value ^ 0x5a };
        let line = to_ascii_command(Vec2 { x: value as u32, y: 0 }, &color);
        assert_eq!(parse_color_from_ascii(&line), Ok(color));
    }
}
