//! The protocol state of one connection: a local offset, the lines that the
//! four operations send, and the values that their replies stand for.
//!
//! An endpoint owns no socket. Whoever owns the connection writes the lines
//! that the endpoint hands out and gives back the lines that it read.

use crate::codec::{
    ascii_text, encode_get_pixel, encode_get_size, parse_color_from_ascii, parse_size_from_ascii,
    to_ascii_command, wire_bytes,
};
use crate::protocol::{Color, Error, Vec2};
use crate::wire::{decode_color, decode_size, get_pixel_line, get_size_line, set_pixel_line};
use vstd::prelude::*;

verus! {

/// One connection's side of the protocol.
#[derive(Debug)]
pub struct Endpoint {
    offset: Vec2,
}

impl Endpoint {
    /// The translation that is added to every position that is painted.
    pub closed spec fn offset(self) -> Vec2 {
        self.offset
    }

    /// The endpoint as it is after its offset was replaced by `offset`.
    pub closed spec fn with_offset(self, offset: Vec2) -> Endpoint {
        Endpoint { offset }
    }

    /// The line that this endpoint sends to paint `position` in `color`.
    pub open spec fn painted(self, position: Vec2, color: Color) -> Seq<u8> {
        set_pixel_line(position.plus(self.offset()), color)
    }

    /// An endpoint for a fresh connection: nothing is translated yet.
    pub fn new() -> (endpoint: Endpoint)
        ensures
            endpoint.offset() == (Vec2 { x: 0, y: 0 }),
    {
        Endpoint { offset: Vec2 { x: 0, y: 0 } }
    }

    /// The offset in force.
    pub fn current_offset(&self) -> (offset: Vec2)
        ensures
            offset == self.offset(),
    {
        self.offset
    }

    /// Replaces the offset. Nothing is sent: the offset lives on this side of
    /// the connection only, and this cannot fail.
    pub fn set_offset(&mut self, offset: Vec2)
        ensures
            *final(self) == old(self).with_offset(offset),
            final(self).offset() == offset,
    {
        self.offset = offset;
    }

    /// The line to write for painting `position`, translated by the offset,
    /// in `color`. No reply follows it, so it need not be flushed at once.
    pub fn set_pixel(&self, position: Vec2, color: &Color) -> (line: String)
        requires
            position.can_add(self.offset()),
        ensures
            wire_bytes(line@) == self.painted(position, *color),
            line@ == ascii_text(self.painted(position, *color)),
    {
        to_ascii_command(position + self.offset, color)
    }

    /// The line to write for asking the colour at `position`, which is taken
    /// as it stands: the offset applies to what is painted, not to queries.
    /// It has to be flushed before the reply is read.
    pub fn get_pixel(&self, position: Vec2) -> (line: String)
        ensures
            wire_bytes(line@) == get_pixel_line(position),
            line@ == ascii_text(get_pixel_line(position)),
    {
        encode_get_pixel(position)
    }

    /// The line to write for asking the size of the canvas. It has to be
    /// flushed before the reply is read.
    pub fn get_size(&self) -> (line: String)
        ensures
            wire_bytes(line@) == get_size_line(),
            line@ == ascii_text(get_size_line()),
    {
        encode_get_size()
    }

    /// The colour that the reply to a pixel query reports, or the protocol
    /// error that the line amounts to.
    pub fn pixel_reply(&self, line: &str) -> (reply: Result<Color, Error>)
        ensures
            reply == reply_of(decode_color(wire_bytes(line@))),
    {
        match parse_color_from_ascii(line) {
            Ok(color) => Ok(color),
            Err(error) => Err(Error::Protocol(error)),
        }
    }

    /// The size that the reply to a size query reports, or the protocol
    /// error that the line amounts to.
    pub fn size_reply(&self, line: &str) -> (reply: Result<Vec2, Error>)
        ensures
            reply == reply_of(decode_size(wire_bytes(line@))),
    {
        match parse_size_from_ascii(line) {
            Ok(size) => Ok(size),
            Err(error) => Err(Error::Protocol(error)),
        }
    }
}

/// A decoded reply as the outcome of an operation: a malformed line is a
/// protocol error.
pub open spec fn reply_of<T>(decoded: Result<T, crate::protocol::ProtocolError>) -> Result<
    T,
    Error,
> {
    match decoded {
        Ok(value) => Ok(value),
        Err(error) => Err(Error::Protocol(error)),
    }
}

/// Offset composition. Once the offset is `first`, painting `position`
/// sends the line for `position + first`, whatever the offset was before;
/// and an offset set after it replaces it: the two are not added up.
pub proof fn lemma_offset_composition(
    endpoint: Endpoint,
    first: Vec2,
    second: Vec2,
    position: Vec2,
    color: Color,
)
    ensures
        endpoint.with_offset(first).offset() == first,
        endpoint.with_offset(first).painted(position, color) == set_pixel_line(
            position.plus(first),
            color,
        ),
        endpoint.with_offset(first).with_offset(second) == endpoint.with_offset(second),
        endpoint.with_offset(first).with_offset(second).painted(position, color)
            == set_pixel_line(position.plus(second), color),
{
}

} // verus!
