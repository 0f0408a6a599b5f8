//! The values that travel through the library: grid positions, colours, the
//! error kinds, and the capability interface that every transport offers.

use vstd::prelude::*;
use vstd::std_specs::ops::AddSpecImpl;

verus! {

/// A position on the canvas grid, or a translation between two positions.
#[derive(Debug, Clone, Copy, PartialEq, Eq, Structural)]
pub struct Vec2 {
    pub x: u32,
    pub y: u32,
}

impl Vec2 {
    /// Whether the component-wise sum of the two vectors still lies on the grid.
    pub open spec fn can_add(self, rhs: Vec2) -> bool {
        self.x + rhs.x <= u32::MAX && self.y + rhs.y <= u32::MAX
    }

    /// The component-wise sum. It is the sum on the grid where
    /// [`Vec2::can_add`] holds.
    pub open spec fn plus(self, rhs: Vec2) -> Vec2 {
        Vec2 { x: (self.x + rhs.x) as u32, y: (self.y + rhs.y) as u32 }
    }
}

impl Vec2 {
    /// The sum of the two vectors where it lies on the grid, and `None`
    /// where a component would leave it.
    pub fn checked_add(self, rhs: Vec2) -> (sum: Option<Vec2>)
        ensures
            sum == if self.can_add(rhs) {
                Some(self.plus(rhs))
            } else {
                None
            },
    {
        match (self.x.checked_add(rhs.x), self.y.checked_add(rhs.y)) {
            (Some(x), Some(y)) => Some(Vec2 { x, y }),
            _ => None,
        }
    }
}

impl Default for Vec2 {
    /// The origin of the grid.
    fn default() -> (origin: Vec2)
        ensures
            origin == (Vec2 { x: 0, y: 0 }),
    {
        Vec2 { x: 0, y: 0 }
    }
}

impl core::ops::Add<Vec2> for Vec2 {
    type Output = Vec2;

    /// Adds component by component. A sum that leaves the grid is the caller's
    /// error, so `+` asks for [`Vec2::can_add`] and returns [`Vec2::plus`].
    fn add(self, rhs: Vec2) -> (sum: Vec2) {
        Vec2 { x: self.x + rhs.x, y: self.y + rhs.y }
    }
}

impl AddSpecImpl<Vec2> for Vec2 {
    open spec fn obeys_add_spec() -> bool {
        true
    }

    open spec fn add_req(self, rhs: Vec2) -> bool {
        self.can_add(rhs)
    }

    open spec fn add_spec(self, rhs: Vec2) -> Vec2 {
        self.plus(rhs)
    }
}

/// A colour of three 8-bit channels.
#[derive(Debug, Clone, Copy, PartialEq, Eq, Structural)]
pub struct Color {
    pub r: u8,
    pub g: u8,
    pub b: u8,
}

/// Why a reply line was not accepted.
#[derive(Debug, Clone, Copy, PartialEq, Eq, Structural)]
pub enum ProtocolError {
    /// The line does not hold the number of tokens that the reply has.
    TokenCount,
    /// The first token is not the keyword of the reply.
    Keyword,
    /// A coordinate or a dimension is not a decimal number that fits 32 bits.
    Number,
    /// The colour is not six hexadecimal digits.
    Color,
}

/// The ways in which an operation on a transport fails.
#[derive(Debug, Clone, Copy, PartialEq, Eq, Structural)]
pub enum Error {
    /// The connection could not be set up, or writing to it, flushing it or
    /// reading from it failed.
    Connection,
    /// The server's reply was malformed.
    Protocol(ProtocolError),
    /// The command queue no longer takes commands, or the worker that held a
    /// query went away before it answered.
    QueueClosed,
}

/// The capability interface of a transport: a single connection, a pool of
/// them, or anything else that can carry the four operations.
///
/// Each operation comes with a relation that says which outcomes the
/// transport allows for it. A transport that promises nothing leaves the
/// relations at their default, which allows every outcome; code that is
/// generic over transports states its own contract through them.
pub trait PixelFlut: Sized {
    type Error;

    /// The outcomes allowed when the colour at `position` is asked for.
    open spec fn get_pixel_allows(
        before: Self,
        position: Vec2,
        after: Self,
        outcome: Result<Color, Self::Error>,
    ) -> bool {
        true
    }

    /// The outcomes allowed when `position` is to be painted in `color`.
    open spec fn set_pixel_allows(
        before: Self,
        position: Vec2,
        color: Color,
        after: Self,
        outcome: Result<(), Self::Error>,
    ) -> bool {
        true
    }

    /// The outcomes allowed when the canvas size is asked for.
    open spec fn get_size_allows(
        before: Self,
        after: Self,
        outcome: Result<Vec2, Self::Error>,
    ) -> bool {
        true
    }

    /// The outcomes allowed when the transport's own offset is replaced.
    open spec fn set_offset_allows(
        before: Self,
        offset: Vec2,
        after: Self,
        outcome: Result<(), Self::Error>,
    ) -> bool {
        true
    }

    fn get_pixel(&mut self, position: Vec2) -> (outcome: Result<Color, Self::Error>)
        ensures
            Self::get_pixel_allows(*old(self), position, *final(self), outcome),
    ;

    fn set_pixel(&mut self, position: Vec2, color: &Color) -> (outcome: Result<(), Self::Error>)
        ensures
            Self::set_pixel_allows(*old(self), position, *color, *final(self), outcome),
    ;

    fn get_size(&mut self) -> (outcome: Result<Vec2, Self::Error>)
        ensures
            Self::get_size_allows(*old(self), *final(self), outcome),
    ;

    fn set_offset(&mut self, offset: Vec2) -> (outcome: Result<(), Self::Error>)
        ensures
            Self::set_offset_allows(*old(self), offset, *final(self), outcome),
    ;
}

} // verus!
