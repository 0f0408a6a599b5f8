//! The canvas: the one place where the offset of an image is applied, in
//! front of whatever transport carries the pixels.

use crate::protocol::{Color, PixelFlut, Vec2};
use vstd::prelude::*;

verus! {

/// A canvas on top of a transport. The same canvas works over a single
/// connection and over a pool: both offer the same four operations.
pub struct Canvas<Protocol> where Protocol: PixelFlut {
    /// Where the origin of what is drawn lies on the shared canvas.
    pub offset: Vec2,
    /// The transport underneath.
    pub protocol: Protocol,
}

impl<Protocol> Canvas<Protocol> where Protocol: PixelFlut {
    /// Puts a canvas on `protocol`. This always succeeds; nothing is sent.
    pub fn new(protocol: Protocol, offset: Vec2) -> (canvas: Result<Self, Protocol::Error>)
        ensures
            canvas matches Ok(made) && made.offset == offset && made.protocol == protocol,
    {
        Ok(Self { offset, protocol })
    }

    /// Paints `position`, translated by the offset, in `color`: the
    /// transport is asked once, for `position + offset`, and what it answers
    /// is the outcome. The offset stays as it is.
    pub fn set_pixel(&mut self, position: Vec2, color: &Color) -> (outcome: Result<
        (),
        Protocol::Error,
    >)
        requires
            position.can_add(old(self).offset),
        ensures
            final(self).offset == old(self).offset,
            Protocol::set_pixel_allows(
                old(self).protocol,
                position.plus(old(self).offset),
                *color,
                final(self).protocol,
                outcome,
            ),
    {
        self.protocol.set_pixel(position + self.offset, color)
    }

    /// Asks the transport for the size of the shared canvas. The offset
    /// plays no part in it and stays as it is.
    pub fn size(&mut self) -> (outcome: Result<Vec2, Protocol::Error>)
        ensures
            final(self).offset == old(self).offset,
            Protocol::get_size_allows(old(self).protocol, final(self).protocol, outcome),
    {
        self.protocol.get_size()
    }
}

} // verus!
