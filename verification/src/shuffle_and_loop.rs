//! The drawing strategy: every pixel of the image that is not background, in
//! a random order that is drawn once and then repeated.

use crate::protocol::Color;
use vstd::prelude::*;

verus! {

/// One pixel of an image: column, row and colour.
pub type ImagePixel = (u32, u32, Color);

/// An RGB image in memory, eight bits to the channel. It is an image buffer
/// of the image crate, which specifications cannot look into.
#[verifier::external_body]
pub struct Bitmap {
    image: image::RgbImage,
}

#[verifier::external_type_specification]
#[verifier::external_body]
pub struct ExThreadRng(rand::rngs::ThreadRng);

/// The pixels that a bitmap holds, in the order in which the image crate
/// enumerates them.
pub uninterp spec fn image_pixels(bitmap: Bitmap) -> Seq<ImagePixel>;

/// `ImageBuffer::from_raw` of the image crate makes an image of the given
/// dimensions on top of a buffer of samples, and declines exactly where the
/// buffer is too small for them: an RGB image needs three samples for each
/// pixel.
#[verifier::external_body]
fn image_from_raw(width: u32, height: u32, samples: Vec<u8>) -> (bitmap: Option<Bitmap>)
    ensures
        bitmap is Some <==> 3 * width * height <= samples@.len(),
{
    image::RgbImage::from_raw(width, height, samples).map(|image| Bitmap { image })
}

/// `ImageBuffer::enumerate_pixels` of the image crate walks the image and
/// yields each pixel with its column and its row. What comes out goes by the
/// name [`image_pixels`]; the three channels of each pixel are copied into a
/// [`Color`].
#[verifier::external_body]
fn enumerate_pixels(bitmap: &Bitmap) -> (pixels: Vec<ImagePixel>)
    ensures
        pixels@ == image_pixels(*bitmap),
{
    bitmap.image.enumerate_pixels().map(
        |(x, y, color)| (x, y, Color { r: color.0[0], g: color.0[1], b: color.0[2] }),
    ).collect()
}

/// `rand::thread_rng` hands out the random number generator of the calling
/// thread. Nothing is claimed of it.
pub assume_specification[ rand::thread_rng ]() -> (generator: rand::rngs::ThreadRng)
;

/// `SliceRandom::shuffle` of the rand crate reorders a slice in place by
/// swapping its elements. So what comes out holds the same pixels as what
/// went in, each as often as before; nothing is claimed of their order.
#[verifier::external_body]
fn shuffle(pixels: &mut Vec<ImagePixel>, generator: &mut rand::rngs::ThreadRng)
    ensures
        final(pixels)@.to_multiset() == old(pixels)@.to_multiset(),
{
    rand::seq::SliceRandom::shuffle(pixels.as_mut_slice(), generator);
}

impl Bitmap {
    /// An image of `width` by `height` pixels on top of `samples`, which
    /// holds red, green and blue of one pixel after the other. There is no
    /// image where the samples are too few for the dimensions.
    pub fn from_raw(width: u32, height: u32, samples: Vec<u8>) -> (bitmap: Option<Bitmap>)
        ensures
            bitmap is Some <==> 3 * width * height <= samples@.len(),
    {
        image_from_raw(width, height, samples)
    }
}

/// Whether a pixel is drawn: one without green counts as background.
pub open spec fn is_foreground() -> spec_fn(ImagePixel) -> bool {
    |pixel: ImagePixel| pixel.2.g > 0
}

/// The pixels that are not background, in the order in which they came.
pub fn foreground(all: &Vec<ImagePixel>) -> (kept: Vec<ImagePixel>)
    ensures
        kept@ == all@.filter(is_foreground()),
{
    let mut kept: Vec<ImagePixel> = Vec::new();
    let mut i: usize = 0;
    proof {
        reveal(Seq::filter);
        assert(all@.take(0).filter(is_foreground()) =~= Seq::<ImagePixel>::empty());
    }
    while i < all.len()
        invariant
            i <= all@.len(),
            kept@ == all@.take(i as int).filter(is_foreground()),
        decreases all@.len() - i,
    {
        let pixel = all[i];
        if pixel.2.g > 0 {
            kept.push(pixel);
        }
        proof {
            reveal(Seq::filter);
            assert(all@.take(i + 1).drop_last() =~= all@.take(i as int));
        }
        i += 1;
    }
    assert(all@.take(all@.len() as int) =~= all@);
    kept
}

/// The pixels to draw, in the order in which they are drawn.
#[derive(Debug)]
pub struct ShuffleAndLoop {
    pixels: Vec<ImagePixel>,
}

impl ShuffleAndLoop {
    /// The pixels in drawing order.
    pub closed spec fn pixels(self) -> Seq<ImagePixel> {
        self.pixels@
    }

    /// Takes the pixels of `image` that are not background and puts them in
    /// a random order.
    pub fn new(image: &Bitmap) -> (strategy: Self)
        ensures
            strategy.pixels().to_multiset() == image_pixels(*image).filter(
                is_foreground(),
            ).to_multiset(),
    {
        Self::from_pixels(enumerate_pixels(image))
    }

    /// Takes those of the given pixels that are not background and puts them
    /// in a random order: every such pixel is there, as often as it was
    /// given, and no other.
    pub fn from_pixels(all: Vec<ImagePixel>) -> (strategy: Self)
        ensures
            strategy.pixels().to_multiset() == all@.filter(is_foreground()).to_multiset(),
    {
        let mut pixels = foreground(&all);
        let mut generator = rand::thread_rng();
        shuffle(&mut pixels, &mut generator);
        Self { pixels }
    }

    /// The pixels in drawing order.
    pub fn iter(&self) -> (pixels: &[ImagePixel])
        ensures
            pixels@ == self.pixels(),
    {
        self.pixels.as_slice()
    }
}

} // verus!
