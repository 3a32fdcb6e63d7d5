//! Fixed-size 64x64 RGB frame buffers and input-image validation.
//!
//! A [`Frame`] is a flat, row-major byte buffer of exactly
//! `64 * 64 * 3` bytes, three bytes per pixel in R, G, B order.

use vstd::prelude::*;
use vstd::pervasive::VecAdditionalExecFns;

verus! {

/// Width of the device's display in pixels.
pub const FRAME_WIDTH: usize = 64;

/// Height of the device's display in pixels.
pub const FRAME_HEIGHT: usize = 64;

/// Number of bytes in one row of pixels (64 pixels, 3 bytes each).
pub const ROW_BYTES: usize = 192;

/// Total number of bytes in one frame: 64 * 64 * 3.
pub const FRAME_BYTES: usize = 12288;

/// An RGB color, one byte per channel.
#[derive(Clone, Copy, PartialEq, Eq, Structural, Debug)]
pub struct Rgb {
    pub r: u8,
    pub g: u8,
    pub b: u8,
}

impl Default for Rgb {
    /// The default color is black.
    fn default() -> (c: Rgb)
        ensures
            c == (Rgb { r: 0, g: 0, b: 0 }),
    {
        Rgb { r: 0, g: 0, b: 0 }
    }
}

/// A rejected input image, reported before any device command is built.
#[derive(Clone, Copy, PartialEq, Eq, Structural, Debug)]
pub enum ImageError {
    /// The image is not exactly 64x64 pixels.
    WrongDimensions,
    /// The image does not use 8 bits per channel.
    WrongBitDepth,
    /// The image is not plain RGB (no alpha, no palette, no grayscale).
    WrongColorType,
    /// A raw pixel buffer does not hold exactly `FRAME_BYTES` bytes.
    WrongByteLength,
}

/// Index of the first byte (the red channel) of pixel `(x, y)` in the
/// flat row-major buffer.
pub open spec fn pixel_base(x: int, y: int) -> int {
    y * 192 + x * 3
}

/// The byte at offset `i` of a frame uniformly filled with `color`.
pub open spec fn fill_byte(color: Rgb, i: int) -> u8 {
    if i % 3 == 0 {
        color.r
    } else if i % 3 == 1 {
        color.g
    } else {
        color.b
    }
}

/// The full byte sequence of a frame uniformly filled with `color`:
/// the `(r, g, b)` triple repeated 4096 times.
pub open spec fn filled_bytes(color: Rgb) -> Seq<u8> {
    Seq::new(FRAME_BYTES as nat, |i: int| fill_byte(color, i))
}

/// One 64x64 RGB image in the device's raw byte layout.
pub struct Frame {
    pixels: Vec<u8>,
}

impl View for Frame {
    type V = Seq<u8>;

    closed spec fn view(&self) -> Seq<u8> {
        self.pixels@
    }
}

impl Frame {
    /// A frame always holds exactly `FRAME_BYTES` bytes.
    pub open spec fn wf(&self) -> bool {
        self@.len() == FRAME_BYTES
    }
}

impl Default for Frame {
    /// A zero-filled (all-black) frame.
    fn default() -> (f: Frame)
        ensures
            f.wf(),
            f@ == filled_bytes(Rgb { r: 0, g: 0, b: 0 }),
    {
        let pixels = vec![0u8; FRAME_BYTES];
        let f = Frame { pixels };
        proof {
            assert(f@ =~= filled_bytes(Rgb { r: 0, g: 0, b: 0 }));
        }
        f
    }
}

impl Frame {
    /// Write the three bytes of pixel `(x, y)`; every other byte is unchanged.
    pub fn set_pixel(&mut self, x: usize, y: usize, color: Rgb)
        requires
            old(self).wf(),
            x < FRAME_WIDTH,
            y < FRAME_HEIGHT,
        ensures
            final(self).wf(),
            final(self)@ == old(self)@.update(pixel_base(x as int, y as int), color.r).update(
                pixel_base(x as int, y as int) + 1,
                color.g,
            ).update(pixel_base(x as int, y as int) + 2, color.b),
    {
        let base: usize = y * ROW_BYTES + x * 3;
        self.pixels.set(base, color.r);
        self.pixels.set(base + 1, color.g);
        self.pixels.set(base + 2, color.b);
    }

    /// Overwrite every pixel with `color`.
    pub fn fill(&mut self, color: Rgb)
        requires
            old(self).wf(),
        ensures
            final(self).wf(),
            final(self)@ == filled_bytes(color),
    {
        let mut y: usize = 0;
        while y < FRAME_HEIGHT
            invariant
                y <= FRAME_HEIGHT,
                self.wf(),
                forall|j: int| 0 <= j < y * 192 ==> #[trigger] self@[j] == fill_byte(color, j),
            decreases FRAME_HEIGHT - y,
        {
            let mut x: usize = 0;
            while x < FRAME_WIDTH
                invariant
                    x <= FRAME_WIDTH,
                    y < FRAME_HEIGHT,
                    self.wf(),
                    forall|j: int|
                        0 <= j < y * 192 + x * 3 ==> #[trigger] self@[j] == fill_byte(color, j),
                decreases FRAME_WIDTH - x,
            {
                self.set_pixel(x, y, color);
                proof {
                    let base = pixel_base(x as int, y as int);
                    assert(base == 3 * (64 * y + x));
                    assert(base % 3 == 0 && (base + 1) % 3 == 1 && (base + 2) % 3 == 2) by (nonlinear_arith)
                        requires
                            base == 3 * (64 * y as int + x as int),
                            0 <= y < 64,
                            0 <= x < 64,
                    ;
                }
                x = x + 1;
            }
            y = y + 1;
        }
        proof {
            assert(self@ =~= filled_bytes(color));
        }
    }

    /// Bulk-load the frame from a caller-supplied raw buffer, which must
    /// hold exactly `FRAME_BYTES` bytes.
    pub fn fill_with_bytes(&mut self, bytes: &[u8])
        requires
            old(self).wf(),
            bytes@.len() == FRAME_BYTES,
        ensures
            final(self).wf(),
            final(self)@ == bytes@,
    {
        self.pixels = vstd::slice::slice_to_vec(bytes);
    }

    /// Build a frame from a raw buffer, rejecting any length other than
    /// exactly `FRAME_BYTES` (no truncation, no padding).
    pub fn from_raw(bytes: &[u8]) -> (r: Result<Frame, ImageError>)
        ensures
            bytes@.len() == FRAME_BYTES ==> (r matches Ok(f) && f.wf() && f@ == bytes@),
            bytes@.len() != FRAME_BYTES ==> r == Err::<Frame, ImageError>(
                ImageError::WrongByteLength,
            ),
    {
        if bytes.len() != FRAME_BYTES {
            return Err(ImageError::WrongByteLength);
        }
        let mut f = Frame::default();
        f.fill_with_bytes(bytes);
        Ok(f)
    }

    /// The raw row-major R, G, B bytes, for the frame encoder.
    pub fn as_bytes(&self) -> (r: &[u8])
        ensures
            r@ == self@,
    {
        self.pixels.as_slice()
    }
}

/// Law: writing pixel `(x, y)` stores the color's three bytes at that
/// pixel's offsets, and the bytes of every other pixel are unchanged.
pub proof fn lemma_set_pixel_effect(s: Seq<u8>, x: int, y: int, color: Rgb)
    requires
        s.len() == FRAME_BYTES,
        0 <= x < 64,
        0 <= y < 64,
    ensures
        ({
            let t = s.update(pixel_base(x, y), color.r).update(pixel_base(x, y) + 1, color.g)
                .update(pixel_base(x, y) + 2, color.b);
            &&& t[pixel_base(x, y)] == color.r
            &&& t[pixel_base(x, y) + 1] == color.g
            &&& t[pixel_base(x, y) + 2] == color.b
            &&& forall|px: int, py: int, k: int|
                0 <= px < 64 && 0 <= py < 64 && 0 <= k < 3 && (px != x || py != y)
                    ==> #[trigger] t[pixel_base(px, py) + k] == s[pixel_base(px, py) + k]
        }),
{
    let t = s.update(pixel_base(x, y), color.r).update(pixel_base(x, y) + 1, color.g).update(
        pixel_base(x, y) + 2,
        color.b,
    );
    assert forall|px: int, py: int, k: int|
        0 <= px < 64 && 0 <= py < 64 && 0 <= k < 3 && (px != x || py != y) implies #[trigger] t[
        pixel_base(px, py) + k] == s[pixel_base(px, py) + k] by {
        if py < y {
            assert(pixel_base(px, py) + k < pixel_base(x, y));
        } else if py > y {
            assert(pixel_base(px, py) > pixel_base(x, y) + 2);
        } else if px < x {
            assert(pixel_base(px, py) + k < pixel_base(x, y));
        } else {
            assert(pixel_base(px, py) > pixel_base(x, y) + 2);
        }
    }
}

/// Accept an image only if it is exactly 64x64, 8 bits per channel, and
/// plain RGB. `color_channels` is the number of color channels of the
/// decoded image (3 for RGB). Checks run in this order: dimensions,
/// bit depth, color channels.
pub fn validate_image(width: u32, height: u32, bit_depth: u8, color_channels: u8) -> (r: Result<
    (),
    ImageError,
>)
    ensures
        r matches Ok(()) <==> (width == 64 && height == 64 && bit_depth == 8 && color_channels
            == 3),
        (width != 64 || height != 64) ==> r == Err::<(), ImageError>(ImageError::WrongDimensions),
        (width == 64 && height == 64 && bit_depth != 8) ==> r == Err::<(), ImageError>(
            ImageError::WrongBitDepth,
        ),
        (width == 64 && height == 64 && bit_depth == 8 && color_channels != 3) ==> r == Err::<
            (),
            ImageError,
        >(ImageError::WrongColorType),
{
    if width != 64 || height != 64 {
        Err(ImageError::WrongDimensions)
    } else if bit_depth != 8 {
        Err(ImageError::WrongBitDepth)
    } else if color_channels != 3 {
        Err(ImageError::WrongColorType)
    } else {
        Ok(())
    }
}

/// Pixel `(x, y)` of byte sequence `s` holds the diagnostic gradient
/// color `(4x, 4y, 4 * min(x, y))`.
pub open spec fn gradient_pixel(s: Seq<u8>, x: int, y: int) -> bool {
    &&& s[pixel_base(x, y)] == (4 * x) as u8
    &&& s[pixel_base(x, y) + 1] == (4 * y) as u8
    &&& s[pixel_base(x, y) + 2] == (4 * vstd::math::min(x, y)) as u8
}

/// Paint the diagnostic color-test gradient: pixel `(x, y)` gets
/// `(4x, 4y, 4 * min(x, y))`.
pub fn color_test(frame: &mut Frame)
    requires
        old(frame).wf(),
    ensures
        final(frame).wf(),
        forall|x: int, y: int|
            0 <= x < 64 && 0 <= y < 64 ==> #[trigger] gradient_pixel(final(frame)@, x, y),
{
    let mut y: usize = 0;
    while y < FRAME_HEIGHT
        invariant
            y <= FRAME_HEIGHT,
            frame.wf(),
            forall|px: int, py: int|
                0 <= px < 64 && 0 <= py < y ==> #[trigger] gradient_pixel(frame@, px, py),
        decreases FRAME_HEIGHT - y,
    {
        let mut x: usize = 0;
        while x < FRAME_WIDTH
            invariant
                x <= FRAME_WIDTH,
                y < FRAME_HEIGHT,
                frame.wf(),
                forall|px: int, py: int|
                    0 <= px < 64 && 0 <= py < y ==> #[trigger] gradient_pixel(frame@, px, py),
                forall|px: int|
                    0 <= px < x ==> #[trigger] gradient_pixel(frame@, px, y as int),
            decreases FRAME_WIDTH - x,
        {
            let r: u8 = (x as u8) * 4;
            let g: u8 = (y as u8) * 4;
            let m: u8 = if x <= y {
                x as u8
            } else {
                y as u8
            };
            let b: u8 = m * 4;
            let ghost pre = frame@;
            frame.set_pixel(x, y, Rgb { r, g, b });
            proof {
                let a = pixel_base(x as int, y as int);
                assert(forall|j: int|
                    0 <= j < pre.len() && j != a && j != a + 1 && j != a + 2
                        ==> #[trigger] frame@[j] == pre[j]);
                assert forall|px: int, py: int|
                    0 <= px < 64 && 0 <= py < y implies #[trigger] gradient_pixel(
                    frame@,
                    px,
                    py,
                ) by {
                    assert(gradient_pixel(pre, px, py));
                    assert(pixel_base(px, py) + 2 < a);
                }
                assert forall|px: int| 0 <= px < x + 1 implies #[trigger] gradient_pixel(
                    frame@,
                    px,
                    y as int,
                ) by {
                    if px < x {
                        assert(gradient_pixel(pre, px, y as int));
                        assert(pixel_base(px, y as int) + 2 < a);
                    } else {
                        assert(frame@[a] == r && frame@[a + 1] == g && frame@[a + 2] == b);
                    }
                }
            }
            x = x + 1;
        }
        proof {
            assert forall|px: int, py: int|
                0 <= px < 64 && 0 <= py < y + 1 implies #[trigger] gradient_pixel(
                frame@,
                px,
                py,
            ) by {
                if py == y {
                    assert(gradient_pixel(frame@, px, y as int));
                }
            }
        }
        y = y + 1;
    }
}

} // verus!
