//! Decoded frames.
use vstd::prelude::*;

verus! {

/// Why no pixel buffer could be made.
#[derive(Clone, Copy, Debug, PartialEq, Eq, Structural)]
pub enum DecodeError {
    /// The bytes are not an image of the expected format, or its pixel data
    /// could not be decoded.
    Malformed,
    /// The number of bytes is not four times width times height.
    SizeMismatch,
}

/// A decoded frame as a plain value.
pub ghost struct PixelView {
    /// Pixels per row.
    pub width: nat,
    /// Number of rows.
    pub height: nat,
    /// Four bytes per pixel (red, green, blue, alpha), row after row.
    pub rgba: Seq<u8>,
}

/// A decoded frame: its size and its pixels as RGBA bytes. Once made it is
/// never changed, and it always holds exactly four bytes for each pixel.
#[derive(Debug)]
pub struct PixelBuffer {
    width: usize,
    height: usize,
    rgba: Vec<u8>,
}

impl View for PixelBuffer {
    type V = PixelView;

    closed spec fn view(&self) -> PixelView {
        PixelView { width: self.width as nat, height: self.height as nat, rgba: self.rgba@ }
    }
}

/// A buffer holds four bytes for each of its width times height pixels.
pub open spec fn pixels_complete(buffer: PixelView) -> bool {
    buffer.rgba.len() == buffer.width * buffer.height * 4
}

impl PixelBuffer {
    /// What holds of every buffer: no pixel is missing.
    #[verifier::type_invariant]
    pub open spec fn complete(self) -> bool {
        pixels_complete(self@)
    }

    /// Makes a buffer of `width` by `height` pixels from their RGBA bytes.
    /// It fails with `SizeMismatch` exactly when `rgba` does not hold four
    /// bytes for each pixel.
    pub fn from_rgba(width: usize, height: usize, rgba: Vec<u8>) -> (made: Result<
        PixelBuffer,
        DecodeError,
    >)
        ensures
            rgba@.len() == width * height * 4 ==> made is Ok && made->Ok_0@ == (PixelView {
                width: width as nat,
                height: height as nat,
                rgba: rgba@,
            }),
            rgba@.len() != width * height * 4 ==> made == Err::<PixelBuffer, DecodeError>(
                DecodeError::SizeMismatch,
            ),
    {
        let len: usize = rgba.len();
        let ghost area: int = width * height;
        let pixels: usize = match width.checked_mul(height) {
            Some(p) => p,
            None => {
                assert(area * 4 > len);
                return Err(DecodeError::SizeMismatch);
            },
        };
        assert(pixels == area);
        match pixels.checked_mul(4) {
            Some(expected) => {
                assert(expected == area * 4);
                if len == expected {
                    Ok(PixelBuffer { width, height, rgba })
                } else {
                    Err(DecodeError::SizeMismatch)
                }
            },
            None => {
                assert(area * 4 > len);
                Err(DecodeError::SizeMismatch)
            },
        }
    }

    /// Pixels per row.
    pub fn width(&self) -> (width: usize)
        ensures
            width == self@.width,
    {
        self.width
    }

    /// Number of rows.
    pub fn height(&self) -> (height: usize)
        ensures
            height == self@.height,
    {
        self.height
    }

    /// The pixels: four bytes each, row after row, none missing.
    pub fn rgba(&self) -> (bytes: &[u8])
        ensures
            bytes@ == self@.rgba,
            pixels_complete(self@),
    {
        proof {
            use_type_invariant(self);
        }
        self.rgba.as_slice()
    }
}

} // verus!
