//! Turning the bytes of an image file into a pixel buffer.
use vstd::prelude::*;
use vstd::string::*;
use crate::pixel::{DecodeError, PixelBuffer, PixelView};

verus! {

/// The image formats that frames come in.
#[derive(Clone, Copy, Debug, PartialEq, Eq, Structural)]
pub enum FrameFormat {
    /// JPEG, from files that end in `jpg`.
    Jpeg,
    /// PNG, from files that end in `png`.
    Png,
}

/// The format that a file extension stands for: `jpg` and `png`, in lower
/// case, are frames, and nothing else is.
pub open spec fn format_of_extension(extension: Seq<char>) -> Option<FrameFormat> {
    if extension == seq!['j', 'p', 'g'] {
        Some(FrameFormat::Jpeg)
    } else if extension == seq!['p', 'n', 'g'] {
        Some(FrameFormat::Png)
    } else {
        None
    }
}

impl FrameFormat {
    /// Tells from a file's extension (without the dot) whether the file is
    /// a frame, and of which format.
    pub fn from_extension(extension: &str) -> (format: Option<FrameFormat>)
        ensures
            format == format_of_extension(extension@),
    {
        if extension.unicode_len() != 3 {
            return None;
        }
        let first: char = extension.get_char(0);
        let second: char = extension.get_char(1);
        let third: char = extension.get_char(2);
        if first == 'j' && second == 'p' && third == 'g' {
            assert(extension@ =~= seq!['j', 'p', 'g']);
            Some(FrameFormat::Jpeg)
        } else if first == 'p' && second == 'n' && third == 'g' {
            assert(extension@ =~= seq!['p', 'n', 'g']);
            Some(FrameFormat::Png)
        } else {
            assert(extension@ != seq!['j', 'p', 'g']) by {
                if extension@ == seq!['j', 'p', 'g'] {
                    assert(extension@[0] == 'j' && extension@[1] == 'p' && extension@[2] == 'g');
                }
            }
            assert(extension@ != seq!['p', 'n', 'g']) by {
                if extension@ == seq!['p', 'n', 'g'] {
                    assert(extension@[0] == 'p' && extension@[1] == 'n' && extension@[2] == 'g');
                }
            }
            None
        }
    }
}

/// The error type of the `image` crate.
#[verifier::external_type_specification]
#[verifier::external_body]
pub struct ExImageError(image::ImageError);

/// What the `image` crate decodes from `bytes` read as `format`, converted
/// to eight-bit RGBA: width, height and the pixel bytes, or `None` where it
/// reports an error.
pub uninterp spec fn decoded_rgba(bytes: Seq<u8>, format: FrameFormat) -> Option<
    (u32, u32, Seq<u8>),
>;

/// Calls `image::ImageReader::with_format(..).decode()` on the bytes and
/// `DynamicImage::to_rgba8` on what it gives. The contract only gives the
/// outcome its name, `decoded_rgba`: the same bytes in the same format always
/// decode to the same image or fail alike. Nothing is claimed of the size of
/// the pixel data.
#[verifier::external_body]
fn decode_rgba(bytes: &[u8], format: FrameFormat) -> (decoded: Result<
    (u32, u32, Vec<u8>),
    image::ImageError,
>)
    ensures
        match decoded {
            Ok(raw) => decoded_rgba(bytes@, format) == Some((raw.0, raw.1, raw.2@)),
            Err(_) => decoded_rgba(bytes@, format) is None,
        },
{
    let kind = match format {
        FrameFormat::Jpeg => image::ImageFormat::Jpeg,
        FrameFormat::Png => image::ImageFormat::Png,
    };
    let reader = image::ImageReader::with_format(std::io::Cursor::new(bytes), kind);
    let rgba = reader.decode()?.to_rgba8();
    Ok((rgba.width(), rgba.height(), rgba.into_raw()))
}

/// What `decode` makes of an outcome of the image decoder: the image where
/// there is one and its pixel data is complete.
pub open spec fn decode_outcome(raw: Option<(u32, u32, Seq<u8>)>) -> Result<
    PixelView,
    DecodeError,
> {
    match raw {
        None => Err(DecodeError::Malformed),
        Some((width, height, rgba)) => if rgba.len() == width * height * 4 {
            Ok(PixelView { width: width as nat, height: height as nat, rgba })
        } else {
            Err(DecodeError::SizeMismatch)
        },
    }
}

/// A result of `decode` as a plain value.
pub open spec fn outcome_view(outcome: Result<PixelBuffer, DecodeError>) -> Result<
    PixelView,
    DecodeError,
> {
    match outcome {
        Ok(buffer) => Ok(buffer@),
        Err(error) => Err(error),
    }
}

/// Decodes the bytes of an image file of the given format. The result is
/// either a complete pixel buffer or an error, never part of an image.
pub fn decode(bytes: &[u8], format: FrameFormat) -> (outcome: Result<PixelBuffer, DecodeError>)
    ensures
        outcome_view(outcome) == decode_outcome(decoded_rgba(bytes@, format)),
{
    match decode_rgba(bytes, format) {
        Ok(raw) => {
            let (width, height, rgba) = raw;
            PixelBuffer::from_rgba(width as usize, height as usize, rgba)
        },
        Err(_) => Err(DecodeError::Malformed),
    }
}

} // verus!
