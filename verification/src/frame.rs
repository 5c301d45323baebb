//! A frame read back from the device: an extent and the bytes of its texels,
//! and the PNG file that shows it.

use vstd::prelude::*;
use vstd::slice::slice_subrange;
use image::codecs::png::PngEncoder;
use image::{ColorType, ImageEncoder, ImageError};
use crate::color::Rgba8;
use crate::layout::{lemma_offset_in_bounds, Extent};

verus! {

/// The error type of the `image` crate. Nothing is read from it.
#[verifier::external_type_specification]
#[verifier::external_body]
pub struct ExImageError(ImageError);

/// The widest frame that is handed to the encoder. The encoder counts the
/// equal bytes of a row in 32 bits; a row of four bytes per texel and one
/// more stays within that count up to this width, and not beyond it.
pub const MAX_PNG_WIDTH: u32 = 0x3FFF_FFFF;

/// The four bytes of `n`, highest first.
pub open spec fn be_bytes(n: u32) -> Seq<u8> {
    seq![
        (n / 0x100_0000) as u8,
        (n / 0x1_0000 % 0x100) as u8,
        (n / 0x100 % 0x100) as u8,
        (n % 0x100) as u8,
    ]
}

/// How the PNG file of an RGBA8 image begins: the eight bytes of the PNG
/// signature; the length, 13, and the name, `IHDR`, of the header chunk; the
/// width and the height, highest byte first; 8 for the bits of a channel; and
/// 6 for red, green, blue and alpha.
pub open spec fn png_header(width: u32, height: u32) -> Seq<u8> {
    seq![137u8, 80, 78, 71, 13, 10, 26, 10, 0, 0, 0, 13, 73, 72, 68, 82] + be_bytes(width)
        + be_bytes(height) + seq![8u8, 6]
}

/// What `image`'s PNG encoder, with its default settings, makes of a tightly
/// packed RGBA8 buffer of the given width and height: the bytes of the file,
/// or `None` where the encoder refuses the image.
pub uninterp spec fn png_encoding(width: u32, height: u32, texels: Seq<u8>) -> Option<Seq<u8>>;

/// Calls `image::codecs::png::PngEncoder::write_image` on a fresh encoder
/// (`PngEncoder::new`) that writes to memory, with colour type `Rgba8`.
///
/// The encoder panics unless the buffer holds exactly four bytes per texel,
/// and its count of equal bytes in a row overflows beyond `MAX_PNG_WIDTH`,
/// so both are required. Its outcome depends on the arguments alone and is
/// named `png_encoding`. Two things are claimed of that outcome. An image
/// without columns or without rows is refused: the encoder rejects a width
/// or height of zero before it writes anything. And a file that it returns
/// begins as `png_header` says: the encoder writes the signature and the
/// header chunk first, from the width, the height and the colour type that
/// it was given.
#[verifier::external_body]
fn png_encode(width: u32, height: u32, texels: &[u8]) -> (outcome: Result<Vec<u8>, ImageError>)
    requires
        texels@.len() == (Extent { width, height }).byte_len(),
        width <= MAX_PNG_WIDTH,
    ensures
        match outcome {
            Ok(file) => png_encoding(width, height, texels@) == Some(file@),
            Err(_) => png_encoding(width, height, texels@) is None,
        },
        width == 0 || height == 0 ==> outcome is Err,
        outcome matches Ok(file) ==> file@.len() >= 26 && file@.take(26) == png_header(
            width,
            height,
        ),
{
    let mut file: Vec<u8> = Vec::new();
    match PngEncoder::new(&mut file).write_image(texels, width, height, ColorType::Rgba8) {
        Ok(()) => Ok(file),
        Err(error) => Err(error),
    }
}

/// Why a frame could not be turned into a file.
#[derive(Clone, Copy, Debug, PartialEq, Eq, Structural)]
pub enum FrameError {
    /// The frame is wider than `MAX_PNG_WIDTH`; the encoder was not asked.
    TooWide,
    /// The encoder refused the image.
    EncodeFailed,
}

/// What a frame is to a contract: its extent and exactly the bytes of its
/// texels, row by row.
pub struct FrameView {
    pub extent: Extent,
    pub texels: Seq<u8>,
}

impl FrameView {
    /// There are four bytes for each texel, no more.
    pub open spec fn wf(self) -> bool {
        self.texels.len() == self.extent.byte_len()
    }

    /// The texel in column `x` of row `y`.
    pub open spec fn texel(self, x: int, y: int) -> Rgba8
        recommends
            self.wf(),
            self.extent.contains(x, y),
    {
        let at = self.extent.offset_of(x, y);
        Rgba8 {
            r: self.texels[at],
            g: self.texels[at + 1],
            b: self.texels[at + 2],
            a: self.texels[at + 3],
        }
    }

    /// The file that shows this frame, or the error with which encoding
    /// ends: `TooWide` beyond `MAX_PNG_WIDTH`, else what the encoder makes
    /// of the frame.
    pub open spec fn encoded(self) -> Result<Seq<u8>, FrameError> {
        if self.extent.width > MAX_PNG_WIDTH {
            Err(FrameError::TooWide)
        } else {
            match png_encoding(self.extent.width, self.extent.height, self.texels) {
                Some(file) => Ok(file),
                None => Err(FrameError::EncodeFailed),
            }
        }
    }
}

/// Whether `result` is what encoding a frame with view `frame` returns.
pub open spec fn is_encoding_of(frame: FrameView, result: Result<Vec<u8>, FrameError>) -> bool {
    match result {
        Ok(file) => frame.encoded() == Ok::<Seq<u8>, FrameError>(file@),
        Err(e) => frame.encoded() == Err::<Seq<u8>, FrameError>(e),
    }
}

/// A frame of RGBA8 texels over a buffer that holds at least the frame's
/// bytes. What lies in the buffer behind them is kept but never read.
pub struct Frame {
    extent: Extent,
    data: Vec<u8>,
}

impl View for Frame {
    type V = FrameView;

    closed spec fn view(&self) -> FrameView {
        FrameView { extent: self.extent, texels: self.data@.take(self.extent.byte_len() as int) }
    }
}

impl Frame {
    #[verifier::type_invariant]
    spec fn holds_all_texels(self) -> bool {
        self.extent.byte_len() <= self.data@.len()
    }

    /// Takes `data` as the texels of a frame of the given width and height.
    ///
    /// Returns `None` exactly where `data` is too short to hold four bytes
    /// for each texel. A longer buffer is accepted; the frame is its start.
    pub fn from_raw(width: u32, height: u32, data: Vec<u8>) -> (frame: Option<Frame>)
        ensures
            frame is Some <==> (Extent { width, height }).byte_len() <= data@.len(),
            frame matches Some(f) ==> {
                &&& f@.extent == (Extent { width, height })
                &&& f@.texels == data@.take((Extent { width, height }).byte_len() as int)
                &&& f@.wf()
            },
    {
        let extent = Extent { width, height };
        let held: usize = data.len();
        match extent.byte_size() {
            Some(needed) => {
                if needed <= held {
                    Some(Frame { extent, data })
                } else {
                    None
                }
            },
            None => None,
        }
    }

    /// Width and height of the frame.
    pub fn extent(&self) -> (extent: Extent)
        ensures
            extent == self@.extent,
            self@.wf(),
    {
        proof {
            use_type_invariant(self);
        }
        self.extent
    }

    /// The bytes of the frame's texels, row by row: four for each texel.
    pub fn as_bytes(&self) -> (bytes: &[u8])
        ensures
            bytes@ == self@.texels,
            self@.wf(),
    {
        proof {
            use_type_invariant(self);
        }
        let len: usize = match self.extent.byte_size() {
            Some(len) => len,
            None => self.data.len(),
        };
        slice_subrange(self.data.as_slice(), 0, len)
    }

    /// The texel in column `x` of row `y`, or `None` where the frame has no
    /// such texel.
    pub fn texel(&self, x: u32, y: u32) -> (texel: Option<Rgba8>)
        ensures
            self@.wf(),
            texel == if self@.extent.contains(x as int, y as int) {
                Some(self@.texel(x as int, y as int))
            } else {
                None
            },
    {
        proof {
            use_type_invariant(self);
        }
        if x >= self.extent.width || y >= self.extent.height {
            return None;
        }
        proof {
            lemma_offset_in_bounds(self.extent, x as int, y as int);
            assert(self.data.len() <= usize::MAX);
        }
        let width: usize = self.extent.width as usize;
        assert(0 <= (y as int) * (width as int)) by (nonlinear_arith)
            requires
                0 <= y,
                0 <= width,
        ;
        let row: usize = y as usize * width;
        let at: usize = 4 * (row + x as usize);
        Some(Rgba8 { r: self.data[at], g: self.data[at + 1], b: self.data[at + 2], a: self.data[at + 3] })
    }

    /// Encodes the frame as a PNG file and returns the file's bytes.
    ///
    /// A frame wider than `MAX_PNG_WIDTH` is refused as `TooWide`. For every
    /// other frame the encoder decides; it always refuses a frame without
    /// texels. A file that is returned begins with the PNG signature and a
    /// header chunk that gives the frame's width and height and says RGBA
    /// with eight bits a channel.
    pub fn encode_png(&self) -> (result: Result<Vec<u8>, FrameError>)
        ensures
            is_encoding_of(self@, result),
            self@.extent.width > MAX_PNG_WIDTH ==> result == Err::<Vec<u8>, FrameError>(
                FrameError::TooWide,
            ),
            self@.extent.width == 0 || (self@.extent.height == 0 && self@.extent.width
                <= MAX_PNG_WIDTH) ==> result == Err::<Vec<u8>, FrameError>(
                FrameError::EncodeFailed,
            ),
            result matches Ok(file) ==> file@.len() >= 26 && file@.take(26) == png_header(
                self@.extent.width,
                self@.extent.height,
            ),
    {
        proof {
            use_type_invariant(self);
        }
        if self.extent.width > MAX_PNG_WIDTH {
            return Err(FrameError::TooWide);
        }
        let texels = self.as_bytes();
        let outcome = png_encode(self.extent.width, self.extent.height, texels);
        file_or_error(outcome)
    }
}

/// Encoding depends on the extent and the texels alone: two frames that
/// agree in both give the same file or the same error, whatever lies behind
/// the texels in their buffers and however often they are encoded.
pub proof fn lemma_same_texels_same_file(
    a: FrameView,
    b: FrameView,
    ra: Result<Vec<u8>, FrameError>,
    rb: Result<Vec<u8>, FrameError>,
)
    requires
        a.extent == b.extent,
        a.texels == b.texels,
        is_encoding_of(a, ra),
        is_encoding_of(b, rb),
    ensures
        ra is Ok <==> rb is Ok,
        ra matches Ok(fa) ==> rb matches Ok(fb) && fa@ == fb@,
        ra matches Err(ea) ==> rb matches Err(eb) && ea == eb,
{
}

/// Keeps the file that the encoder wrote; whatever error the encoder gave
/// becomes `FrameError::EncodeFailed`.
pub fn file_or_error(outcome: Result<Vec<u8>, ImageError>) -> (result: Result<Vec<u8>, FrameError>)
    ensures
        match outcome {
            Ok(file) => result == Ok::<Vec<u8>, FrameError>(file),
            Err(_) => result == Err::<Vec<u8>, FrameError>(FrameError::EncodeFailed),
        },
{
    match outcome {
        Ok(file) => Ok(file),
        Err(_) => Err(FrameError::EncodeFailed),
    }
}

} // verus!
