use vstd::prelude::*;
use vstd::string::StringExecFns;

verus! {

/// Pixel layouts a render loop can read back.
#[derive(Clone, Copy, Debug, PartialEq, Eq, Structural)]
pub enum PixelFormat {
    Rgba8,
    Bgra8,
    Rgba16,
}

/// Bytes taken by one pixel of the given format.
pub open spec fn bytes_per_pixel_spec(f: PixelFormat) -> nat {
    match f {
        PixelFormat::Rgba8 => 4,
        PixelFormat::Bgra8 => 4,
        PixelFormat::Rgba16 => 8,
    }
}

impl PixelFormat {
    pub fn bytes_per_pixel(&self) -> (r: u64)
        ensures
            r as nat == bytes_per_pixel_spec(*self),
    {
        match self {
            PixelFormat::Rgba8 => 4,
            PixelFormat::Bgra8 => 4,
            PixelFormat::Rgba16 => 8,
        }
    }
}

/// Width and height of an image, in pixels.
#[derive(Clone, Copy, Debug, PartialEq, Eq, Structural)]
pub struct Resolution {
    pub width: u32,
    pub height: u32,
}

/// Number of bytes an image of resolution `r` in format `f` occupies.
pub open spec fn image_byte_len(r: Resolution, f: PixelFormat) -> nat {
    r.width as nat * r.height as nat * bytes_per_pixel_spec(f)
}

/// Why a capture buffer could not be built.
#[derive(Clone, Copy, Debug, PartialEq, Eq, Structural)]
pub enum CaptureError {
    /// The byte length differs from width x height x bytes per pixel.
    SizeMismatch,
}

/// Raw pixels read back from the render surface, with their resolution,
/// format, and the time (in microseconds) at which they were captured.
#[derive(Debug)]
pub struct CaptureBuffer {
    bytes: Vec<u8>,
    resolution: Resolution,
    format: PixelFormat,
    timestamp: u64,
}

impl CaptureBuffer {
    /// The buffer holds exactly one image of its declared size and format.
    #[verifier::type_invariant]
    pub closed spec fn wf(&self) -> bool {
        self.bytes@.len() == image_byte_len(self.resolution, self.format)
    }

    pub closed spec fn bytes_view(&self) -> Seq<u8> {
        self.bytes@
    }

    pub closed spec fn resolution_view(&self) -> Resolution {
        self.resolution
    }

    pub closed spec fn format_view(&self) -> PixelFormat {
        self.format
    }

    pub closed spec fn timestamp_view(&self) -> u64 {
        self.timestamp
    }

    /// Builds a buffer, refusing one whose byte length does not match
    /// `resolution` and `format`.
    pub fn new(bytes: Vec<u8>, resolution: Resolution, format: PixelFormat, timestamp: u64) -> (r:
        Result<CaptureBuffer, CaptureError>)
        ensures
            (r is Ok) <==> bytes@.len() == image_byte_len(resolution, format),
            r is Err ==> r->Err_0 == CaptureError::SizeMismatch,
            r matches Ok(b) ==> b.bytes_view() == bytes@ && b.resolution_view() == resolution
                && b.format_view() == format && b.timestamp_view() == timestamp
                && b.wf(),
    {
        let w: u64 = resolution.width as u64;
        let h: u64 = resolution.height as u64;
        proof {
            assert(w * h <= 0xffff_ffff_u64 * 0xffff_ffff_u64) by (nonlinear_arith)
                requires w <= 0xffff_ffff_u64, h <= 0xffff_ffff_u64;
        }
        let wh: u64 = w * h;
        let bpp = format.bytes_per_pixel();
        let len = bytes.len() as u64;
        if bpp == 0 || len % bpp != 0 || len / bpp != wh {
            proof {
                if bytes@.len() == image_byte_len(resolution, format) {
                    assert(image_byte_len(resolution, format) == wh as nat * bpp as nat) by (nonlinear_arith)
                        requires wh as nat == resolution.width as nat * resolution.height as nat,
                        bpp as nat == bytes_per_pixel_spec(format);
                    assert((wh as nat * bpp as nat) % (bpp as nat) == 0) by (nonlinear_arith) requires bpp > 0;
                    assert((wh as nat * bpp as nat) / (bpp as nat) == wh as nat) by (nonlinear_arith) requires bpp > 0;
                }
            }
            Err(CaptureError::SizeMismatch)
        } else {
            proof {
                assert(len as nat == wh as nat * bpp as nat) by (nonlinear_arith)
                    requires bpp > 0, len % bpp == 0, len / bpp == wh;
                assert(image_byte_len(resolution, format) == wh as nat * bpp as nat) by (nonlinear_arith)
                    requires wh as nat == resolution.width as nat * resolution.height as nat,
                    bpp as nat == bytes_per_pixel_spec(format);
            }
            Ok(CaptureBuffer { bytes, resolution, format, timestamp })
        }
    }

    pub fn resolution(&self) -> (r: Resolution)
        ensures
            r == self.resolution_view(),
    {
        self.resolution
    }

    pub fn format(&self) -> (r: PixelFormat)
        ensures
            r == self.format_view(),
    {
        self.format
    }

    pub fn timestamp(&self) -> (r: u64)
        ensures
            r == self.timestamp_view(),
    {
        self.timestamp
    }

    /// The pixel bytes: always exactly one image of the declared resolution and
    /// format, since a buffer of another length is refused when it is built.
    pub fn bytes(&self) -> (r: &Vec<u8>)
        ensures
            r@ == self.bytes_view(),
            r@.len() == image_byte_len(self.resolution_view(), self.format_view()),
    {
        proof {
            use_type_invariant(self);
        }
        &self.bytes
    }

    /// Gives the pixel bytes back, consuming the buffer.
    pub fn into_bytes(self) -> (r: Vec<u8>)
        ensures
            r@ == self.bytes_view(),
            r@.len() == image_byte_len(self.resolution_view(), self.format_view()),
    {
        proof {
            use_type_invariant(&self);
        }
        self.bytes
    }
}

/// Name of the file a still capture is written to.
pub open spec fn painting_path(base: Seq<char>) -> Seq<char> {
    base + ".tiff"@
}

/// Name of the file a recording session is written to.
pub open spec fn movie_path(base: Seq<char>) -> Seq<char> {
    base + ".mp4"@
}

pub fn painting_file_name(base: &String) -> (r: String)
    ensures
        r@ == painting_path(base@),
{
    base.clone().concat(".tiff")
}

pub fn movie_file_name(base: &String) -> (r: String)
    ensures
        r@ == movie_path(base@),
{
    base.clone().concat(".mp4")
}

/// A still-image write to hand to a background writer: the checked pixels,
/// the target file, and whether to open the file in a viewer afterwards.
#[derive(Debug)]
pub struct StillWriteJob {
    pub buffer: CaptureBuffer,
    pub path: String,
    pub open_after_write: bool,
}

} // verus!
