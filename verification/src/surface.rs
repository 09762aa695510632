//! An in-memory pixel surface, and the status and error model of the
//! native raster-codec boundary.
//!
//! The surface itself is plain data: a format, two dimensions and a
//! row-major pixel vector, created zeroed and addressed with checked
//! indexing. The native codec is reached only through a byte-stream
//! bridge that lives outside this crate; what is modelled here is the
//! part worth proving: the status convention (zero is success), the
//! two-channel error type, and the settling of one bridged call, where
//! a fault inside the callback always takes precedence over the stream's
//! failure, and the stream's failure over the reported status.

use vstd::prelude::*;

verus! {

/// The status value the native library reports on success.
pub const STATUS_SUCCESS: u32 = 0;

/// The status value reported for dimensions the backend cannot hold.
pub const STATUS_INVALID_SIZE: u32 = 14;

/// The largest width or height a surface accepts.
pub const MAX_DIMENSION: usize = 32767;

/// A nonzero status reported by the raster backend.
#[derive(Clone, Copy, Debug, PartialEq, Eq, Structural)]
pub struct CairoError {
    pub status: u32,
}

impl CairoError {
    /// Turn a raw status into a result: success exactly on the zero
    /// status, and any other status carried as the error.
    pub fn check(status: u32) -> (r: Result<(), CairoError>)
        ensures
            r is Ok <==> status == STATUS_SUCCESS,
            r matches Err(e) ==> e.status == status && status != STATUS_SUCCESS,
    {
        if status == STATUS_SUCCESS {
            Ok(())
        } else {
            Err(CairoError { status })
        }
    }
}

/// A failure of the caller's byte stream, carried as its raw code.
#[derive(Clone, Copy, Debug, PartialEq, Eq, Structural)]
pub struct IoError {
    pub code: u32,
}

/// A failure of one codec call: either the caller's stream failed, or
/// the native library reported a nonzero status.
#[derive(Clone, Copy, Debug, PartialEq, Eq, Structural)]
pub enum Error {
    Io(IoError),
    Cairo(CairoError),
}

impl From<CairoError> for Error {
    fn from(e: CairoError) -> (r: Error) {
        Error::Cairo(e)
    }
}

impl vstd::std_specs::convert::FromSpecImpl<CairoError> for Error {
    open spec fn obeys_from_spec() -> bool {
        true
    }

    open spec fn from_spec(e: CairoError) -> Error {
        Error::Cairo(e)
    }
}

impl From<IoError> for Error {
    fn from(e: IoError) -> (r: Error) {
        Error::Io(e)
    }
}

impl vstd::std_specs::convert::FromSpecImpl<IoError> for Error {
    open spec fn obeys_from_spec() -> bool {
        true
    }

    open spec fn from_spec(e: IoError) -> Error {
        Error::Io(e)
    }
}

/// How one callback-bridged native call ended.
#[derive(Clone, Copy, Debug, PartialEq, Eq, Structural)]
pub enum BridgeOutcome {
    /// The callback itself faulted; the caller must re-raise the fault
    /// after the native resource has been released.
    Fault,
    /// The caller's stream failed inside the callback.
    Stream(IoError),
    /// The native call reported a nonzero status.
    Native(CairoError),
    /// The call completed: no fault, a clean stream, a zero status.
    Completed,
}

/// Settle one bridged call from its three failure channels: whether the
/// callback faulted, what the stream reported, and the native status. A
/// fault wins over everything — the stream's verdict and the status are
/// unreliable once the callback did not finish — and a stream failure
/// wins over the status, which merely reflects the aborted write or
/// read.
pub fn settle_bridge(fault: bool, stream_result: Result<(), IoError>, status: u32) -> (r:
    BridgeOutcome)
    ensures
        fault ==> r == BridgeOutcome::Fault,
        !fault ==> (stream_result matches Err(e) ==> r == BridgeOutcome::Stream(e)),
        !fault && stream_result is Ok && status != STATUS_SUCCESS ==> r == BridgeOutcome::Native(
            CairoError { status },
        ),
        !fault && stream_result is Ok && status == STATUS_SUCCESS ==> r
            == BridgeOutcome::Completed,
{
    if fault {
        BridgeOutcome::Fault
    } else {
        match stream_result {
            Err(e) => BridgeOutcome::Stream(e),
            Ok(()) => {
                match CairoError::check(status) {
                    Err(e) => BridgeOutcome::Native(e),
                    Ok(()) => BridgeOutcome::Completed,
                }
            },
        }
    }
}

/// The pixel layout of a surface. Both supported formats occupy 32 bits
/// per pixel and share one memory representation.
#[derive(Clone, Copy, Debug, PartialEq, Eq, Structural)]
pub enum PixelFormat {
    /// 32 bits per pixel, high byte unused.
    Rgb24,
    /// 32 bits per pixel with an alpha channel.
    Argb32,
}

/// The pixels of a surface as plain values: row-major, one 32-bit value
/// per pixel.
pub struct Argb32Image {
    pub width: usize,
    pub height: usize,
    pub pixels: Vec<u32>,
}

/// An in-memory pixel buffer: a format, two bounded dimensions, and a
/// row-major vector of 32-bit pixels covering them exactly.
pub struct ImageSurface {
    format: PixelFormat,
    width: usize,
    height: usize,
    pixels: Vec<u32>,
}

impl ImageSurface {
    /// The surface's pixel layout.
    pub closed spec fn spec_format(&self) -> PixelFormat {
        self.format
    }

    /// The surface's width in pixels.
    pub closed spec fn spec_width(&self) -> int {
        self.width as int
    }

    /// The surface's height in pixels.
    pub closed spec fn spec_height(&self) -> int {
        self.height as int
    }

    /// The surface's pixels, row-major.
    pub closed spec fn spec_pixels(&self) -> Seq<u32> {
        self.pixels@
    }

    /// The surface invariant: bounded dimensions, exactly covered.
    pub open spec fn wf(&self) -> bool {
        &&& self.spec_width() <= MAX_DIMENSION
        &&& self.spec_height() <= MAX_DIMENSION
        &&& self.spec_pixels().len() == self.spec_width() * self.spec_height()
    }

    fn new(format: PixelFormat, width: usize, height: usize) -> (r: Result<
        ImageSurface,
        CairoError,
    >)
        ensures
            r is Ok <==> width <= MAX_DIMENSION && height <= MAX_DIMENSION,
            r matches Ok(s) ==> s.wf() && s.spec_format() == format && s.spec_width() == width
                && s.spec_height() == height && (forall|k: int|
                0 <= k < s.spec_pixels().len() ==> s.spec_pixels()[k] == 0),
            r matches Err(e) ==> e.status == STATUS_INVALID_SIZE,
    {
        if width > MAX_DIMENSION || height > MAX_DIMENSION {
            return Err(CairoError { status: STATUS_INVALID_SIZE });
        }
        proof {
            assert(width * height <= MAX_DIMENSION * MAX_DIMENSION) by (nonlinear_arith)
                requires
                    width <= MAX_DIMENSION,
                    height <= MAX_DIMENSION,
            ;
        }
        let total = width * height;
        let mut pixels: Vec<u32> = Vec::new();
        let mut k: usize = 0;
        while k < total
            invariant
                k <= total,
                pixels@.len() == k,
                forall|j: int| 0 <= j < k ==> pixels@[j] == 0,
            decreases total - k,
        {
            pixels.push(0);
            k = k + 1;
        }
        Ok(ImageSurface { format, width, height, pixels })
    }

    /// Create a surface in the 24-bit-color format, zeroed, of the given
    /// size in pixels; dimensions past the backend's limit are refused
    /// with the invalid-size status.
    pub fn new_rgb24(width: usize, height: usize) -> (r: Result<ImageSurface, CairoError>)
        ensures
            r is Ok <==> width <= MAX_DIMENSION && height <= MAX_DIMENSION,
            r matches Ok(s) ==> s.wf() && s.spec_format() == PixelFormat::Rgb24 && s.spec_width()
                == width && s.spec_height() == height && (forall|k: int|
                0 <= k < s.spec_pixels().len() ==> s.spec_pixels()[k] == 0),
            r matches Err(e) ==> e.status == STATUS_INVALID_SIZE,
    {
        Self::new(PixelFormat::Rgb24, width, height)
    }

    /// Create a surface in the format with an alpha channel, zeroed, of
    /// the given size in pixels; dimensions past the backend's limit are
    /// refused with the invalid-size status.
    pub fn new_argb32(width: usize, height: usize) -> (r: Result<ImageSurface, CairoError>)
        ensures
            r is Ok <==> width <= MAX_DIMENSION && height <= MAX_DIMENSION,
            r matches Ok(s) ==> s.wf() && s.spec_format() == PixelFormat::Argb32 && s.spec_width()
                == width && s.spec_height() == height && (forall|k: int|
                0 <= k < s.spec_pixels().len() ==> s.spec_pixels()[k] == 0),
            r matches Err(e) ==> e.status == STATUS_INVALID_SIZE,
    {
        Self::new(PixelFormat::Argb32, width, height)
    }

    /// The surface's width in pixels.
    pub fn width(&self) -> (w: usize)
        ensures
            w == self.spec_width(),
    {
        self.width
    }

    /// The surface's height in pixels.
    pub fn height(&self) -> (h: usize)
        ensures
            h == self.spec_height(),
    {
        self.height
    }

    /// The surface's pixel layout.
    pub fn format(&self) -> (f: PixelFormat)
        ensures
            f == self.spec_format(),
    {
        self.format
    }

    /// The pixel at column `x` of row `y`.
    pub fn pixel(&self, x: usize, y: usize) -> (p: u32)
        requires
            self.wf(),
            x < self.spec_width(),
            y < self.spec_height(),
        ensures
            p == self.spec_pixels()[y * self.spec_width() + x],
    {
        proof {
            lemma_row_major_in_bounds(x as int, y as int, self.spec_width(), self.spec_height());
            assert(self.spec_width() * self.spec_height() <= MAX_DIMENSION * MAX_DIMENSION)
                by (nonlinear_arith)
                requires
                    0 <= self.spec_width() <= MAX_DIMENSION,
                    0 <= self.spec_height() <= MAX_DIMENSION,
            ;
        }
        self.pixels[y * self.width + x]
    }

    /// Overwrite the pixel at column `x` of row `y`; every other pixel
    /// and the surface's shape stay as they were.
    pub fn set_pixel(&mut self, x: usize, y: usize, value: u32)
        requires
            old(self).wf(),
            x < old(self).spec_width(),
            y < old(self).spec_height(),
        ensures
            final(self).wf(),
            final(self).spec_format() == old(self).spec_format(),
            final(self).spec_width() == old(self).spec_width(),
            final(self).spec_height() == old(self).spec_height(),
            final(self).spec_pixels() == old(self).spec_pixels().update(
                y * old(self).spec_width() + x,
                value,
            ),
    {
        proof {
            lemma_row_major_in_bounds(x as int, y as int, self.spec_width(), self.spec_height());
            assert(self.spec_width() * self.spec_height() <= MAX_DIMENSION * MAX_DIMENSION)
                by (nonlinear_arith)
                requires
                    0 <= self.spec_width() <= MAX_DIMENSION,
                    0 <= self.spec_height() <= MAX_DIMENSION,
            ;
        }
        let i = y * self.width + x;
        self.pixels[i] = value;
    }

    /// Hand the pixels out as a plain image value, consuming the
    /// surface; the dimensions and every pixel carry over unchanged.
    pub fn into_image(self) -> (img: Argb32Image)
        ensures
            img.width == self.spec_width(),
            img.height == self.spec_height(),
            img.pixels@ == self.spec_pixels(),
    {
        Argb32Image { width: self.width, height: self.height, pixels: self.pixels }
    }
}

/// A row-major index lies inside a `w` by `h` pixel vector.
proof fn lemma_row_major_in_bounds(x: int, y: int, w: int, h: int)
    by (nonlinear_arith)
    requires
        0 <= x < w,
        0 <= y < h,
    ensures
        0 <= y * w + x < w * h,
{
}

} // verus!
