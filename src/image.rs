use vstd::prelude::*;

verus! {

/// Why a pixel buffer was refused as an image.
#[derive(Clone, Copy, Debug, PartialEq, Eq, Structural)]
pub enum ImageError {
    /// Width or height is zero.
    EmptyDimension,
    /// The buffer does not hold exactly four bytes per pixel.
    SizeMismatch,
}

/// A bitmap in RGBA order, four bytes per pixel, row after row.
pub struct RasterImage {
    pub width: usize,
    pub height: usize,
    pub bytes: Vec<u8>,
}

/// Both dimensions are positive and the buffer holds exactly four bytes per pixel.
pub open spec fn valid_image(width: int, height: int, len: int) -> bool {
    width > 0 && height > 0 && len == width * height * 4
}

/// The byte at position `k` once each pixel of `s` has its first and third bytes
/// exchanged; this turns B, G, R, A into R, G, B, A and back.
pub open spec fn swapped_byte(s: Seq<u8>, k: int) -> u8 {
    if k % 4 == 0 {
        s[k + 2]
    } else if k % 4 == 2 {
        s[k - 2]
    } else {
        s[k]
    }
}

/// `s` with the first and third bytes of each four-byte pixel exchanged.
pub open spec fn swap_red_blue(s: Seq<u8>) -> Seq<u8> {
    Seq::new(s.len(), |k: int| swapped_byte(s, k))
}

impl RasterImage {
    /// The image's dimensions agree with its buffer.
    pub open spec fn wf(&self) -> bool {
        valid_image(self.width as int, self.height as int, self.bytes@.len() as int)
    }

    /// Whether the dimensions agree with the buffer.
    pub fn is_well_formed(&self) -> (r: bool)
        ensures
            r == self.wf(),
    {
        match check_dimensions(self.width, self.height, self.bytes.len()) {
            Ok(()) => true,
            Err(_) => false,
        }
    }

    /// An image from an RGBA buffer, refused where the dimensions do not fit the buffer.
    pub fn new(width: usize, height: usize, bytes: Vec<u8>) -> (r: Result<RasterImage, ImageError>)
        ensures
            r is Ok <==> valid_image(width as int, height as int, bytes@.len() as int),
            r matches Ok(img) ==> img.width == width && img.height == height && img.bytes@ == bytes@,
            r matches Err(e) ==> e == (if width == 0 || height == 0 {
                ImageError::EmptyDimension
            } else {
                ImageError::SizeMismatch
            }),
    {
        match check_dimensions(width, height, bytes.len()) {
            Ok(()) => Ok(RasterImage { width, height, bytes }),
            Err(e) => Err(e),
        }
    }

    /// An image from the buffer of a 32-bit ARGB surface as laid out in memory on a
    /// little-endian machine (B, G, R, A per pixel), converted to RGBA.
    pub fn from_argb32(width: usize, height: usize, data: &Vec<u8>) -> (r: Result<RasterImage, ImageError>)
        ensures
            r is Ok <==> valid_image(width as int, height as int, data@.len() as int),
            r matches Ok(img) ==> img.width == width && img.height == height && img.bytes@
                == swap_red_blue(data@),
            r matches Err(e) ==> e == (if width == 0 || height == 0 {
                ImageError::EmptyDimension
            } else {
                ImageError::SizeMismatch
            }),
    {
        match check_dimensions(width, height, data.len()) {
            Ok(()) => {
                proof {
                    assert(data@.len() % 4 == 0) by (nonlinear_arith)
                        requires
                            data@.len() == width * height * 4,
                    ;
                }
                let bytes = swap_red_blue_bytes(data);
                Ok(RasterImage { width, height, bytes })
            },
            Err(e) => Err(e),
        }
    }
}

/// Checks that `len` is the byte length of a `width` by `height` image.
fn check_dimensions(width: usize, height: usize, len: usize) -> (r: Result<(), ImageError>)
    ensures
        r is Ok <==> valid_image(width as int, height as int, len as int),
        r matches Err(e) ==> e == (if width == 0 || height == 0 {
            ImageError::EmptyDimension
        } else {
            ImageError::SizeMismatch
        }),
{
    if width == 0 || height == 0 {
        return Err(ImageError::EmptyDimension);
    }
    match width.checked_mul(height) {
        Some(pixels) => match pixels.checked_mul(4) {
            Some(size) => {
                if size == len {
                    Ok(())
                } else {
                    Err(ImageError::SizeMismatch)
                }
            },
            None => Err(ImageError::SizeMismatch),
        },
        None => {
            proof {
                assert(width * height * 4 >= width * height) by (nonlinear_arith);
            }
            Err(ImageError::SizeMismatch)
        },
    }
}

/// Exchanges the first and third bytes of each pixel of a buffer of whole pixels.
pub fn swap_red_blue_bytes(data: &Vec<u8>) -> (r: Vec<u8>)
    requires
        data@.len() % 4 == 0,
    ensures
        r@ == swap_red_blue(data@),
{
    let n = data.len();
    let mut out: Vec<u8> = Vec::with_capacity(n);
    let mut k: usize = 0;
    while k < n
        invariant
            k <= n,
            n == data@.len(),
            n % 4 == 0,
            k % 4 == 0,
            out@ =~= swap_red_blue(data@).subrange(0, k as int),
        decreases n - k,
    {
        out.push(data[k + 2]);
        out.push(data[k + 1]);
        out.push(data[k]);
        out.push(data[k + 3]);
        assert(out@ =~= swap_red_blue(data@).subrange(0, k + 4));
        k = k + 4;
    }
    out
}

} // verus!
