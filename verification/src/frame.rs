//! From a decoded video frame to an image. A frame of packed 24-bit RGB
//! holds its rows `stride` bytes apart, each row being the bytes of its
//! pixels and then padding; the image holds the rows without the padding.

use vstd::prelude::*;
use vstd::slice::slice_subrange;
use image::DynamicImage;
use crate::error::ApiError;
use crate::raster::image_bytes;
use crate::raster::image_height;
use crate::raster::image_layout;
use crate::raster::image_width;
use crate::raster::rgb_image;
use crate::raster::ColorLayout;
use crate::raster::RGB_BYTES;

verus! {

/// How many bytes the pixels of a row take.
pub open spec fn row_len(width: u32) -> int {
    RGB_BYTES * width
}

/// Whether every row of the frame lies within its data.
pub open spec fn rows_fit(len: int, stride: int, width: u32, height: u32) -> bool {
    height == 0 || (height - 1) * stride + row_len(width) <= len
}

/// The first `n` rows of a frame, one after the other, without padding.
pub open spec fn packed_rows(data: Seq<u8>, stride: int, row: int, n: nat) -> Seq<u8>
    decreases n,
{
    if n == 0 {
        Seq::<u8>::empty()
    } else {
        packed_rows(data, stride, row, (n - 1) as nat) + data.subrange(
            (n - 1) * stride,
            (n - 1) * stride + row,
        )
    }
}

/// Row `y` begins within the data where the last row does.
proof fn lemma_row_offset(y: int, n: int, stride: int)
    requires
        0 <= y < n,
        0 <= stride,
    ensures
        0 <= y * stride <= (n - 1) * stride,
{
    assert(0 <= y * stride <= (n - 1) * stride) by (nonlinear_arith)
        requires
            0 <= y <= n - 1,
            0 <= stride,
    ;
}

/// The packed rows hold `n` times the bytes of a row, and byte `x` of row
/// `y` is the byte that the frame holds at `y * stride + x`.
pub proof fn lemma_packed_rows(data: Seq<u8>, stride: int, row: int, n: nat)
    requires
        0 <= stride,
        0 <= row,
        n == 0 || (n - 1) * stride + row <= data.len(),
    ensures
        packed_rows(data, stride, row, n).len() == n * row,
        forall|y: int, x: int|
            0 <= y < n && 0 <= x < row ==> #[trigger] packed_rows(data, stride, row, n)[y * row
                + x] == data[y * stride + x],
    decreases n,
{
    if n > 0 {
        let m = (n - 1) as nat;
        if m > 0 {
            lemma_row_offset(m - 1, n as int, stride);
        }
        lemma_packed_rows(data, stride, row, m);
        let head = packed_rows(data, stride, row, m);
        let all = packed_rows(data, stride, row, n);
        assert(n * row == m * row + row) by (nonlinear_arith)
            requires
                n == m + 1,
        ;
        assert forall|y: int, x: int| 0 <= y < n && 0 <= x < row implies #[trigger] all[y * row
            + x] == data[y * stride + x] by {
            if y < m {
                assert(y * row + x < m * row) by (nonlinear_arith)
                    requires
                        0 <= y < m,
                        0 <= x < row,
                ;
            }
        }
    }
}

/// The rows of a frame without their padding, or `None` where a row would
/// end past the data.
pub fn pack_rows(data: &[u8], stride: usize, width: u32, height: u32) -> (r: Option<Vec<u8>>)
    ensures
        r is Some <==> rows_fit(data@.len() as int, stride as int, width, height),
        r matches Some(packed) ==> packed@ == packed_rows(
            data@,
            stride as int,
            row_len(width),
            height as nat,
        ),
{
    let mut packed: Vec<u8> = Vec::new();
    if height == 0 {
        return Some(packed);
    }
    let last: u128 = (height - 1) as u128;
    assert(last * stride <= 0xffff_ffff * 0xffff_ffff_ffff_ffff) by (nonlinear_arith)
        requires
            0 <= last <= 0xffff_ffff,
            0 <= stride <= 0xffff_ffff_ffff_ffff,
    ;
    let end: u128 = last * (stride as u128) + 3 * (width as u128);
    let len = data.len();
    if end > len as u128 {
        return None;
    }
    let row: usize = 3 * (width as usize);
    let mut y: u32 = 0;
    while y < height
        invariant
            0 <= y <= height,
            row == row_len(width),
            len == data@.len(),
            (height - 1) * stride + row <= len,
            packed@ == packed_rows(data@, stride as int, row as int, y as nat),
        decreases height - y,
    {
        proof {
            lemma_row_offset(y as int, height as int, stride as int);
        }
        let offset: usize = (y as usize) * stride;
        let pixels = slice_subrange(data, offset, offset + row);
        packed.extend_from_slice(pixels);
        y = y + 1;
    }
    Some(packed)
}

/// The image of a frame of packed 24-bit RGB, or a `DecodeError` where a
/// row would end past the data.
pub fn frame_image(data: &[u8], stride: usize, width: u32, height: u32) -> (r: Result<
    DynamicImage,
    ApiError,
>)
    ensures
        r is Ok <==> rows_fit(data@.len() as int, stride as int, width, height),
        r matches Ok(img) ==> {
            &&& image_layout(img) == ColorLayout::Rgb8
            &&& image_width(img) == width
            &&& image_height(img) == height
            &&& image_bytes(img) == packed_rows(
                data@,
                stride as int,
                row_len(width),
                height as nat,
            )
        },
        r matches Err(e) ==> e matches ApiError::DecodeError(words) && words@
            == "frame ends before its last row"@,
{
    match pack_rows(data, stride, width, height) {
        Some(packed) => {
            proof {
                lemma_packed_rows(data@, stride as int, row_len(width), height as nat);
            }
            match rgb_image(width, height, packed) {
                Some(img) => Ok(img),
                None => Err(ApiError::DecodeError("frame does not fill its image".to_owned())),
            }
        },
        None => Err(ApiError::DecodeError("frame ends before its last row".to_owned())),
    }
}

} // verus!
