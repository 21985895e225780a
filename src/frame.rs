//! Conversion of whole frames from packed color to grayscale, row by row,
//! honouring the row stride of each buffer.
use vstd::prelude::*;
use crate::caps::PixelFormat;
use crate::layout::{bytes_per_pixel, FrameLayout};
use crate::luma::{lemma_luma_of_gray, luma, luma_spec};
use vstd::arithmetic::div_mod::{lemma_fundamental_div_mod, lemma_fundamental_div_mod_converse};

verus! {

/// Why a frame could not be converted.
#[derive(Clone, Copy, Debug, PartialEq, Eq, Structural)]
pub enum TransformError {
    /// No input and output layouts have been agreed on.
    NotNegotiated,
    /// A buffer's length, stride or row count does not fit its layout.
    BufferLayout,
    /// The pair of formats is not one of the supported conversions.
    UnsupportedFormat,
}

/// Packed color can be turned into packed gray or into luma bytes; nothing else is supported.
pub open spec fn supported_pair(input: PixelFormat, output: PixelFormat) -> bool {
    input == PixelFormat::PackedColor
}

/// The buffers hold whole rows, the same number of them, and each row is wide
/// enough for the input layout's width in its own format.
pub open spec fn buffers_fit(il: FrameLayout, ol: FrameLayout, in_len: int, out_len: int) -> bool {
    &&& il.stride > 0
    &&& ol.stride > 0
    &&& in_len % (il.stride as int) == 0
    &&& out_len % (ol.stride as int) == 0
    &&& in_len / (il.stride as int) == out_len / (ol.stride as int)
    &&& il.width * bytes_per_pixel(il.format) <= il.stride
    &&& il.width * bytes_per_pixel(ol.format) <= ol.stride
}

/// What converting a frame between the two layouts returns.
pub open spec fn frame_result(il: FrameLayout, ol: FrameLayout, in_len: int, out_len: int) -> Result<
    (),
    TransformError,
> {
    if !supported_pair(il.format, ol.format) {
        Err(TransformError::UnsupportedFormat)
    } else if !buffers_fit(il, ol, in_len, out_len) {
        Err(TransformError::BufferLayout)
    } else {
        Ok(())
    }
}

/// The luminance of the packed pixel that starts at byte `off`.
pub open spec fn luma_at(input: Seq<u8>, off: int) -> u8 {
    luma_spec(input[off] as int, input[off + 1] as int, input[off + 2] as int) as u8
}

/// The value of the output byte at `col` in row `row` after conversion,
/// `prev` being its value before.  Channels past the last color channel of a
/// pixel and padding past the row's pixels keep their value.
pub open spec fn converted_byte(
    il: FrameLayout,
    ol: FrameLayout,
    input: Seq<u8>,
    row: int,
    col: int,
    prev: u8,
) -> u8 {
    let w = il.width as int;
    let src = row * il.stride;
    match ol.format {
        PixelFormat::PackedColor => if col < 4 * w && col % 4 < 3 {
            luma_at(input, src + col / 4 * 4)
        } else {
            prev
        },
        PixelFormat::Luma8 => if col < w {
            luma_at(input, src + 4 * col)
        } else {
            prev
        },
    }
}

/// The output buffer `out` after converting the frame in `input` into it.
pub open spec fn converted_frame(il: FrameLayout, ol: FrameLayout, input: Seq<u8>, out: Seq<u8>) -> Seq<u8> {
    Seq::new(
        out.len(),
        |i: int| converted_byte(il, ol, input, i / (ol.stride as int), i % (ol.stride as int), out[i]),
    )
}

/// Writes the luminance of each of `width` packed pixels into the three color
/// channels of the matching output pixel.
fn gray_row_packed(input: &[u8], in_off: usize, output: &mut [u8], out_off: usize, width: usize)
    requires
        in_off + 4 * width <= input@.len(),
        out_off + 4 * width <= old(output)@.len(),
    ensures
        final(output)@.len() == old(output)@.len(),
        forall|i: int|
            0 <= i < old(output)@.len() ==> final(output)@[i] == (if out_off <= i < out_off + 4
                * width && (i - out_off) % 4 < 3 {
                luma_at(input@, in_off + (i - out_off) / 4 * 4)
            } else {
                old(output)@[i]
            }),
{
    let in_len = input.len();
    let out_len = output.len();
    let mut x: usize = 0;
    while x < width
        invariant
            x <= width,
            in_len == input@.len(),
            out_len == output@.len(),
            in_off + 4 * width <= input@.len(),
            out_off + 4 * width <= old(output)@.len(),
            output@.len() == old(output)@.len(),
            forall|i: int|
                0 <= i < old(output)@.len() ==> output@[i] == (if out_off <= i < out_off + 4 * x
                    && (i - out_off) % 4 < 3 {
                    luma_at(input@, in_off + (i - out_off) / 4 * 4)
                } else {
                    old(output)@[i]
                }),
        decreases width - x,
    {
        let p = in_off + 4 * x;
        let o = out_off + 4 * x;
        let gray = luma(input[p], input[p + 1], input[p + 2]);
        output[o] = gray;
        output[o + 1] = gray;
        output[o + 2] = gray;
        x = x + 1;
    }
}

/// Writes the luminance of each of `width` packed pixels as one byte.
fn gray_row_luma(input: &[u8], in_off: usize, output: &mut [u8], out_off: usize, width: usize)
    requires
        in_off + 4 * width <= input@.len(),
        out_off + width <= old(output)@.len(),
    ensures
        final(output)@.len() == old(output)@.len(),
        forall|i: int|
            0 <= i < old(output)@.len() ==> final(output)@[i] == (if out_off <= i < out_off
                + width {
                luma_at(input@, in_off + 4 * (i - out_off))
            } else {
                old(output)@[i]
            }),
{
    let in_len = input.len();
    let out_len = output.len();
    let mut x: usize = 0;
    while x < width
        invariant
            x <= width,
            in_len == input@.len(),
            out_len == output@.len(),
            in_off + 4 * width <= input@.len(),
            out_off + width <= old(output)@.len(),
            output@.len() == old(output)@.len(),
            forall|i: int|
                0 <= i < old(output)@.len() ==> output@[i] == (if out_off <= i < out_off + x {
                    luma_at(input@, in_off + 4 * (i - out_off))
                } else {
                    old(output)@[i]
                }),
        decreases width - x,
    {
        let p = in_off + 4 * x;
        output[out_off + x] = luma(input[p], input[p + 1], input[p + 2]);
        x = x + 1;
    }
}

/// Byte `i` of a buffer with rows of `s` bytes lies in row `r` at column `i - r * s`.
proof fn lemma_row_col(i: int, r: int, s: int)
    requires
        s > 0,
        r * s <= i < r * s + s,
    ensures
        i / s == r,
        i % s == i - r * s,
{
    lemma_fundamental_div_mod_converse(i, s, r, i - r * s);
}

/// A buffer of `len` bytes with `len % s == 0` holds `len / s` whole rows, and
/// row `r` of them ends within it.
proof fn lemma_row_in_bounds(len: int, s: int, r: int)
    requires
        s > 0,
        len >= 0,
        len % s == 0,
        0 <= r < len / s,
    ensures
        r * s + s <= len,
        (r + 1) * s == r * s + s,
{
    lemma_fundamental_div_mod(len, s);
    let rows = len / s;
    assert(r * s + s <= rows * s) by (nonlinear_arith)
        requires
            r < rows,
            s > 0,
    ;
    assert((r + 1) * s == r * s + s) by (nonlinear_arith);
    assert(s * rows == rows * s) by (nonlinear_arith);
}

/// Converts the packed color frame in `input`, laid out as `il`, into
/// `output`, laid out as `ol`.  Every check is made before the first byte is
/// written: on an error `output` is left as it was.  The input layout's width
/// sets the number of pixels in every row of both buffers.
pub fn convert_frame(il: &FrameLayout, ol: &FrameLayout, input: &[u8], output: &mut [u8]) -> (r:
    Result<(), TransformError>)
    ensures
        r == frame_result(*il, *ol, input@.len() as int, old(output)@.len() as int),
        r is Ok ==> final(output)@ == converted_frame(*il, *ol, input@, old(output)@),
        r is Err ==> final(output)@ == old(output)@,
{
    if il.format != PixelFormat::PackedColor {
        return Err(TransformError::UnsupportedFormat);
    }
    let in_len = input.len();
    let out_len = output.len();
    let is = il.stride;
    let os = ol.stride;
    let width = il.width as usize;
    if is == 0 || os == 0 || in_len % is != 0 || out_len % os != 0 || in_len / is != out_len / os {
        return Err(TransformError::BufferLayout);
    }
    let out_bpp: usize = match ol.format {
        PixelFormat::PackedColor => 4,
        PixelFormat::Luma8 => 1,
    };
    if width > is / 4 || width > os / out_bpp {
        return Err(TransformError::BufferLayout);
    }
    assert(width * 4 <= is && width * out_bpp <= os);
    let rows = in_len / is;
    let ghost old_out = output@;
    let mut row: usize = 0;
    let mut in_off: usize = 0;
    let mut out_off: usize = 0;
    while row < rows
        invariant
            supported_pair(il.format, ol.format),
            buffers_fit(*il, *ol, in_len as int, out_len as int),
            is == il.stride,
            os == ol.stride,
            width == il.width,
            out_bpp == bytes_per_pixel(ol.format),
            in_len == input@.len(),
            out_len == old_out.len(),
            rows == in_len / is,
            rows == out_len / os,
            row <= rows,
            in_off == row * is,
            out_off == row * os,
            output@.len() == old_out.len(),
            forall|i: int|
                0 <= i < old_out.len() ==> output@[i] == (if i < out_off {
                    converted_byte(*il, *ol, input@, i / (os as int), i % (os as int), old_out[i])
                } else {
                    old_out[i]
                }),
        decreases rows - row,
    {
        proof {
            lemma_row_in_bounds(in_len as int, is as int, row as int);
            lemma_row_in_bounds(out_len as int, os as int, row as int);
        }
        let ghost before = output@;
        match ol.format {
            PixelFormat::PackedColor => gray_row_packed(input, in_off, output, out_off, width),
            PixelFormat::Luma8 => gray_row_luma(input, in_off, output, out_off, width),
        }
        proof {
            assert forall|i: int| 0 <= i < old_out.len() implies output@[i] == (if i < out_off
                + os {
                converted_byte(*il, *ol, input@, i / (os as int), i % (os as int), old_out[i])
            } else {
                old_out[i]
            }) by {
                if out_off <= i < out_off + os {
                    lemma_row_col(i, row as int, os as int);
                }
            }
        }
        row = row + 1;
        in_off = in_off + is;
        out_off = out_off + os;
    }
    proof {
        lemma_fundamental_div_mod(out_len as int, os as int);
        assert(out_off == out_len) by (nonlinear_arith)
            requires
                out_off == row * os,
                row == rows,
                out_len as int == os * rows + (out_len as int) % (os as int),
                (out_len as int) % (os as int) == 0,
        ;
        assert(output@ =~= converted_frame(*il, *ol, input@, old_out));
    }
    Ok(())
}

/// Grayscale is a fixed point of the packed color conversion: a frame
/// converted to packed gray, converted once more with its own layout on both
/// sides, stays byte for byte the same.  The output layout may not be wider
/// than the input one, whose width decided which pixels were made gray.
pub proof fn lemma_gray_frame_fixed_point(il: FrameLayout, ol: FrameLayout, input: Seq<u8>, out: Seq<u8>)
    requires
        ol.format == PixelFormat::PackedColor,
        ol.width <= il.width,
        frame_result(il, ol, input.len() as int, out.len() as int) is Ok,
    ensures
        frame_result(
            ol,
            ol,
            converted_frame(il, ol, input, out).len() as int,
            converted_frame(il, ol, input, out).len() as int,
        ) is Ok,
        converted_frame(ol, ol, converted_frame(il, ol, input, out), converted_frame(il, ol, input, out))
            == converted_frame(il, ol, input, out),
{
    let once = converted_frame(il, ol, input, out);
    let twice = converted_frame(ol, ol, once, once);
    let s = ol.stride as int;
    let w = ol.width as int;
    let n = out.len() as int;
    lemma_fundamental_div_mod(n, s);
    assert forall|i: int| 0 <= i < n implies twice[i] == once[i] by {
        let r = i / s;
        let c = i % s;
        lemma_fundamental_div_mod(i, s);
        if c < 4 * w && c % 4 < 3 {
            let q = c / 4 * 4;
            let p = r * s + q;
            let l = luma_at(input, r * il.stride + q);
            assert(r < n / s) by (nonlinear_arith)
                requires
                    i == s * r + c,
                    0 <= c < s,
                    i < n,
                    n == s * (n / s),
            ;
            assert(r * s + s <= n) by (nonlinear_arith)
                requires
                    r < n / s,
                    n == s * (n / s),
                    s > 0,
            ;
            assert(s * r == r * s) by (nonlinear_arith);
            lemma_row_col(p, r, s);
            lemma_row_col(p + 1, r, s);
            lemma_row_col(p + 2, r, s);
            assert(once[p] == l && once[p + 1] == l && once[p + 2] == l);
            lemma_luma_of_gray(l as int);
        }
    }
    assert(twice =~= once);
}

} // verus!
