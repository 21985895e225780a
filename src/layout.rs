//! The resolved layout of one frame, read from fixed caps.
use vstd::prelude::*;
use crate::caps::{Caps, CapsStructure, PixelFormat};

verus! {

/// Format, size and row stride of a frame in one buffer.
#[derive(Clone, Copy, Debug, PartialEq, Eq, Structural)]
pub struct FrameLayout {
    pub format: PixelFormat,
    pub width: u32,
    pub height: u32,
    /// Bytes from the start of one row to the start of the next.
    pub stride: usize,
}

/// How many bytes one pixel takes in the format.
pub open spec fn bytes_per_pixel(f: PixelFormat) -> int {
    match f {
        PixelFormat::PackedColor => 4,
        PixelFormat::Luma8 => 1,
    }
}

/// The stride of a tightly packed frame, rows rounded up to a multiple of four bytes.
pub open spec fn default_stride(f: PixelFormat, width: int) -> int {
    match f {
        PixelFormat::PackedColor => 4 * width,
        PixelFormat::Luma8 => (width + 3) / 4 * 4,
    }
}

impl FrameLayout {
    /// Rows hold at least `width` pixels and the whole frame fits in memory.
    pub open spec fn wf(&self) -> bool {
        &&& self.width >= 1
        &&& self.height >= 1
        &&& self.stride >= self.width * bytes_per_pixel(self.format)
        &&& self.stride * self.height <= usize::MAX
    }

    /// The number of bytes that the frame takes.
    pub open spec fn size_spec(&self) -> int {
        self.stride * self.height
    }

    /// The number of bytes that the frame takes.
    pub fn size(&self) -> (r: usize)
        requires
            self.wf(),
        ensures
            r == self.size_spec(),
    {
        self.stride * (self.height as usize)
    }
}

/// Whether a structure pins down exactly one frame size and rate.
pub open spec fn is_fixed(s: CapsStructure) -> bool {
    &&& s.width.min == s.width.max
    &&& s.height.min == s.height.max
    &&& s.framerate.min == s.framerate.max
}

/// The layout described by caps: they must hold one fixed structure with a
/// non-empty frame whose size fits in memory.
pub open spec fn parse_layout(caps: Seq<CapsStructure>) -> Option<FrameLayout> {
    if caps.len() != 1 {
        None
    } else {
        let s = caps[0];
        let stride = default_stride(s.format, s.width.min as int);
        if !is_fixed(s) || s.width.min < 1 || s.height.min < 1 || stride * s.height.min
            > usize::MAX {
            None
        } else {
            Some(
                FrameLayout {
                    format: s.format,
                    width: s.width.min,
                    height: s.height.min,
                    stride: stride as usize,
                },
            )
        }
    }
}

/// A layout read from caps is well formed.
pub proof fn lemma_parsed_layout_wf(caps: Seq<CapsStructure>)
    ensures
        parse_layout(caps) matches Some(l) ==> l.wf(),
{
    if caps.len() == 1 {
        let s = caps[0];
        let stride = default_stride(s.format, s.width.min as int);
        if s.height.min >= 1 && stride >= 0 {
            assert(stride * s.height.min >= stride) by (nonlinear_arith)
                requires
                    s.height.min >= 1,
                    stride >= 0,
            ;
        }
    }
}

/// The default stride of a row of `width` pixels, or `None` if it overflows.
fn stride_for(format: PixelFormat, width: u32) -> (r: Option<usize>)
    ensures
        r == (if default_stride(format, width as int) <= usize::MAX {
            Some(default_stride(format, width as int) as usize)
        } else {
            None
        }),
{
    let w = width as usize;
    match format {
        PixelFormat::PackedColor => w.checked_mul(4),
        PixelFormat::Luma8 => match w.checked_add(3) {
            Some(v) => (v / 4).checked_mul(4),
            None => None,
        },
    }
}

impl FrameLayout {
    /// Reads the layout from caps; `None` where the caps are not fixed, the
    /// frame is empty, or its size does not fit in memory.
    pub fn from_caps(caps: &Caps) -> (r: Option<FrameLayout>)
        ensures
            r == parse_layout(caps@),
            r matches Some(l) ==> l.wf(),
    {
        if caps.structures.len() != 1 {
            return None;
        }
        let s = caps.structures[0];
        if s.width.min != s.width.max || s.height.min != s.height.max || s.framerate.min
            != s.framerate.max || s.width.min < 1 || s.height.min < 1 {
            return None;
        }
        proof {
            lemma_parsed_layout_wf(caps@);
        }
        let ghost stride_int = default_stride(s.format, s.width.min as int);
        assert(stride_int * s.height.min >= stride_int) by (nonlinear_arith)
            requires
                s.height.min >= 1,
                stride_int >= 0,
        ;
        match stride_for(s.format, s.width.min) {
            None => None,
            Some(stride) => match stride.checked_mul(s.height.min as usize) {
                None => None,
                Some(_) => Some(
                    FrameLayout {
                        format: s.format,
                        width: s.width.min,
                        height: s.height.min,
                        stride,
                    },
                ),
            },
        }
    }
}

/// The size of the buffer that a frame described by `caps` needs, or `None`
/// where the caps do not describe one frame layout.
pub fn unit_size(caps: &Caps) -> (r: Option<usize>)
    ensures
        r == (match parse_layout(caps@) {
            Some(l) => Some(l.size_spec() as usize),
            None => None,
        }),
{
    match FrameLayout::from_caps(caps) {
        Some(l) => Some(l.size()),
        None => None,
    }
}

} // verus!
