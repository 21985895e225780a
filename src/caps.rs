//! Capability descriptors and the derivation of one pad's caps from the other's.
use vstd::prelude::*;

verus! {

/// The two pixel layouts the filter knows.
#[derive(Clone, Copy, Debug, PartialEq, Eq, Structural)]
pub enum PixelFormat {
    /// Four bytes per pixel: blue, green, red, then an unused byte.
    PackedColor,
    /// One luminance byte per pixel.
    Luma8,
}

/// An inclusive range of integers.
#[derive(Clone, Copy, Debug, PartialEq, Eq, Structural)]
pub struct IntRange {
    pub min: u32,
    pub max: u32,
}

/// A rational number `num / den`.
#[derive(Clone, Copy, Debug, PartialEq, Eq, Structural)]
pub struct Fraction {
    pub num: u32,
    pub den: u32,
}

/// An inclusive range of fractions.
#[derive(Clone, Copy, Debug, PartialEq, Eq, Structural)]
pub struct FractionRange {
    pub min: Fraction,
    pub max: Fraction,
}

/// One structure of a caps set: a format with ranges for the frame size and rate.
#[derive(Clone, Copy, Debug, PartialEq, Eq, Structural)]
pub struct CapsStructure {
    pub format: PixelFormat,
    pub width: IntRange,
    pub height: IntRange,
    pub framerate: FractionRange,
}

/// An ordered set of caps structures, most preferred first.
#[derive(Clone, Debug)]
pub struct Caps {
    pub structures: Vec<CapsStructure>,
}

/// The pad whose caps are given to `transform_caps`.
#[derive(Clone, Copy, Debug, PartialEq, Eq, Structural)]
pub enum PadDirection {
    /// The given caps are those of the output pad; the result is for the input
    /// pad, the side that produces the frames.
    Src,
    /// The given caps are those of the input pad; the result is for the output
    /// pad, the side that consumes the frames.
    Sink,
}

impl View for Caps {
    type V = Seq<CapsStructure>;

    open spec fn view(&self) -> Seq<CapsStructure> {
        self.structures@
    }
}

/// `a <= b` as rational numbers, compared by cross multiplication.
pub open spec fn frac_le(a: Fraction, b: Fraction) -> bool {
    a.num as int * b.den as int <= b.num as int * a.den as int
}

/// The integers that both ranges hold; empty when `min > max`.
pub open spec fn int_range_meet(a: IntRange, b: IntRange) -> IntRange {
    IntRange {
        min: if a.min >= b.min { a.min } else { b.min },
        max: if a.max <= b.max { a.max } else { b.max },
    }
}

/// The fractions that both ranges hold; empty when `max < min`.
pub open spec fn frac_range_meet(a: FractionRange, b: FractionRange) -> FractionRange {
    FractionRange {
        min: if frac_le(b.min, a.min) { a.min } else { b.min },
        max: if frac_le(a.max, b.max) { a.max } else { b.max },
    }
}

/// The structure that both `a` and `b` describe.
pub open spec fn structure_meet(a: CapsStructure, b: CapsStructure) -> CapsStructure {
    CapsStructure {
        format: a.format,
        width: int_range_meet(a.width, b.width),
        height: int_range_meet(a.height, b.height),
        framerate: frac_range_meet(a.framerate, b.framerate),
    }
}

/// Two structures are compatible when they name the same format and their
/// ranges overlap.
pub open spec fn compatible(a: CapsStructure, b: CapsStructure) -> bool {
    let m = structure_meet(a, b);
    &&& a.format == b.format
    &&& m.width.min <= m.width.max
    &&& m.height.min <= m.height.max
    &&& frac_le(m.framerate.min, m.framerate.max)
}

/// The meet of `f` with the first candidate at or after `i` that is compatible with it.
pub open spec fn first_match_from(f: CapsStructure, cands: Seq<CapsStructure>, i: int) -> Option<
    CapsStructure,
>
    decreases cands.len() - i,
{
    if i < 0 || i >= cands.len() {
        None
    } else if compatible(f, cands[i]) {
        Some(structure_meet(f, cands[i]))
    } else {
        first_match_from(f, cands, i + 1)
    }
}

/// A present structure as a one-element sequence, an absent one as none.
pub open spec fn option_seq(o: Option<CapsStructure>) -> Seq<CapsStructure> {
    match o {
        Some(s) => seq![s],
        None => Seq::empty(),
    }
}

/// Intersection that follows the filter's order: for each filter structure in
/// turn, its meet with the first compatible candidate, if any.
pub open spec fn intersect_first(filter: Seq<CapsStructure>, cands: Seq<CapsStructure>) -> Seq<
    CapsStructure,
>
    decreases filter.len(),
{
    if filter.len() == 0 {
        Seq::empty()
    } else {
        intersect_first(filter.drop_last(), cands) + option_seq(
            first_match_from(filter.last(), cands, 0),
        )
    }
}

/// `s` with its format replaced by `f`.
pub open spec fn with_format(s: CapsStructure, f: PixelFormat) -> CapsStructure {
    CapsStructure { format: f, ..s }
}

/// Every structure of `s` with its format replaced by `f`.
pub open spec fn all_with_format(s: Seq<CapsStructure>, f: PixelFormat) -> Seq<CapsStructure> {
    Seq::new(s.len(), |i: int| with_format(s[i], f))
}

/// The caps offered on the other pad before any filter is applied.
pub open spec fn other_side(direction: PadDirection, caps: Seq<CapsStructure>) -> Seq<
    CapsStructure,
> {
    match direction {
        PadDirection::Src => all_with_format(caps, PixelFormat::PackedColor),
        PadDirection::Sink => all_with_format(caps, PixelFormat::Luma8) + caps,
    }
}

/// The caps that `transform_caps` returns.
pub open spec fn transformed_caps(
    direction: PadDirection,
    caps: Seq<CapsStructure>,
    filter: Option<Seq<CapsStructure>>,
) -> Seq<CapsStructure> {
    match filter {
        Some(f) => intersect_first(f, other_side(direction, caps)),
        None => other_side(direction, caps),
    }
}

/// Whether `a <= b` as rational numbers.
pub fn fraction_le(a: Fraction, b: Fraction) -> (r: bool)
    ensures
        r == frac_le(a, b),
{
    let (an, ad, bn, bd) = (a.num as u64, a.den as u64, b.num as u64, b.den as u64);
    assert(an * bd <= u32::MAX * u32::MAX && bn * ad <= u32::MAX * u32::MAX) by (nonlinear_arith)
        requires
            an <= u32::MAX,
            ad <= u32::MAX,
            bn <= u32::MAX,
            bd <= u32::MAX,
    ;
    an * bd <= bn * ad
}

/// The part of the frame size, rate and format that two structures share.
pub fn meet(a: &CapsStructure, b: &CapsStructure) -> (r: CapsStructure)
    ensures
        r == structure_meet(*a, *b),
{
    CapsStructure {
        format: a.format,
        width: IntRange {
            min: if a.width.min >= b.width.min { a.width.min } else { b.width.min },
            max: if a.width.max <= b.width.max { a.width.max } else { b.width.max },
        },
        height: IntRange {
            min: if a.height.min >= b.height.min { a.height.min } else { b.height.min },
            max: if a.height.max <= b.height.max { a.height.max } else { b.height.max },
        },
        framerate: FractionRange {
            min: if fraction_le(b.framerate.min, a.framerate.min) {
                a.framerate.min
            } else {
                b.framerate.min
            },
            max: if fraction_le(a.framerate.max, b.framerate.max) {
                a.framerate.max
            } else {
                b.framerate.max
            },
        },
    }
}

/// Whether the two structures describe at least one common frame.
pub fn can_intersect(a: &CapsStructure, b: &CapsStructure) -> (r: bool)
    ensures
        r == compatible(*a, *b),
{
    let m = meet(a, b);
    a.format == b.format && m.width.min <= m.width.max && m.height.min <= m.height.max
        && fraction_le(m.framerate.min, m.framerate.max)
}

/// The meet of `f` with the first compatible candidate.
pub fn first_match(f: &CapsStructure, cands: &Vec<CapsStructure>) -> (r: Option<CapsStructure>)
    ensures
        r == first_match_from(*f, cands@, 0),
{
    let mut i: usize = 0;
    while i < cands.len()
        invariant
            i <= cands@.len(),
            first_match_from(*f, cands@, 0) == first_match_from(*f, cands@, i as int),
        decreases cands.len() - i,
    {
        if can_intersect(f, &cands[i]) {
            return Some(meet(f, &cands[i]));
        }
        i = i + 1;
    }
    None
}

impl Caps {
    /// Caps with no structure.
    pub fn new_empty() -> (r: Caps)
        ensures
            r@ == Seq::<CapsStructure>::empty(),
    {
        Caps { structures: Vec::new() }
    }

    /// Caps with the single given structure.
    pub fn from_structure(s: CapsStructure) -> (r: Caps)
        ensures
            r@ == seq![s],
    {
        let mut v: Vec<CapsStructure> = Vec::new();
        v.push(s);
        Caps { structures: v }
    }

    /// Appends a structure at the end, as the least preferred.
    pub fn append_structure(&mut self, s: CapsStructure)
        ensures
            final(self)@ == old(self)@.push(s),
    {
        self.structures.push(s);
    }

    /// The number of structures.
    pub fn len(&self) -> (r: usize)
        ensures
            r == self@.len(),
    {
        self.structures.len()
    }

    /// The intersection of `self`, taken as a filter, with `other`, in the
    /// filter's order of preference.
    pub fn intersect_first(&self, other: &Caps) -> (r: Caps)
        ensures
            r@ == intersect_first(self@, other@),
    {
        let mut out: Vec<CapsStructure> = Vec::new();
        let mut i: usize = 0;
        while i < self.structures.len()
            invariant
                i <= self@.len(),
                out@ == intersect_first(self@.subrange(0, i as int), other@),
            decreases self.structures.len() - i,
        {
            let m = first_match(&self.structures[i], &other.structures);
            proof {
                let next = self@.subrange(0, i + 1);
                assert(next.drop_last() =~= self@.subrange(0, i as int));
                assert(next.last() == self@[i as int]);
            }
            match m {
                Some(s) => {
                    out.push(s);
                },
                None => {},
            }
            i = i + 1;
        }
        assert(self@.subrange(0, self@.len() as int) =~= self@);
        Caps { structures: out }
    }
}

/// Every structure of `caps` with its format replaced by `format`.
pub fn set_format_all(caps: &Caps, format: PixelFormat) -> (r: Caps)
    ensures
        r@ == all_with_format(caps@, format),
{
    let mut out: Vec<CapsStructure> = Vec::new();
    let mut i: usize = 0;
    while i < caps.structures.len()
        invariant
            i <= caps@.len(),
            out@ =~= all_with_format(caps@.subrange(0, i as int), format),
        decreases caps.structures.len() - i,
    {
        let s = caps.structures[i];
        out.push(CapsStructure { format, ..s });
        i = i + 1;
    }
    assert(caps@.subrange(0, caps@.len() as int) =~= caps@);
    Caps { structures: out }
}

/// The caps acceptable on the other pad, given the caps of the pad named by
/// `direction` and an optional filter.  Toward the producing side every
/// structure is forced to packed color; toward the consuming side a luma copy
/// of every structure comes first, then the original structures.  A filter
/// keeps, in its own order, the meet of each of its structures with the first
/// compatible candidate.
pub fn transform_caps(direction: PadDirection, caps: &Caps, filter: Option<&Caps>) -> (r: Caps)
    ensures
        r@ == transformed_caps(
            direction,
            caps@,
            match filter {
                Some(f) => Some(f@),
                None => None,
            },
        ),
{
    let other = match direction {
        PadDirection::Src => set_format_all(caps, PixelFormat::PackedColor),
        PadDirection::Sink => {
            let mut gray = set_format_all(caps, PixelFormat::Luma8);
            let mut i: usize = 0;
            let ghost start = gray@;
            while i < caps.structures.len()
                invariant
                    i <= caps@.len(),
                    gray@ =~= start + caps@.subrange(0, i as int),
                decreases caps.structures.len() - i,
            {
                gray.append_structure(caps.structures[i]);
                i = i + 1;
            }
            assert(caps@.subrange(0, caps@.len() as int) =~= caps@);
            gray
        },
    };
    match filter {
        Some(f) => f.intersect_first(&other),
        None => other,
    }
}

} // verus!
