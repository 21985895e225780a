use rgb2gray::caps::{
    transform_caps, Caps, CapsStructure, Fraction, FractionRange, IntRange, PadDirection,
    PixelFormat,
};
use rgb2gray::codec::MQTTCodec;
use rgb2gray::element::{NegotiationError, Rgb2Gray};
use rgb2gray::frame::{convert_frame, TransformError};
use rgb2gray::layout::{unit_size, FrameLayout};
use rgb2gray::luma::luma;

fn any_rate() -> FractionRange {
    FractionRange { min: Fraction { num: 0, den: 1 }, max: Fraction { num: 2147483647, den: 1 } }
}

fn fixed_rate(n: u32) -> FractionRange {
    FractionRange { min: Fraction { num: n, den: 1 }, max: Fraction { num: n, den: 1 } }
}

fn structure(format: PixelFormat, width: u32, height: u32) -> CapsStructure {
    CapsStructure {
        format,
        width: IntRange { min: width, max: width },
        height: IntRange { min: height, max: height },
        framerate: fixed_rate(30),
    }
}

fn caps_of(s: CapsStructure) -> Caps {
    Caps::from_structure(s)
}

fn packed(width: u32, height: u32, stride: usize) -> FrameLayout {
    FrameLayout { format: PixelFormat::PackedColor, width, height, stride }
}

fn gray(width: u32, height: u32, stride: usize) -> FrameLayout {
    FrameLayout { format: PixelFormat::Luma8, width, height, stride }
}

#[test]
fn luma_known_values() {
    assert_eq!(luma(255, 255, 255), 255);
    assert_eq!(luma(0, 0, 0), 0);
    assert_eq!(luma(0, 0, 255), 76);
    assert_eq!(luma(0, 255, 0), 149);
    assert_eq!(luma(255, 0, 0), 29);
    assert_eq!(luma(10, 20, 30), 21);
}

#[test]
fn luma_stays_in_range_and_grows_with_each_channel() {
    let mut v: u32 = 0;
    while v < 256 {
        let c = v as u8;
        assert_eq!(luma(c, c, c), c);
        if c < 255 {
            assert!(luma(c, 100, 200) <= luma(c + 1, 100, 200));
            assert!(luma(100, c, 200) <= luma(100, c + 1, 200));
            assert!(luma(100, 200, c) <= luma(100, 200, c + 1));
        }
        v += 1;
    }
}

#[test]
fn caps_toward_producer_force_packed_color() {
    let caps = caps_of(structure(PixelFormat::Luma8, 320, 240));
    let out = transform_caps(PadDirection::Src, &caps, None);
    assert_eq!(out.structures, vec![structure(PixelFormat::PackedColor, 320, 240)]);
}

#[test]
fn caps_toward_consumer_offer_gray_then_original() {
    let caps = caps_of(structure(PixelFormat::PackedColor, 320, 240));
    let out = transform_caps(PadDirection::Sink, &caps, None);
    assert_eq!(
        out.structures,
        vec![structure(PixelFormat::Luma8, 320, 240), structure(PixelFormat::PackedColor, 320, 240)]
    );
}

#[test]
fn caps_toward_consumer_keep_gray_copies_first() {
    let mut caps = Caps::new_empty();
    caps.append_structure(structure(PixelFormat::PackedColor, 320, 240));
    caps.append_structure(structure(PixelFormat::PackedColor, 640, 480));
    let out = transform_caps(PadDirection::Sink, &caps, None);
    assert_eq!(
        out.structures,
        vec![
            structure(PixelFormat::Luma8, 320, 240),
            structure(PixelFormat::Luma8, 640, 480),
            structure(PixelFormat::PackedColor, 320, 240),
            structure(PixelFormat::PackedColor, 640, 480),
        ]
    );
}

#[test]
fn caps_filter_follows_its_own_order() {
    let wide = CapsStructure {
        format: PixelFormat::PackedColor,
        width: IntRange { min: 0, max: 2147483647 },
        height: IntRange { min: 0, max: 2147483647 },
        framerate: any_rate(),
    };
    let caps = caps_of(wide);
    let mut filter = Caps::new_empty();
    filter.append_structure(structure(PixelFormat::PackedColor, 320, 240));
    filter.append_structure(structure(PixelFormat::Luma8, 640, 480));
    let out = transform_caps(PadDirection::Sink, &caps, Some(&filter));
    assert_eq!(
        out.structures,
        vec![structure(PixelFormat::PackedColor, 320, 240), structure(PixelFormat::Luma8, 640, 480)]
    );
}

#[test]
fn caps_filter_drops_what_does_not_meet() {
    let caps = caps_of(structure(PixelFormat::PackedColor, 320, 240));
    let filter = caps_of(structure(PixelFormat::PackedColor, 640, 480));
    let out = transform_caps(PadDirection::Src, &caps, Some(&filter));
    assert_eq!(out.len(), 0);
}

#[test]
fn unit_size_of_common_frames() {
    assert_eq!(unit_size(&caps_of(structure(PixelFormat::PackedColor, 320, 240))), Some(307200));
    assert_eq!(unit_size(&caps_of(structure(PixelFormat::Luma8, 320, 240))), Some(76800));
    assert_eq!(unit_size(&caps_of(structure(PixelFormat::Luma8, 3, 2))), Some(8));
}

#[test]
fn unit_size_of_unfixed_caps_is_none() {
    let mut s = structure(PixelFormat::PackedColor, 320, 240);
    s.width = IntRange { min: 1, max: 320 };
    assert_eq!(unit_size(&caps_of(s)), None);
    assert_eq!(unit_size(&Caps::new_empty()), None);
    assert_eq!(unit_size(&caps_of(structure(PixelFormat::PackedColor, 0, 240))), None);
}

#[test]
fn layout_from_caps_uses_default_strides() {
    let l = FrameLayout::from_caps(&caps_of(structure(PixelFormat::Luma8, 5, 2))).unwrap();
    assert_eq!(l, gray(5, 2, 8));
    let l = FrameLayout::from_caps(&caps_of(structure(PixelFormat::PackedColor, 5, 2))).unwrap();
    assert_eq!(l, packed(5, 2, 20));
}

#[test]
fn packed_to_packed_converts_color_channels_only() {
    let input: Vec<u8> = vec![
        0, 0, 255, 9, 255, 255, 255, 9, 1, 2, 3, 4, //
        10, 20, 30, 9, 0, 255, 0, 9, 5, 6, 7, 8,
    ];
    let mut output = vec![0xAAu8; 24];
    let r = convert_frame(&packed(2, 2, 12), &packed(2, 2, 12), &input, &mut output);
    assert_eq!(r, Ok(()));
    assert_eq!(
        output,
        vec![
            76, 76, 76, 0xAA, 255, 255, 255, 0xAA, 0xAA, 0xAA, 0xAA, 0xAA, //
            21, 21, 21, 0xAA, 149, 149, 149, 0xAA, 0xAA, 0xAA, 0xAA, 0xAA,
        ]
    );
}

#[test]
fn packed_to_luma_writes_one_byte_per_pixel() {
    let input: Vec<u8> = vec![
        0, 0, 255, 9, 255, 255, 255, 9, //
        10, 20, 30, 9, 255, 0, 0, 9,
    ];
    let mut output = vec![7u8; 8];
    let r = convert_frame(&packed(2, 2, 8), &gray(2, 2, 4), &input, &mut output);
    assert_eq!(r, Ok(()));
    assert_eq!(output, vec![76, 255, 7, 7, 21, 29, 7, 7]);
}

#[test]
fn converting_gray_again_changes_nothing() {
    let input: Vec<u8> = vec![3, 200, 17, 0, 90, 91, 92, 1, 255, 0, 128, 2, 44, 45, 46, 3];
    let layout = packed(2, 2, 8);
    let mut once = vec![0u8; 16];
    assert_eq!(convert_frame(&layout, &layout, &input, &mut once), Ok(()));
    let mut twice = once.clone();
    assert_eq!(convert_frame(&layout, &layout, &once, &mut twice), Ok(()));
    assert_eq!(twice, once);
}

#[test]
fn mismatched_rows_leave_output_untouched() {
    let input = vec![1u8; 16];
    let mut output = vec![5u8; 24];
    let r = convert_frame(&packed(2, 2, 8), &packed(2, 3, 8), &input, &mut output);
    assert_eq!(r, Err(TransformError::BufferLayout));
    assert_eq!(output, vec![5u8; 24]);
}

#[test]
fn stride_narrower_than_row_is_a_layout_error() {
    let input = vec![1u8; 16];
    let mut output = vec![5u8; 4];
    let r = convert_frame(&packed(2, 2, 8), &gray(2, 2, 1), &input, &mut output);
    assert_eq!(r, Err(TransformError::BufferLayout));
    assert_eq!(output, vec![5u8; 4]);
    let mut output = vec![5u8; 15];
    let r = convert_frame(&packed(2, 2, 8), &packed(2, 2, 8), &input, &mut output);
    assert_eq!(r, Err(TransformError::BufferLayout));
}

#[test]
fn gray_input_is_unsupported() {
    let input = vec![1u8; 8];
    let mut output = vec![5u8; 8];
    let r = convert_frame(&gray(4, 2, 4), &gray(4, 2, 4), &input, &mut output);
    assert_eq!(r, Err(TransformError::UnsupportedFormat));
    assert_eq!(output, vec![5u8; 8]);
}

#[test]
fn transform_before_negotiation_fails() {
    let element = Rgb2Gray::new();
    let input = vec![1u8; 16];
    let mut output = vec![5u8; 16];
    assert_eq!(element.transform(&input, &mut output), Err(TransformError::NotNegotiated));
    assert_eq!(output, vec![5u8; 16]);
}

#[test]
fn negotiate_transform_and_stop() {
    let mut element = Rgb2Gray::new();
    let incaps = caps_of(structure(PixelFormat::PackedColor, 2, 1));
    let outcaps = caps_of(structure(PixelFormat::Luma8, 2, 1));
    assert_eq!(element.set_caps(&incaps, &outcaps), Ok(()));
    let st = element.negotiated().unwrap();
    assert_eq!(st.input, packed(2, 1, 8));
    assert_eq!(st.output, gray(2, 1, 4));
    let input: Vec<u8> = vec![0, 0, 255, 0, 255, 255, 255, 0];
    let mut output = vec![9u8; 4];
    assert_eq!(element.transform(&input, &mut output), Ok(()));
    assert_eq!(output, vec![76, 255, 9, 9]);
    element.stop();
    assert_eq!(element.negotiated(), None);
    assert_eq!(element.transform(&input, &mut output), Err(TransformError::NotNegotiated));
}

#[test]
fn failed_negotiation_keeps_previous_layouts() {
    let mut element = Rgb2Gray::new();
    let good = caps_of(structure(PixelFormat::PackedColor, 2, 1));
    assert_eq!(element.set_caps(&good, &good), Ok(()));
    assert_eq!(element.set_caps(&Caps::new_empty(), &good), Err(NegotiationError::InputCaps));
    assert_eq!(element.set_caps(&good, &Caps::new_empty()), Err(NegotiationError::OutputCaps));
    assert_eq!(element.negotiated().unwrap().input, packed(2, 1, 8));
    assert_eq!(element.unit_size(&good), Some(8));
    let out = element.transform_caps(PadDirection::Src, &good, None);
    assert_eq!(out.len(), 1);
}

#[test]
fn codec_constructs() {
    assert_eq!(MQTTCodec::new(), MQTTCodec {});
}
