use std::hash::{Hash, Hasher};

use mediaframe::frame::{
    DimensionOverflow, Dimensions, FieldOrder, FrameRate, GeometryOverflow, InsufficientPlane,
    InsufficientStride, Plane, RatioParseKind, Rational, Rect, Rotation, SampleAspectRatio,
    StereoMode, TimestampedFrame, UnsupportedBits, VideoFrame, WidthAlignment,
    WidthAlignmentRequirement, WidthOverflow, ZeroDimension,
};
use mediaframe::pixel_format::PixelFormat;

#[test]
fn dimensions_construction_and_accessors() {
    let d = Dimensions::new(1920, 1080);
    assert_eq!(d.width(), 1920);
    assert_eq!(d.height(), 1080);
    assert!(!d.is_zero());
    assert!(Dimensions::default().is_zero());
}

#[test]
fn dimensions_builder() {
    let d = Dimensions::new(0, 0).with_width(640).with_height(480);
    assert_eq!(d.width(), 640);
    assert_eq!(d.height(), 480);
}

#[test]
fn dimensions_display() {
    assert_eq!(Dimensions::new(1920, 1080).to_string(), "1920x1080");
}

#[test]
fn rect_construction_and_accessors() {
    let r = Rect::new(10, 20, 1280, 720);
    assert_eq!(r.x(), 10);
    assert_eq!(r.y(), 20);
    assert_eq!(r.width(), 1280);
    assert_eq!(r.height(), 720);
}

#[test]
fn rect_builder_chains() {
    let r = Rect::default()
        .with_x(8)
        .with_y(8)
        .with_width(640)
        .with_height(360);
    assert_eq!((r.x(), r.y(), r.width(), r.height()), (8, 8, 640, 360));
}

#[test]
fn rotation_defaults_and_as_str() {
    assert!(matches!(Rotation::default(), Rotation::D0));
    assert_eq!(Rotation::D0.as_str(), "0");
    assert_eq!(Rotation::D90.as_str(), "90");
    assert_eq!(Rotation::D180.as_str(), "180");
    assert_eq!(Rotation::D270.as_str(), "270");
    assert!(Rotation::D90.is_d_90());
}

#[test]
fn rotation_u32_round_trip_and_escape() {
    for r in [Rotation::D0, Rotation::D90, Rotation::D180, Rotation::D270] {
        assert_eq!(Rotation::from_u32(r.to_u32().unwrap()), Some(r));
    }
    assert_eq!(Rotation::from_u32(0), Some(Rotation::D0));
    assert_eq!(Rotation::from_u32(3), Some(Rotation::D270));
    assert_eq!(Rotation::from_u32(99), None);
}

#[test]
fn rotation_escape_keeps_its_name() {
    let odd = Rotation::other("45");
    assert_eq!(odd.as_str(), "45");
    assert_eq!(odd.to_u32(), None);
    assert_eq!("45".parse(), Ok(odd));
}

#[test]
fn sample_aspect_ratio_default_is_square() {
    let s = SampleAspectRatio::default();
    assert_eq!(s.num(), 1);
    assert_eq!(s.den(), 1);
    assert!(s.is_square());
}

#[test]
fn sample_aspect_ratio_construction_and_builders() {
    let s = SampleAspectRatio::new(40, 33);
    assert_eq!(s.num(), 40);
    assert_eq!(s.den(), 33);
    assert!(!s.is_square());
    let s2 = SampleAspectRatio::default().with_num(16).with_den(9);
    assert_eq!((s2.num(), s2.den()), (16, 9));
    let mut s3 = SampleAspectRatio::default();
    s3.set_num(4).set_den(3);
    assert_eq!((s3.num(), s3.den()), (4, 3));
}

#[test]
fn sample_aspect_ratio_display() {
    assert_eq!(SampleAspectRatio::new(10, 11).to_string(), "10:11");
}

#[test]
fn plane_holds_owned_buffer() {
    let p: Plane<[u8; 4]> = Plane::new([1, 2, 3, 4], 4);
    assert_eq!(p.stride(), 4);
    assert_eq!(p.data_ref(), &[1, 2, 3, 4]);
    let raw = p.into_data();
    assert_eq!(raw, [1, 2, 3, 4]);
}

#[test]
fn plane_holds_borrowed_buffer() {
    let backing = [10u8, 20, 30, 40];
    let p: Plane<&[u8]> = Plane::new(&backing[..], 2);
    assert_eq!(p.stride(), 2);
    assert_eq!(*p.data_ref(), &[10, 20, 30, 40][..]);
}

#[test]
fn plane_with_stride_builder() {
    let p = Plane::new([0u8; 2], 0).with_stride(64);
    assert_eq!(p.stride(), 64);
}

#[test]
fn video_frame_construction_defaults() {
    let planes: [Plane<&[u8]>; 4] = [
        Plane::new(&[][..], 16),
        Plane::new(&[][..], 8),
        Plane::new(&[][..], 8),
        Plane::new(&[][..], 0),
    ];
    let vf = VideoFrame::new(Dimensions::new(16, 16), PixelFormat::Yuv420p, planes, 3);
    assert_eq!(vf.dimensions(), Dimensions::new(16, 16));
    assert_eq!(vf.width(), 16);
    assert_eq!(vf.height(), 16);
    assert_eq!(*vf.pixel_format_ref(), PixelFormat::Yuv420p);
    assert_eq!(vf.plane_count(), 3);
    assert!(vf.visible_rect().is_none());
}

#[test]
fn video_frame_planes_slice_uses_plane_count() {
    let planes: [Plane<u32>; 4] = [
        Plane::new(1, 0),
        Plane::new(2, 0),
        Plane::new(3, 0),
        Plane::new(4, 0),
    ];
    let vf = VideoFrame::new(Dimensions::new(2, 2), PixelFormat::Yuv420p, planes, 2);
    assert_eq!(vf.planes().len(), 2);
    assert_eq!(*vf.plane(0).unwrap().data_ref(), 1);
    assert_eq!(*vf.plane(1).unwrap().data_ref(), 2);
    assert!(vf.plane(2).is_none());
    assert!(vf.plane(7).is_none());
}

#[test]
fn video_frame_with_visible_rect_and_color_chain() {
    let planes: [Plane<()>; 4] = [Plane::new((), 0); 4];
    let vf = VideoFrame::new(Dimensions::new(8, 8), PixelFormat::Yuv420p, planes, 3)
        .with_visible_rect(Rect::new(0, 0, 6, 6));
    assert_eq!(vf.visible_rect(), Some(Rect::new(0, 0, 6, 6)));
}

#[test]
fn timestamped_frame_construction_defaults() {
    let tf: TimestampedFrame<&'static str> = TimestampedFrame::new("payload");
    assert!(tf.pts().is_none());
    assert!(tf.duration().is_none());
    assert_eq!(*tf.frame_ref(), "payload");
}

#[test]
fn timestamped_frame_into_frame_consumes() {
    let tf = TimestampedFrame::new(42u32);
    let raw = tf.into_frame();
    assert_eq!(raw, 42);
}

#[test]
fn timestamped_frame_pts_builder() {
    let tb = mediatime::Timebase::new(1, core::num::NonZeroI32::new(1000).unwrap());
    let ts = mediatime::Timestamp::new(1000, tb);
    let tf = TimestampedFrame::new(0u8).with_pts(ts).with_duration(ts);
    assert_eq!(tf.pts(), Some(ts));
    assert_eq!(tf.duration(), Some(ts));
}

#[test]
fn timestamped_frame_wraps_video_frame() {
    let planes: [Plane<()>; 4] = [Plane::new((), 0); 4];
    let vf = VideoFrame::new(Dimensions::new(4, 4), PixelFormat::Yuv420p, planes, 3);
    let tf = TimestampedFrame::new(vf);
    assert_eq!(tf.frame_ref().dimensions(), Dimensions::new(4, 4));
}

#[test]
fn rational_default_is_one_over_one() {
    let r = Rational::default();
    assert_eq!(r.num(), 1);
    assert_eq!(r.den(), 1);
    assert!(!r.is_zero());
}

#[test]
fn rational_construction_builders_and_is_zero() {
    let r = Rational::new(30000, 1001);
    assert_eq!(r.num(), 30000);
    assert_eq!(r.den(), 1001);
    assert!(!r.is_zero());
    let z = Rational::new(0, 1);
    assert!(z.is_zero());
    let r2 = Rational::default().with_num(24).with_den(1);
    assert_eq!((r2.num(), r2.den()), (24, 1));
    let mut r3 = Rational::default();
    r3.set_num(16).set_den(9);
    assert_eq!((r3.num(), r3.den()), (16, 9));
}

#[test]
fn rational_display() {
    assert_eq!(Rational::new(30000, 1001).to_string(), "30000/1001");
}

#[test]
fn rational_rejects_negative_numerator() {
    assert!(Rational::try_new(-1, 1).is_none());
    assert!(Rational::try_new(i64::MIN, 1).is_none());
    assert!(Rational::try_new(0, 1).is_some());
}

#[test]
fn rational_rejects_negative_denominator() {
    assert!(Rational::try_new(1, -1).is_none());
    assert!(Rational::try_new(1, i64::MIN).is_none());
}

#[test]
fn rational_zero_denominator_is_unrepresentable() {
    // The denominator is a plain integer here; a zero one is refused by the constructor.
    assert!(Rational::try_new(1, 0).is_none());
    assert!(Rational::try_new(0, 0).is_none());
}

#[test]
fn rational_accepts_i64_max_at_both_positions() {
    let r = Rational::new(i64::MAX, i64::MAX);
    assert_eq!(r.num(), i64::MAX);
    assert_eq!(r.den(), i64::MAX);
}

#[test]
fn rational_accepts_values_above_u32_max() {
    let big = i64::from(u32::MAX) + 1;
    let r = Rational::new(big, big);
    assert_eq!(r.num(), big);
    assert_eq!(r.den(), big);
    let sar = SampleAspectRatio::new(big, big);
    assert_eq!((sar.num(), sar.den()), (big, big));
    assert_eq!(FrameRate::new(r, false).rate(), r);
}

#[test]
fn sample_aspect_ratio_fallible_path_is_try_new_plus_from() {
    let ok = Rational::try_new(40, 33).map(SampleAspectRatio::from);
    assert_eq!(ok, Some(SampleAspectRatio::new(40, 33)));
    let bad = Rational::try_new(-40, 33).map(SampleAspectRatio::from);
    assert!(bad.is_none());
}

#[test]
fn sample_aspect_ratio_rational_interop() {
    let sar = SampleAspectRatio::new(40, 33);
    let via_method: Rational = sar.as_rational();
    let via_from: Rational = Rational::from(sar);
    let via_into: Rational = sar.into();
    assert_eq!(via_method, Rational::new(40, 33));
    assert_eq!(via_method, via_from);
    assert_eq!(via_from, via_into);
    assert_eq!(
        SampleAspectRatio::default().as_rational(),
        Rational::default()
    );
}

#[test]
fn sample_aspect_ratio_rational_round_trip_both_ways() {
    let sar = SampleAspectRatio::new(40, 33);
    let r: Rational = sar.into();
    let back: SampleAspectRatio = r.into();
    assert_eq!(back, sar);
    assert_eq!(sar.rational(), r);
    assert_eq!(sar.rational(), sar.as_rational());
    let r2 = Rational::new(16, 9);
    let s2 = SampleAspectRatio::from(r2);
    assert_eq!((s2.num(), s2.den()), (16, 9));
    assert_eq!(Rational::from(s2), r2);
}

#[test]
fn sample_aspect_ratio_default_is_one_to_one() {
    let d = SampleAspectRatio::default();
    assert_eq!((d.num(), d.den()), (1, 1));
    assert!(d.is_square());
    assert_eq!(d, SampleAspectRatio::new(1, 1));
}

#[test]
fn sample_aspect_ratio_eq_and_hash_parity() {
    let a = SampleAspectRatio::new(40, 33);
    let b = SampleAspectRatio::default().with_num(40).with_den(33);
    assert_eq!(a, b);

    fn h(s: &SampleAspectRatio) -> u64 {
        struct Fnv(u64);
        impl Hasher for Fnv {
            fn finish(&self) -> u64 {
                self.0
            }
            fn write(&mut self, bytes: &[u8]) {
                for &x in bytes {
                    self.0 = (self.0 ^ x as u64).wrapping_mul(0x0100_0000_01b3);
                }
            }
        }
        let mut hasher = Fnv(0xcbf2_9ce4_8422_2325);
        s.hash(&mut hasher);
        hasher.finish()
    }
    assert_eq!(h(&a), h(&b));
}

#[test]
fn frame_rate_default_is_one_over_one_cfr() {
    let fr = FrameRate::default();
    assert_eq!(fr.rate(), Rational::default());
    assert!(!fr.is_vfr());
}

#[test]
fn frame_rate_construction_and_builders() {
    let ntsc = Rational::new(30000, 1001);
    let fr = FrameRate::new(ntsc, false);
    assert_eq!(fr.rate(), ntsc);
    assert!(!fr.is_vfr());
    let vfr = FrameRate::default().with_rate(ntsc).with_is_vfr();
    assert_eq!(vfr.rate(), ntsc);
    assert!(vfr.is_vfr());
    let mut fr3 = FrameRate::default();
    fr3.set_rate(Rational::new(25, 1)).set_is_vfr();
    assert_eq!(fr3.rate(), Rational::new(25, 1));
    assert!(fr3.is_vfr());
    let fr4 = FrameRate::default().maybe_is_vfr(true);
    assert!(fr4.is_vfr());
    let mut fr5 = FrameRate::default();
    fr5.update_is_vfr(true);
    assert!(fr5.is_vfr());
    fr5.clear_is_vfr();
    assert!(!fr5.is_vfr());
}

#[test]
fn field_order_default_is_unknown_and_as_str() {
    assert_eq!(FieldOrder::default(), FieldOrder::Unknown);
    assert_eq!(FieldOrder::Unknown.as_str(), "unknown");
    assert_eq!("unknown".parse(), Ok(FieldOrder::Unknown));
    assert_eq!(FieldOrder::Progressive.as_str(), "progressive");
    assert_eq!(FieldOrder::Tt.as_str(), "tt");
    assert_eq!(FieldOrder::Bb.as_str(), "bb");
    assert_eq!(FieldOrder::Tb.as_str(), "tb");
    assert_eq!(FieldOrder::Bt.as_str(), "bt");
    assert!(FieldOrder::Progressive.is_progressive());
}

#[test]
fn field_order_u32_round_trip_and_escape() {
    for f in [
        FieldOrder::Unknown,
        FieldOrder::Progressive,
        FieldOrder::Tt,
        FieldOrder::Bb,
        FieldOrder::Tb,
        FieldOrder::Bt,
    ] {
        assert_eq!(FieldOrder::from_u32(f.to_u32().unwrap()), Some(f));
    }
    assert_eq!(FieldOrder::from_u32(1), Some(FieldOrder::Progressive));
    assert_eq!(FieldOrder::from_u32(5), Some(FieldOrder::Bt));
    assert_eq!(FieldOrder::from_u32(0), Some(FieldOrder::Unknown));
    assert_eq!(FieldOrder::from_u32(99), None);
}

#[test]
fn stereo_mode_default_is_mono_and_as_str() {
    assert_eq!(StereoMode::default(), StereoMode::Mono);
    assert_eq!(StereoMode::Mono.as_str(), "mono");
    assert_eq!(StereoMode::SideBySide.as_str(), "side-by-side");
    assert_eq!(StereoMode::Columns.as_str(), "columns");
    assert!(StereoMode::Mono.is_mono());
}

#[test]
fn stereo_mode_u32_round_trip_and_escape() {
    for s in [
        StereoMode::Mono,
        StereoMode::SideBySide,
        StereoMode::TopBottom,
        StereoMode::FrameSequence,
        StereoMode::Checkerboard,
        StereoMode::SideBySideQuincunx,
        StereoMode::Lines,
        StereoMode::Columns,
    ] {
        assert_eq!(StereoMode::from_u32(s.to_u32().unwrap()), Some(s));
    }
    assert_eq!(StereoMode::from_u32(0), Some(StereoMode::Mono));
    assert_eq!(StereoMode::from_u32(7), Some(StereoMode::Columns));
    assert_eq!(StereoMode::from_u32(99), None);
}

#[test]
fn stereo_mode_escape_keeps_its_name() {
    let vendor = StereoMode::other("Anaglyph");
    assert_eq!(vendor.as_str(), "anaglyph");
    assert_eq!(vendor.to_u32(), None);
    assert_eq!("anaglyph".parse(), Ok(vendor));
}

fn sweep<T, F, G, P>(from_u32: F, as_str: G, parse: P, name: &str)
where
    T: PartialEq + std::fmt::Debug + Clone,
    F: Fn(u32) -> Option<T>,
    G: Fn(&T) -> String,
    P: Fn(&str) -> T,
{
    let mut named = 0usize;
    let mut codes = [0u32; 32];
    for code in 0..=1024u32 {
        let Some(value) = from_u32(code) else {
            continue;
        };
        let slug = as_str(&value);
        assert_eq!(parse(&slug), value.clone(), "{name} slug {slug:?} does not parse back to {value:?}");
        assert!(
            !slug.bytes().any(|b| b.is_ascii_uppercase()),
            "{name} slug {slug:?} is not lowercase-canonical"
        );
        let upper = slug.to_ascii_uppercase();
        assert_eq!(parse(&upper), value.clone(), "{name} does not fold {upper:?} onto {slug:?}");
        for prior in codes.iter().take(named) {
            let prior = from_u32(*prior).expect("recorded code names a variant");
            assert_ne!(as_str(&prior), slug, "{name} has two variants spelled {slug:?}");
        }
        codes[named] = code;
        named += 1;
    }
    assert!(named > 0, "{name} sweep found no named variants");
}

#[test]
fn every_named_frame_enum_variant_round_trips_through_its_slug() {
    sweep(Rotation::from_u32, |v: &Rotation| v.as_str().to_string(), Rotation::parse, "Rotation");
    sweep(FieldOrder::from_u32, |v: &FieldOrder| v.as_str().to_string(), FieldOrder::parse, "FieldOrder");
    sweep(StereoMode::from_u32, |v: &StereoMode| v.as_str().to_string(), StereoMode::parse, "StereoMode");
}

#[test]
fn field_order_names_its_own_unknown() {
    assert_eq!("unknown".parse(), Ok(FieldOrder::Unknown));
}

#[test]
fn frame_enum_escape_keeps_the_name_it_was_given() {
    assert_eq!("unknown".parse(), Ok(Rotation::other("unknown")));
    assert_eq!("unknown".parse(), Ok(StereoMode::other("unknown")));
    assert_eq!(
        "not-a-rotation".parse::<Rotation>().unwrap().as_str(),
        "not-a-rotation"
    );
}

#[test]
fn geometry_display_round_trips_through_from_str() {
    for dims in [
        Dimensions::default(),
        Dimensions::new(1920, 1080),
        Dimensions::new(u32::MAX, u32::MAX),
    ] {
        assert_eq!(dims.to_string().parse(), Ok(dims));
    }

    for ratio in [
        Rational::default(),
        Rational::new(30_000, 1001),
        Rational::new(0, 1),
        Rational::new(i64::MAX, i64::MAX),
    ] {
        assert_eq!(ratio.to_string().parse(), Ok(ratio));
    }

    for sar in [
        SampleAspectRatio::default(),
        SampleAspectRatio::new(40, 33),
        SampleAspectRatio::new(16, 9),
    ] {
        assert_eq!(sar.to_string().parse(), Ok(sar));
    }
}

#[test]
fn geometry_separators_are_not_interchangeable() {
    assert!("40/33".parse::<SampleAspectRatio>().is_err());
    assert!("40:33".parse::<Rational>().is_err());
    assert!("1920X1080".parse::<Dimensions>().is_err());
}

#[test]
fn geometry_parsing_cannot_bypass_the_constructor_invariant() {
    assert!("-5/4".parse::<Rational>().is_err());
    assert!("5/-4".parse::<Rational>().is_err());
    assert!("5/0".parse::<Rational>().is_err());
    assert!("-1:1".parse::<SampleAspectRatio>().is_err());

    assert_eq!(
        "-5/4".parse::<Rational>().unwrap_err().kind(),
        RatioParseKind::OutOfRange
    );
    assert_eq!(
        "not-a-ratio".parse::<Rational>().unwrap_err().kind(),
        RatioParseKind::Malformed
    );
    assert_eq!(
        "-1:1".parse::<SampleAspectRatio>().unwrap_err().kind(),
        RatioParseKind::OutOfRange
    );
}

#[test]
fn geometry_rejects_malformed_input() {
    for bad in ["", "1920", "1920x", "x1080", "1920x1080x1", "axb", " 1x2"] {
        assert!(
            bad.parse::<Dimensions>().is_err(),
            "{bad:?} should not parse as Dimensions"
        );
    }
    for bad in ["", "30000", "30000/", "/1001", "a/b", "1/2/3"] {
        assert!(
            bad.parse::<Rational>().is_err(),
            "{bad:?} should not parse as Rational"
        );
    }
}

#[test]
fn numerals_follow_the_integer_parse() {
    // An explicit plus sign and leading zeros are what `u32::from_str` and `i64::from_str` accept.
    assert_eq!("+640x0480".parse(), Ok(Dimensions::new(640, 480)));
    assert_eq!("+30000/+1001".parse(), Ok(Rational::new(30000, 1001)));
    // A bare sign, and a width past `u32`, are refused.
    assert!("+x1".parse::<Dimensions>().is_err());
    assert!("4294967296x1".parse::<Dimensions>().is_err());
    // `i64::MIN` is a numeral, and a negative numerator is out of range rather than malformed.
    assert_eq!(
        "-9223372036854775808/1".parse::<Rational>().unwrap_err().kind(),
        RatioParseKind::OutOfRange
    );
    assert_eq!(
        "9223372036854775808/1".parse::<Rational>().unwrap_err().kind(),
        RatioParseKind::Malformed
    );
}

#[test]
fn error_payloads_render_their_numbers() {
    assert_eq!(
        ZeroDimension::new(0, 1080).to_string(),
        "width (0) or height (1080) is zero"
    );
    assert_eq!(DimensionOverflow::new(7, 9).to_string(), "dimensions 7 × 9 overflow");
    let stride = InsufficientStride::new(100, 128);
    assert_eq!((stride.stride(), stride.min()), (100, 128));
    assert_eq!(stride.to_string(), "stride (100) is smaller than minimum (128)");
    assert_eq!(
        InsufficientPlane::new(64, 32).to_string(),
        "plane has 32 bytes/samples but at least 64 are required"
    );
    assert_eq!(
        GeometryOverflow::new(4, 5).to_string(),
        "declared geometry overflows usize: stride=4 * rows=5"
    );
    assert_eq!(WidthOverflow::new(3).to_string(), "width (3) overflow");
    assert_eq!(UnsupportedBits::new(11).to_string(), "unsupported BITS (11)");
    let odd = WidthAlignment::odd(641);
    assert_eq!(odd.required(), WidthAlignmentRequirement::Even);
    assert_eq!(odd.to_string(), "width (641) is odd");
    assert_eq!(
        WidthAlignment::multiple_of_four(642).to_string(),
        "width (642) is not a multiple of 4"
    );
}

#[test]
fn closed_vocabulary_refusals_render_their_sentences() {
    assert_eq!(mediaframe::frame::ParseRotationError.to_string(), "not a rotation");
    assert_eq!(mediaframe::frame::ParseFieldOrderError.to_string(), "not a field-order name");
    assert_eq!(mediaframe::frame::ParseStereoModeError.to_string(), "not a stereo-mode name");
}

#[test]
fn a_cloned_video_frame_keeps_every_plane_in_its_slot() {
    let planes: [Plane<Vec<u8>>; 4] = [
        Plane::new(vec![1, 2], 16),
        Plane::new(vec![3], 8),
        Plane::new(vec![4, 5, 6], 4),
        Plane::new(vec![], 0),
    ];
    let vf = VideoFrame::new(Dimensions::new(16, 16), PixelFormat::Nv12, planes, 3)
        .with_visible_rect(Rect::new(0, 0, 8, 8));
    let copy = vf.clone();
    assert_eq!(copy, vf);
    assert_eq!(copy.plane(2).map(|p| (p.data_ref().clone(), p.stride())), Some((vec![4, 5, 6], 4)));
    assert_eq!(*copy.pixel_format_ref(), PixelFormat::Nv12);
}
