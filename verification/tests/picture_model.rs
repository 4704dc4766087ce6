use pictor::picture::{
    ChannelCount, ChannelInterpretation, Frame, FramesPlayer, Picture, PictureError, PixelData,
    StillPicture, extensions,
};
use pictor::render::{
    FILTER_LINEAR, FILTER_LINEAR_MIPMAP_NEAREST, FILTER_NEAREST, FILTER_NEAREST_MIPMAP_LINEAR,
    FORMAT_RED, FORMAT_RGB, FORMAT_RGBA, InterpolationType, STORAGE_RGBA8, STORAGE_RGBA16,
    check_for_gl_errors, channel_format, minification_parameter, storage_format,
};

fn rgb_still(width: u32, height: u32) -> StillPicture {
    let data = vec![127u8; (width * height * 3) as usize];
    StillPicture::from_decoded(
        width,
        height,
        3,
        true,
        false,
        PixelData::EightBit(data),
        lcms2::Profile::new_srgb(),
    )
    .unwrap()
}

#[test]
fn channel_counts_classify() {
    assert!(matches!(ChannelCount::from_count(1), Ok(ChannelCount::One)));
    assert!(matches!(ChannelCount::from_count(4), Ok(ChannelCount::Four)));
    assert!(matches!(
        ChannelCount::from_count(0),
        Err(PictureError::UnsupportedChannelCount(0))
    ));
    assert!(matches!(
        ChannelCount::from_count(5),
        Err(PictureError::UnsupportedChannelCount(5))
    ));
}

#[test]
fn swizzles_present_every_layout_as_rgba() {
    assert_eq!(ChannelInterpretation::L.swizzle_for_rgba(), [0, 0, 0, 3]);
    assert_eq!(ChannelInterpretation::LA.swizzle_for_rgba(), [0, 0, 0, 1]);
    assert_eq!(ChannelInterpretation::RGB.swizzle_for_rgba(), [0, 1, 2, 3]);
    assert_eq!(ChannelInterpretation::RGBA.swizzle_for_rgba(), [0, 1, 2, 3]);
}

#[test]
fn decoding_rejects_mismatched_layouts() {
    let icc = lcms2::Profile::new_srgb();
    // three channels but no colour is not a known layout
    let r = StillPicture::from_decoded(
        2,
        2,
        3,
        false,
        false,
        PixelData::EightBit(vec![0u8; 12]),
        icc,
    );
    assert!(matches!(r, Err(PictureError::UnsupportedPixelFormat)));
    // a buffer of the wrong length is rejected
    let icc = lcms2::Profile::new_srgb();
    let r = StillPicture::from_decoded(
        2,
        2,
        3,
        true,
        false,
        PixelData::EightBit(vec![0u8; 11]),
        icc,
    );
    assert!(matches!(r, Err(PictureError::UnsupportedPixelFormat)));
}

#[test]
fn transform_keeps_shape() {
    let mut still = rgb_still(2, 2);
    let target = lcms2::Profile::new_srgb();
    still.transform_to_icc(&target).unwrap();
    match &still.pixel_data {
        PixelData::EightBit(v) => assert_eq!(v.len(), 12),
        _ => panic!("bit depth changed"),
    }
    assert_eq!(still.resolution, [2, 2]);
    assert!(matches!(still.channel_count, ChannelCount::Three));
}

fn gray_profile() -> lcms2::Profile {
    let white = lcms2::CIExyY { x: 0.3127, y: 0.3290, Y: 1.0 };
    let curve = lcms2::ToneCurve::new(2.2);
    lcms2::Profile::new_gray(&white, &curve).unwrap()
}

#[test]
fn transform_handles_every_layout() {
    let mut gray = StillPicture::from_decoded(
        3,
        2,
        1,
        false,
        false,
        PixelData::EightBit(vec![9u8; 6]),
        gray_profile(),
    )
    .unwrap();
    gray.transform_to_icc(&gray_profile()).unwrap();
    let icc = lcms2::Profile::new_srgb();
    let mut rgba16 = StillPicture::from_decoded(
        2,
        1,
        4,
        true,
        true,
        PixelData::SixteenBit(vec![512u16; 8]),
        icc,
    )
    .unwrap();
    rgba16
        .transform_to_icc(&lcms2::Profile::new_srgb())
        .unwrap();
    match &rgba16.pixel_data {
        PixelData::SixteenBit(v) => assert_eq!(v.len(), 8),
        _ => panic!("bit depth changed"),
    }
}

#[test]
fn duplicate_round_trips_the_profile() {
    let still = rgb_still(2, 2);
    let copy = still.duplicate().unwrap();
    assert_eq!(copy.resolution, [2, 2]);
    match (&copy.pixel_data, &still.pixel_data) {
        (PixelData::EightBit(a), PixelData::EightBit(b)) => assert_eq!(a, b),
        _ => panic!("bit depth changed"),
    }
}

#[test]
fn zero_frame_animation_is_rejected() {
    let r = FramesPlayer::new(Vec::new(), 0);
    assert!(matches!(r, Err(PictureError::ZeroFrames)));
}

#[test]
fn frames_respect_their_intervals() {
    let frames = vec![
        Frame { still: rgb_still(1, 1), interval: 10 },
        Frame { still: rgb_still(1, 1), interval: 20 },
    ];
    let mut player = FramesPlayer::new(frames, 0).unwrap();
    // the first frame is due immediately
    assert!(player.next(0).is_some());
    // its ten milliseconds have not elapsed yet
    assert!(player.next(5).is_none());
    assert!(player.next(9).is_none());
    // due exactly on time, and the second interval begins
    assert!(player.next(10).is_some());
    assert!(player.next(29).is_none());
    // the list loops
    assert!(player.next(30).is_some());
    assert!(player.next(39).is_none());
}

#[test]
fn extension_list_is_the_known_formats() {
    let exts = extensions();
    assert_eq!(exts.len(), 19);
    assert_eq!(exts[0], b"png".to_vec());
    assert!(exts.contains(&b"jpeg".to_vec()));
    assert!(exts.contains(&b"exr".to_vec()));
    assert!(exts.contains(&b"avif".to_vec()));
    assert!(!exts.contains(&b"txt".to_vec()));
}

#[test]
fn picture_wraps_both_kinds() {
    let still = Picture::Still(rgb_still(1, 1));
    assert!(matches!(still, Picture::Still(_)));
    let player = FramesPlayer::new(
        vec![Frame { still: rgb_still(1, 1), interval: 0 }],
        0,
    )
    .unwrap();
    assert!(matches!(Picture::Motion(player), Picture::Motion(_)));
}

#[test]
fn gl_flags_classify() {
    assert!(check_for_gl_errors(0).is_ok());
    assert!(matches!(
        check_for_gl_errors(1280),
        Err(pictor::render::Error::GLError(1280))
    ));
}

#[test]
fn texture_parameters_are_the_specified_values() {
    assert_eq!(
        minification_parameter(InterpolationType::Linear, None),
        FILTER_LINEAR
    );
    assert_eq!(
        minification_parameter(InterpolationType::Nearest, None),
        FILTER_NEAREST
    );
    assert_eq!(
        minification_parameter(
            InterpolationType::Linear,
            Some(InterpolationType::Nearest)
        ),
        FILTER_LINEAR_MIPMAP_NEAREST
    );
    assert_eq!(
        minification_parameter(
            InterpolationType::Nearest,
            Some(InterpolationType::Linear)
        ),
        FILTER_NEAREST_MIPMAP_LINEAR
    );
    assert_eq!(storage_format(true), STORAGE_RGBA8);
    assert_eq!(storage_format(false), STORAGE_RGBA16);
    assert_eq!(channel_format(&ChannelCount::One), FORMAT_RED);
    assert_eq!(channel_format(&ChannelCount::Three), FORMAT_RGB);
    assert_eq!(channel_format(&ChannelCount::Four), FORMAT_RGBA);
}

#[test]
fn failed_transform_leaves_the_picture_alone() {
    // gray pixels against a colour profile: the engine refuses the
    // transform, and the picture must come through untouched
    let mut gray = StillPicture::from_decoded(
        2,
        2,
        1,
        false,
        false,
        PixelData::EightBit(vec![1, 2, 3, 4]),
        gray_profile(),
    )
    .unwrap();
    let r = gray.transform_to_icc(&lcms2::Profile::new_srgb());
    assert!(matches!(r, Err(PictureError::ICCError(_))));
    match &gray.pixel_data {
        PixelData::EightBit(v) => assert_eq!(v, &vec![1, 2, 3, 4]),
        _ => panic!("bit depth changed"),
    }
}
