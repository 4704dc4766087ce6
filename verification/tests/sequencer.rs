use pictor::loader::{PictureLoadResult, PictureLoader};
use pictor::picture::{
    Frame, FramesPlayer, Picture, PictureError, PixelData, StillPicture,
};

fn gray_still() -> StillPicture {
    StillPicture::from_decoded(
        2,
        2,
        1,
        false,
        false,
        PixelData::EightBit(vec![7u8; 4]),
        lcms2::Profile::new_srgb(),
    )
    .unwrap()
}

#[test]
fn still_picture_runs_dimensions_then_frame_then_nothing() {
    let mut loader = PictureLoader::new();
    loader.load(Ok([640, 480]));
    // first the probe
    match loader.next(None, 0) {
        Some(PictureLoadResult::Loading(d)) => assert_eq!(d, [640, 480]),
        _ => panic!("expected the dimension probe"),
    }
    // the decoder is still busy
    assert!(loader.next(None, 1).is_none());
    // the decoded still arrives and is yielded at once
    match loader.next(Some(Ok(Picture::Still(gray_still()))), 2) {
        Some(PictureLoadResult::Loaded(s)) => assert_eq!(s.resolution, [2, 2]),
        _ => panic!("expected the loaded picture"),
    }
    // the stream is exhausted for good
    assert!(loader.next(None, 3).is_none());
    assert!(loader.next(None, 1000).is_none());
}

#[test]
fn probe_error_is_yielded_once() {
    let mut loader = PictureLoader::new();
    loader.load(Err(PictureError::UnsupportedImageFormat));
    assert!(matches!(
        loader.next(None, 0),
        Some(PictureLoadResult::PictureError(
            PictureError::UnsupportedImageFormat
        ))
    ));
    // reported once, then quiet, not poisoned
    assert!(loader.next(None, 1).is_none());
    assert!(loader.next(None, 2).is_none());
}

#[test]
fn decode_error_is_yielded_once() {
    let mut loader = PictureLoader::new();
    loader.load(Ok([8, 8]));
    assert!(matches!(
        loader.next(None, 0),
        Some(PictureLoadResult::Loading(_))
    ));
    assert!(matches!(
        loader.next(Some(Err(PictureError::ZeroFrames)), 1),
        Some(PictureLoadResult::PictureError(PictureError::ZeroFrames))
    ));
    assert!(loader.next(None, 2).is_none());
}

#[test]
fn animation_paces_its_frames() {
    let frames = vec![
        Frame { still: gray_still(), interval: 10 },
        Frame { still: gray_still(), interval: 10 },
    ];
    let player = FramesPlayer::new(frames, 0).unwrap();
    let mut loader = PictureLoader::new();
    loader.load(Ok([2, 2]));
    assert!(matches!(
        loader.next(None, 0),
        Some(PictureLoadResult::Loading(_))
    ));
    // the animation arrives; its first frame is due at once
    assert!(matches!(
        loader.next(Some(Ok(Picture::Motion(player))), 0),
        Some(PictureLoadResult::Loaded(_))
    ));
    // too early for the second frame
    assert!(loader.next(None, 5).is_none());
    // due, and looping forever after
    assert!(matches!(
        loader.next(None, 10),
        Some(PictureLoadResult::Loaded(_))
    ));
    assert!(loader.next(None, 15).is_none());
    assert!(matches!(
        loader.next(None, 20),
        Some(PictureLoadResult::Loaded(_))
    ));
}

#[test]
fn idle_loader_yields_nothing() {
    let mut loader = PictureLoader::new();
    assert!(loader.next(None, 0).is_none());
}
