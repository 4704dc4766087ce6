use pictor::app::{App, AppPhase, LoadStep, QUIESCENCE_MS};
use pictor::interaction::{Interface, RenderMode};
use pictor::loader::PictureLoadResult;
use pictor::navigator::WatchEvent;
use pictor::picture::{Picture, PixelData, StillPicture, extensions};
use pictor::reader::PictureDirectoryReader;

fn decoded(width: u32, height: u32) -> Picture {
    Picture::Still(
        StillPicture::from_decoded(
            width,
            height,
            3,
            true,
            false,
            PixelData::EightBit(vec![10u8; (width * height * 3) as usize]),
            lcms2::Profile::new_srgb(),
        )
        .unwrap(),
    )
}

#[test]
fn session_walks_a_directory_end_to_end() {
    // a directory with a.png and b.png: the session selects a.png
    let listing = vec![b"/pics/a.png".to_vec(), b"/pics/b.png".to_vec()];
    let mut reader =
        PictureDirectoryReader::new(&b"/pics".to_vec(), false, listing, extensions()).unwrap();
    assert_eq!(reader.selected_filepath(), &b"/pics/a.png".to_vec());

    let mut driver = App::new();
    let mut screen = Interface::new(0, 0, 400, 300, 1600, 1200);
    driver.session_started();
    assert_eq!(driver.phase, AppPhase::Loading);

    // the probe yields the placeholder at the probed dimensions
    reader.begin_load(Ok([640, 480]));
    match reader.next(None, 0) {
        Some(PictureLoadResult::Loading(d)) => {
            let _ = screen.show_blank(d[0], d[1]);
            driver.load_stepped(LoadStep::Dimensions, 0);
        },
        _ => panic!("expected the dimension probe first"),
    }
    assert!(matches!(screen.mode, RenderMode::Blank));
    assert_eq!((screen.width, screen.height), (640, 480));
    assert_eq!(driver.phase, AppPhase::Loading);

    // the decode completes: the picture mode is applied
    let target = lcms2::Profile::new_srgb();
    match reader.next(Some(Ok(decoded(640, 480))), 1) {
        Some(PictureLoadResult::Loaded(still)) => {
            let _ = screen.show_picture(still, &target);
            driver.load_stepped(LoadStep::Frame { more: false }, 1);
        },
        _ => panic!("expected the loaded picture"),
    }
    assert!(matches!(screen.mode, RenderMode::Picture));
    assert_eq!(driver.phase, AppPhase::Idle(1));

    // the directory is left alone until the quiescence interval passed
    assert!(!driver.directory_poll_due(1));
    assert!(!driver.directory_poll_due(QUIESCENCE_MS));
    assert!(driver.directory_poll_due(1 + QUIESCENCE_MS));

    // pressing next selects b.png and restarts loading
    reader.navigate(1);
    assert_eq!(reader.selected_filepath(), &b"/pics/b.png".to_vec());
    driver.reload();
    assert_eq!(driver.phase, AppPhase::Loading);
    reader.begin_load(Ok([64, 48]));
    assert!(matches!(
        reader.next(None, 2),
        Some(PictureLoadResult::Loading(_))
    ));
    match reader.next(Some(Ok(decoded(64, 48))), 3) {
        Some(PictureLoadResult::Loaded(_)) => {
            driver.load_stepped(LoadStep::Frame { more: false }, 3);
        },
        _ => panic!("expected b.png to load"),
    }
    assert_eq!(driver.phase, AppPhase::Idle(3));

    // b.png disappears from disk while selected: the session falls back
    // to a.png and re-enters loading
    let events = vec![WatchEvent::Remove(b"/pics/b.png".to_vec())];
    let flags = reader.refresh_filepaths(&events).unwrap();
    assert!(flags.dirty);
    assert_eq!(reader.selected_filepath(), &b"/pics/a.png".to_vec());
    driver.reload();
    assert_eq!(driver.phase, AppPhase::Loading);
}

#[test]
fn failed_decode_rests_with_an_error() {
    let listing = vec![b"/pics/a.png".to_vec()];
    let mut reader =
        PictureDirectoryReader::new(&b"/pics".to_vec(), false, listing, extensions()).unwrap();
    let mut driver = App::new();
    let mut screen = Interface::new(0, 0, 400, 300, 1600, 1200);
    driver.session_started();
    reader.begin_load(Err(pictor::picture::PictureError::UnsupportedImageFormat));
    match reader.next(None, 0) {
        Some(PictureLoadResult::PictureError(_)) => {
            let _ = screen.show_error();
            driver.load_stepped(LoadStep::Failed, 0);
        },
        _ => panic!("expected the probe failure"),
    }
    assert!(screen.is_error());
    assert_eq!(driver.phase, AppPhase::Idle(0));
}

#[test]
fn fatal_errors_disable_the_session() {
    let mut driver = App::new();
    driver.disable();
    assert_eq!(driver.phase, AppPhase::Disabled);
    assert!(!driver.directory_poll_due(u64::MAX));
    driver.restart();
    assert_eq!(driver.phase, AppPhase::Init);
}

#[test]
fn change_path_reroots_the_reader() {
    let listing = vec![b"/pics/a.png".to_vec()];
    let mut reader =
        PictureDirectoryReader::new(&b"/pics".to_vec(), false, listing, extensions()).unwrap();
    let other = vec![b"/other/z.png".to_vec(), b"/other/y.png".to_vec()];
    reader
        .change_path(&b"/other/z.png".to_vec(), true, other, extensions())
        .unwrap();
    assert_eq!(reader.selected_filepath(), &b"/other/z.png".to_vec());
}
