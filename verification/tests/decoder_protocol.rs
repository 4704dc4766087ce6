use pictor::decoder::{DecoderPipe, WorkerPhase};
use pictor::picture::{Picture, PictureError, PixelData, StillPicture};

fn decoded() -> Picture {
    Picture::Still(
        StillPicture::from_decoded(
            1,
            1,
            1,
            false,
            false,
            PixelData::EightBit(vec![0u8]),
            lcms2::Profile::new_srgb(),
        )
        .unwrap(),
    )
}

#[test]
fn one_request_round_trips() {
    let mut pipe = DecoderPipe::new();
    pipe.request(b"/pics/a.png".to_vec());
    // nothing published yet: the poll is empty and non-blocking
    assert!(pipe.try_fetch().is_none());
    let taken = pipe.worker_take().unwrap();
    assert_eq!(taken, b"/pics/a.png".to_vec());
    pipe.worker_publish(Ok(decoded()));
    let fetched = pipe.try_fetch().unwrap();
    assert!(fetched.is_ok());
    // the slot is free and the worker released
    assert!(pipe.mailbox.is_none());
    assert!(matches!(pipe.phase, WorkerPhase::Idle));
}

#[test]
fn superseding_request_keeps_the_published_result() {
    let mut pipe = DecoderPipe::new();
    pipe.request(b"/pics/a.png".to_vec());
    pipe.worker_take().unwrap();
    pipe.worker_publish(Err(PictureError::UnsupportedImageFormat));
    // the user navigated away before the result was consumed
    pipe.request(b"/pics/b.png".to_vec());
    // the mailbox still holds the first job's result, untouched
    match &pipe.mailbox {
        Some((p, r)) => {
            assert_eq!(p, &b"/pics/a.png".to_vec());
            assert!(r.is_err());
        },
        None => panic!("the unconsumed result was lost"),
    }
    // draining discards the stale result whole and frees the worker
    assert!(pipe.try_fetch().is_none());
    assert!(pipe.mailbox.is_none());
    assert!(matches!(pipe.phase, WorkerPhase::Idle));
    // the worker can now pick up the superseding request
    let taken = pipe.worker_take().unwrap();
    assert_eq!(taken, b"/pics/b.png".to_vec());
}

#[test]
fn newer_request_replaces_a_pending_one() {
    let mut pipe = DecoderPipe::new();
    pipe.request(b"/pics/a.png".to_vec());
    pipe.request(b"/pics/b.png".to_vec());
    // the worker only ever sees the latest request
    let taken = pipe.worker_take().unwrap();
    assert_eq!(taken, b"/pics/b.png".to_vec());
    assert!(pipe.worker_take_is_empty());
}

#[test]
fn matching_result_is_consumed() {
    let mut pipe = DecoderPipe::new();
    pipe.request(b"/pics/a.png".to_vec());
    pipe.worker_take().unwrap();
    pipe.worker_publish(Ok(decoded()));
    let fetched = pipe.try_fetch();
    assert!(matches!(fetched, Some(Ok(Picture::Still(_)))));
}

trait TakeProbe {
    fn worker_take_is_empty(&mut self) -> bool;
}

impl TakeProbe for DecoderPipe {
    fn worker_take_is_empty(&mut self) -> bool {
        self.worker_take().is_none()
    }
}

#[test]
fn arrival_for_the_current_path_is_accepted() {
    let r = pictor::decoder::accept_arrival(
        &b"/pics/a.png".to_vec(),
        &Some(b"/pics/a.png".to_vec()),
        Ok(decoded()),
    );
    assert!(matches!(r, Some(Ok(Picture::Still(_)))));
}

#[test]
fn arrival_for_a_superseded_path_is_discarded() {
    let r = pictor::decoder::accept_arrival(
        &b"/pics/a.png".to_vec(),
        &Some(b"/pics/b.png".to_vec()),
        Ok(decoded()),
    );
    assert!(r.is_none());
    let r = pictor::decoder::accept_arrival(&b"/pics/a.png".to_vec(), &None, Ok(decoded()));
    assert!(r.is_none());
}
