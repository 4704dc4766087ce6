use vstd::prelude::*;
use crate::loader::{FrameStreamer, PictureLoadResult, PictureLoadState, PictureLoader, loader_step};
use crate::navigator::{
    FilepathsNavigator, NavModel, NavigatorError, RefreshFlags, WatchEvent, apply_events,
};
use crate::paths::{extension_pred, sorted_paths, views_of};
use crate::picture::{Picture, PictureError, StillPicture};

verus! {

// One directory, one selected picture, one load session: the reader ties
// the navigator to the load sequencer.  Listing the directory, probing
// dimensions and decoding stay in the I/O shell and arrive here as plain
// values.

pub struct PictureDirectoryReader {
    navigator: FilepathsNavigator,
    loader: PictureLoader,
}

impl PictureDirectoryReader {
    pub closed spec fn navigator_spec(self) -> FilepathsNavigator {
        self.navigator
    }

    pub closed spec fn loader_spec(self) -> PictureLoader {
        self.loader
    }

    pub open spec fn wf(self) -> bool {
        &&& self.navigator_spec().wf()
        &&& self.loader_spec().wf()
    }

    /// Opens a directory: the navigator is built over the filtered,
    /// sorted listing, and the load sequencer starts empty until the
    /// shell probes the selected file.
    pub fn new(
        path: &Vec<u8>,
        path_is_file: bool,
        listing: Vec<Vec<u8>>,
        extensions: Vec<Vec<u8>>,
    ) -> (r: Result<PictureDirectoryReader, NavigatorError>)
        ensures
            ({
                let filtered = views_of(listing@).filter(extension_pred(views_of(extensions@)));
                match r {
                    Ok(reader) => {
                        &&& reader.wf()
                        &&& sorted_paths(reader.navigator_spec().entries())
                        &&& reader.navigator_spec().entries().to_multiset()
                            == filtered.to_multiset()
                        &&& path_is_file ==> reader.navigator_spec().selected_spec() == path@
                        &&& !path_is_file ==> reader.navigator_spec().cursor_spec() == 0
                        &&& reader.loader_spec().state_spec() is None
                    },
                    Err(NavigatorError::NoMatchingEntry(p)) => path_is_file
                        && !filtered.contains(path@) && p@ == path@,
                    Err(NavigatorError::EmptyList) => !path_is_file && filtered.len() == 0,
                    _ => false,
                }
            }),
    {
        match FilepathsNavigator::from_path(path, path_is_file, listing, extensions) {
            Ok(navigator) => Ok(
                PictureDirectoryReader { navigator, loader: PictureLoader::new() },
            ),
            Err(e) => Err(e),
        }
    }

    /// Re-roots the reader onto another path; on failure the old state
    /// stays usable.
    pub fn change_path(
        &mut self,
        path: &Vec<u8>,
        path_is_file: bool,
        listing: Vec<Vec<u8>>,
        extensions: Vec<Vec<u8>>,
    ) -> (r: Result<(), NavigatorError>)
        requires
            old(self).wf(),
        ensures
            final(self).wf(),
            ({
                let filtered = views_of(listing@).filter(extension_pred(views_of(extensions@)));
                match r {
                    Ok(()) => {
                        &&& final(self).navigator_spec().entries().to_multiset()
                            == filtered.to_multiset()
                        &&& path_is_file ==> final(self).navigator_spec().selected_spec()
                            == path@
                        &&& final(self).loader_spec().state_spec() is None
                    },
                    Err(_) => *final(self) == *old(self),
                }
            }),
    {
        match FilepathsNavigator::from_path(path, path_is_file, listing, extensions) {
            Ok(navigator) => {
                self.navigator = navigator;
                self.loader = PictureLoader::new();
                Ok(())
            },
            Err(e) => Err(e),
        }
    }

    /// The path the cursor rests on.
    pub fn selected_filepath(&self) -> (r: &Vec<u8>)
        requires
            self.wf(),
        ensures
            r@ == self.navigator_spec().selected_spec(),
    {
        self.navigator.selected()
    }

    /// Hands the shell's dimension probe for the selected file to the
    /// sequencer; the shell has asked the decoder for the picture.
    pub fn begin_load(&mut self, probe: Result<[u32; 2], PictureError>)
        requires
            old(self).wf(),
        ensures
            final(self).wf(),
            final(self).navigator_spec() == old(self).navigator_spec(),
            final(self).loader_spec().state_spec() == match probe {
                Ok(d) => Some(PictureLoadState::Loading(Some(d))),
                Err(e) => Some(PictureLoadState::PictureError(Some(e))),
            },
    {
        self.loader.load(probe);
    }

    /// Whether an animation is streaming: more frames will come.
    pub fn is_streaming(&self) -> (r: bool)
        ensures
            r == (self.loader_spec().state_spec() matches Some(PictureLoadState::Loaded(
                FrameStreamer::Motion(_),
            ))),
    {
        self.loader.is_streaming()
    }

    /// Classifies a batch of watch events exactly as the navigator's
    /// event model says.
    pub fn refresh_filepaths(&mut self, events: &Vec<WatchEvent>) -> (r: Result<
        RefreshFlags,
        NavigatorError,
    >)
        requires
            old(self).wf(),
        ensures
            final(self).loader_spec() == old(self).loader_spec(),
            match r {
                Ok(flags) => {
                    &&& final(self).wf()
                    &&& apply_events(old(self).navigator_spec().model(), events@) == Some(
                        NavModel {
                            entries: final(self).navigator_spec().entries(),
                            cursor: final(self).navigator_spec().cursor_spec(),
                            dirty: flags.dirty,
                            rescan: flags.rescan,
                        },
                    )
                },
                Err(NavigatorError::EmptyList) => apply_events(
                    old(self).navigator_spec().model(),
                    events@,
                ) is None,
                _ => false,
            },
    {
        self.navigator.refresh(events)
    }

    /// Replaces the entry list from a fresh listing; the selection
    /// survives every rescan that still finds its path.
    pub fn rescan(&mut self, listing: Vec<Vec<u8>>) -> (r: Result<(), NavigatorError>)
        requires
            old(self).wf(),
        ensures
            final(self).loader_spec() == old(self).loader_spec(),
            ({
                let filtered = views_of(listing@).filter(
                    extension_pred(old(self).navigator_spec().extensions_spec()),
                );
                match r {
                    Ok(()) => {
                        &&& final(self).wf()
                        &&& sorted_paths(final(self).navigator_spec().entries())
                        &&& final(self).navigator_spec().entries().to_multiset()
                            == filtered.to_multiset()
                        &&& final(self).navigator_spec().selected_spec() == old(
                            self,
                        ).navigator_spec().selected_spec()
                    },
                    Err(NavigatorError::NoMatchingEntry(p)) => {
                        &&& !filtered.contains(old(self).navigator_spec().selected_spec())
                        &&& p@ == old(self).navigator_spec().selected_spec()
                        &&& *final(self) == *old(self)
                    },
                    _ => false,
                }
            }),
    {
        self.navigator.rescan(listing)
    }

    /// Moves the cursor by a signed step, wrapping around the list.
    pub fn navigate(&mut self, direction: i8)
        requires
            old(self).wf(),
        ensures
            final(self).wf(),
            final(self).loader_spec() == old(self).loader_spec(),
            final(self).navigator_spec().entries() == old(self).navigator_spec().entries(),
            final(self).navigator_spec().cursor_spec() == (old(
                self,
            ).navigator_spec().cursor_spec() + direction as int) % (old(
                self,
            ).navigator_spec().entries().len() as int),
    {
        self.navigator.navigate(direction);
    }

    /// One poll of the load sequence.
    pub fn next(
        &mut self,
        fetched: Option<Result<Picture, PictureError>>,
        now: u64,
    ) -> (r: Option<PictureLoadResult>)
        requires
            old(self).wf(),
            match fetched {
                Some(Ok(p)) => p.wf(),
                _ => true,
            },
        ensures
            final(self).wf(),
            final(self).navigator_spec() == old(self).navigator_spec(),
            final(self).loader_spec().state_spec() == loader_step(
                old(self).loader_spec().state_spec(),
                fetched,
                now,
            ),
            match old(self).loader_spec().state_spec() {
                None => r is None,
                Some(PictureLoadState::PictureError(stored)) => match stored {
                    Some(e) => r == Some(PictureLoadResult::PictureError(e)),
                    None => r is None,
                },
                Some(PictureLoadState::Loading(Some(d))) => r == Some(
                    PictureLoadResult::Loading(d),
                ),
                Some(PictureLoadState::Loading(None)) => match fetched {
                    None => r is None,
                    Some(Err(e)) => r == Some(PictureLoadResult::PictureError(e)),
                    Some(Ok(Picture::Still(still))) => r == Some(
                        PictureLoadResult::Loaded(still),
                    ),
                    Some(Ok(Picture::Motion(p))) => {
                        if p.due(now) {
                            match r {
                                Some(PictureLoadResult::Loaded(s)) => s.wf(),
                                Some(PictureLoadResult::PictureError(
                                    PictureError::ICCError(_),
                                )) => true,
                                _ => false,
                            }
                        } else {
                            r is None
                        }
                    },
                },
                Some(PictureLoadState::Loaded(streamer)) => match streamer {
                    FrameStreamer::Still(stored) => match stored {
                        Some(s) => r == Some(PictureLoadResult::Loaded(s)),
                        None => r is None,
                    },
                    FrameStreamer::Motion(p) => {
                        if p.due(now) {
                            match r {
                                Some(PictureLoadResult::Loaded(s)) => s.wf(),
                                Some(PictureLoadResult::PictureError(
                                    PictureError::ICCError(_),
                                )) => true,
                                _ => false,
                            }
                        } else {
                            r is None
                        }
                    },
                },
            },
    {
        self.loader.next(fetched, now)
    }
}

} // verus!
