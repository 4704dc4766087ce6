use vstd::prelude::*;
use crate::paths::{
    copy_path, extension_pred, filter_by_extensions, path_eq, search_for, sort_paths,
    sorted_paths, views_of,
};

verus! {

// The navigator keeps the ordered, extension-filtered entry list of one
// directory and a selection cursor.  Reading the directory and watching it
// belong to the I/O shell; the navigator receives the listing and the watch
// events as plain values and is verified against the event model below.

/// A change reported for the watched directory, coalesced and debounced by
/// the shell before it reaches the navigator.
pub enum WatchEvent {
    /// The file at this path was written to.
    Write(Vec<u8>),
    /// An entry appeared.
    Create,
    /// The file at this path disappeared.
    Remove(Vec<u8>),
    /// The first path was renamed to the second.
    Rename(Vec<u8>, Vec<u8>),
    /// Permissions changed.
    Chmod,
    /// The watcher asks for a full re-listing.
    Rescan,
}

#[derive(Debug)]
pub enum NavigatorError {
    /// Reading the directory failed; the message comes from the shell.
    IO(String),
    /// The watch subscription failed; the message comes from the shell.
    Watch(String),
    /// The starting path is neither a file nor a directory.
    InvalidPath(Vec<u8>),
    /// The selected file is not in the filtered listing.
    NoMatchingEntry(Vec<u8>),
    /// Nothing with an allowed extension is left.
    EmptyList,
}

/// What `refresh` tells its caller to do next.
pub struct RefreshFlags {
    /// The selected entry changed on disk or was replaced: reload it.
    pub dirty: bool,
    /// The directory must be re-listed and `rescan` called.
    pub rescan: bool,
}

/// The navigator as the event model sees it.
pub struct NavModel {
    pub entries: Seq<Seq<u8>>,
    pub cursor: int,
    pub dirty: bool,
    pub rescan: bool,
}

/// Index of the first entry equal to `x`, or `-1`.
pub open spec fn first_index(s: Seq<Seq<u8>>, x: Seq<u8>) -> int
    decreases s.len(),
{
    if s.len() == 0 {
        -1
    } else if s[0] == x {
        0
    } else {
        let r = first_index(s.drop_first(), x);
        if r < 0 {
            -1
        } else {
            r + 1
        }
    }
}

proof fn lemma_first_index_present(s: Seq<Seq<u8>>, x: Seq<u8>, i: int)
    requires
        0 <= i < s.len(),
        s[i] == x,
        forall|j: int| 0 <= j < i ==> s[j] != x,
    ensures
        first_index(s, x) == i,
    decreases i,
{
    if i == 0 {
    } else {
        assert(s[0] != x);
        assert(forall|j: int| 0 <= j < i - 1 ==> s.drop_first()[j] != x);
        assert(s.drop_first()[i - 1] == x);
        lemma_first_index_present(s.drop_first(), x, i - 1);
    }
}

proof fn lemma_first_index_absent(s: Seq<Seq<u8>>, x: Seq<u8>)
    requires
        forall|j: int| 0 <= j < s.len() ==> s[j] != x,
    ensures
        first_index(s, x) == -1,
    decreases s.len(),
{
    if s.len() > 0 {
        assert(forall|j: int| 0 <= j < s.len() - 1 ==> s.drop_first()[j] != x);
        lemma_first_index_absent(s.drop_first(), x);
    }
}

proof fn lemma_first_index_bounds(s: Seq<Seq<u8>>, x: Seq<u8>)
    ensures
        -1 <= first_index(s, x) < s.len(),
        first_index(s, x) >= 0 ==> s[first_index(s, x)] == x,
    decreases s.len(),
{
    if s.len() > 0 && s[0] != x {
        lemma_first_index_bounds(s.drop_first(), x);
    }
}

/// One watch event applied to the model.  `None` is the unrecoverable
/// empty-list outcome.
pub open spec fn apply_event(m: NavModel, e: WatchEvent) -> Option<NavModel> {
    match e {
        WatchEvent::Write(p) => {
            if p@ == m.entries[m.cursor] {
                Some(NavModel { dirty: true, ..m })
            } else {
                Some(m)
            }
        },
        WatchEvent::Create => Some(NavModel { rescan: true, ..m }),
        WatchEvent::Chmod => Some(NavModel { rescan: true, ..m }),
        WatchEvent::Rescan => Some(NavModel { rescan: true, ..m }),
        WatchEvent::Remove(p) => {
            let idx = first_index(m.entries, p@);
            if idx < 0 {
                Some(m)
            } else {
                let entries = m.entries.remove(idx);
                if entries.len() == 0 {
                    None
                } else if idx == m.cursor {
                    Some(
                        NavModel {
                            entries,
                            cursor: m.cursor % (entries.len() as int),
                            dirty: true,
                            ..m
                        },
                    )
                } else if idx < m.cursor {
                    Some(NavModel { entries, cursor: m.cursor - 1, ..m })
                } else {
                    Some(NavModel { entries, ..m })
                }
            }
        },
        WatchEvent::Rename(src, dst) => {
            if src@ == m.entries[m.cursor] {
                Some(
                    NavModel { entries: m.entries.update(m.cursor, dst@), rescan: true, ..m },
                )
            } else {
                Some(m)
            }
        },
    }
}

/// Law: removal keeps the cursor on the same logical entry.  Removing an
/// entry before the cursor moves the cursor back by exactly one;
/// removing the selected entry itself marks the state dirty and wraps
/// the cursor into the shorter list.
pub proof fn lemma_removal_adjacency(m: NavModel, p: Vec<u8>)
    requires
        0 <= m.cursor < m.entries.len(),
        m.entries.len() > 1,
        first_index(m.entries, p@) >= 0,
    ensures
        ({
            let idx = first_index(m.entries, p@);
            let r = apply_event(m, WatchEvent::Remove(p));
            &&& r is Some
            &&& idx < m.cursor ==> r == Some(
                NavModel { entries: m.entries.remove(idx), cursor: m.cursor - 1, ..m },
            )
            &&& idx == m.cursor ==> r == Some(
                NavModel {
                    entries: m.entries.remove(idx),
                    cursor: m.cursor % (m.entries.len() - 1),
                    dirty: true,
                    ..m
                },
            )
        }),
{
    lemma_first_index_bounds(m.entries, p@);
}

/// A batch of watch events applied in order; a failed step fails the batch.
pub open spec fn apply_events(m: NavModel, evs: Seq<WatchEvent>) -> Option<NavModel>
    decreases evs.len(),
{
    if evs.len() == 0 {
        Some(m)
    } else {
        match apply_event(m, evs[0]) {
            Some(m2) => apply_events(m2, evs.drop_first()),
            None => None,
        }
    }
}

proof fn lemma_apply_events_snoc(m: NavModel, evs: Seq<WatchEvent>, k: int)
    requires
        0 <= k < evs.len(),
    ensures
        apply_events(m, evs.take(k + 1)) == (match apply_events(m, evs.take(k)) {
            Some(m2) => apply_event(m2, evs[k]),
            None => None,
        }),
    decreases k,
{
    if k == 0 {
        assert(evs.take(1)[0] == evs[0]);
        assert(evs.take(0).len() == 0);
        assert(apply_events(m, evs.take(0)) == Some(m));
        match apply_event(m, evs[0]) {
            Some(m2) => {
                assert(apply_events(m, evs.take(1)) == apply_events(
                    m2,
                    evs.take(1).drop_first(),
                ));
                assert(evs.take(1).drop_first().len() == 0);
                assert(apply_events(m2, evs.take(1).drop_first()) == Some(m2));
            },
            None => {
                assert(apply_events(m, evs.take(1)) is None);
            },
        }
    } else {
        assert(evs.take(k + 1)[0] == evs[0]);
        assert(evs.take(k)[0] == evs[0]);
        match apply_event(m, evs[0]) {
            Some(m2) => {
                assert(evs.take(k + 1).drop_first() =~= evs.drop_first().take(k));
                assert(evs.take(k).drop_first() =~= evs.drop_first().take(k - 1));
                lemma_apply_events_snoc(m2, evs.drop_first(), k - 1);
                assert(evs.drop_first()[k - 1] == evs[k]);
            },
            None => {},
        }
    }
}

proof fn lemma_apply_events_none_sticks(m: NavModel, evs: Seq<WatchEvent>, k: int)
    requires
        0 <= k <= evs.len(),
        apply_events(m, evs.take(k)) is None,
    ensures
        apply_events(m, evs) is None,
    decreases evs.len(),
{
    if evs.len() > 0 {
        assert(k > 0) by {
            if k == 0 {
                assert(evs.take(0) =~= Seq::<WatchEvent>::empty());
            }
        }
        assert(evs.take(k)[0] == evs[0]);
        match apply_event(m, evs[0]) {
            Some(m2) => {
                assert(evs.take(k).drop_first() =~= evs.drop_first().take(k - 1));
                lemma_apply_events_none_sticks(m2, evs.drop_first(), k - 1);
            },
            None => {},
        }
    }
}

/// The ordered, filtered entry list of one directory with its selection
/// cursor.
pub struct FilepathsNavigator {
    filepaths: Vec<Vec<u8>>,
    extensions: Vec<Vec<u8>>,
    cursor: usize,
}

impl FilepathsNavigator {
    /// The entry list as byte strings.
    pub closed spec fn entries(self) -> Seq<Seq<u8>> {
        views_of(self.filepaths@)
    }

    pub closed spec fn cursor_spec(self) -> int {
        self.cursor as int
    }

    /// The path the cursor rests on.
    pub open spec fn selected_spec(self) -> Seq<u8> {
        self.entries()[self.cursor_spec()]
    }

    /// The allowed extensions this navigator filters by.
    pub closed spec fn extensions_spec(self) -> Seq<Seq<u8>> {
        views_of(self.extensions@)
    }

    /// A live navigator: a non-empty list and a cursor inside it.
    pub open spec fn wf(self) -> bool {
        &&& self.entries().len() > 0
        &&& 0 <= self.cursor_spec() < self.entries().len()
    }

    /// The navigator as the event model sees it, before any event.
    pub open spec fn model(self) -> NavModel {
        NavModel { entries: self.entries(), cursor: self.cursor_spec(), dirty: false, rescan: false }
    }

    /// Builds a navigator from the listing of the directory that holds
    /// `path`.  The listing is filtered by extension and sorted; when `path`
    /// names a file, the cursor is put on it.
    pub fn from_path(
        path: &Vec<u8>,
        path_is_file: bool,
        listing: Vec<Vec<u8>>,
        extensions: Vec<Vec<u8>>,
    ) -> (r: Result<Self, NavigatorError>)
        ensures
            ({
                let filtered = views_of(listing@).filter(extension_pred(views_of(extensions@)));
                match r {
                    Ok(nav) => {
                        &&& nav.wf()
                        &&& sorted_paths(nav.entries())
                        &&& nav.entries().to_multiset() == filtered.to_multiset()
                        &&& nav.extensions_spec() == views_of(extensions@)
                        &&& path_is_file ==> nav.selected_spec() == path@
                        &&& !path_is_file ==> nav.cursor_spec() == 0
                    },
                    Err(NavigatorError::NoMatchingEntry(p)) => {
                        &&& path_is_file
                        &&& !filtered.contains(path@)
                        &&& p@ == path@
                    },
                    Err(NavigatorError::EmptyList) => {
                        &&& !path_is_file
                        &&& filtered.len() == 0
                    },
                    _ => false,
                }
            }),
    {
        broadcast use vstd::seq_lib::group_to_multiset_ensures;

        let mut filepaths = filter_by_extensions(listing, &extensions);
        sort_paths(&mut filepaths);
        let ghost filtered = views_of(listing@).filter(extension_pred(views_of(extensions@)));
        let cursor: usize;
        if path_is_file {
            match search_for(&filepaths, path) {
                Some(index) => {
                    cursor = index;
                },
                None => {
                    proof {
                        assert forall|k: int|
                            0 <= k < filtered.len() implies filtered[k] != path@ by {
                            assert(filtered.contains(filtered[k]));
                            assert(views_of(filepaths@).to_multiset().contains(filtered[k]));
                        }
                        if filtered.contains(path@) {
                            assert(false);
                        }
                    }
                    return Err(NavigatorError::NoMatchingEntry(copy_path(path)));
                },
            }
        } else {
            cursor = 0;
            if filepaths.len() == 0 {
                return Err(NavigatorError::EmptyList);
            }
        }
        let this = Self { filepaths, extensions, cursor };
        assert(this.wf());
        Ok(this)
    }

    /// The path the cursor rests on.
    pub fn selected(&self) -> (r: &Vec<u8>)
        requires
            self.wf(),
        ensures
            r@ == self.selected_spec(),
    {
        &self.filepaths[self.cursor]
    }

    /// Moves the cursor by a signed step, wrapping around the list.
    pub fn navigate(&mut self, direction: i8)
        requires
            old(self).wf(),
        ensures
            final(self).wf(),
            final(self).entries() == old(self).entries(),
            final(self).extensions_spec() == old(self).extensions_spec(),
            final(self).cursor_spec() == (old(self).cursor_spec() + direction as int) % (
            old(self).entries().len() as int),
    {
        let len = self.filepaths.len();
        let ghost c = self.cursor as int;
        let ghost n = len as int;
        let ghost d = direction as int;
        if direction >= 0 {
            let step: usize = (direction as usize) % len;
            let room = len - self.cursor;
            if step < room {
                self.cursor = self.cursor + step;
            } else {
                self.cursor = step - room;
            }
            proof {
                vstd::arithmetic::div_mod::lemma_add_mod_noop(c, d, n);
                vstd::arithmetic::div_mod::lemma_small_mod(c as nat, n as nat);
                assert((c + d) % n == (c + d % n) % n);
                if c + d % n < n {
                    vstd::arithmetic::div_mod::lemma_small_mod((c + d % n) as nat, n as nat);
                } else {
                    vstd::arithmetic::div_mod::lemma_mod_sub_multiples_vanish(c + d % n, n);
                    vstd::arithmetic::div_mod::lemma_small_mod(
                        (c + d % n - n) as nat,
                        n as nat,
                    );
                }
            }
        } else {
            let back: usize = (-(direction as i64)) as usize;
            let step: usize = back % len;
            if step <= self.cursor {
                self.cursor = self.cursor - step;
            } else {
                self.cursor = self.cursor + (len - step);
            }
            proof {
                let b = back as int;
                vstd::arithmetic::div_mod::lemma_sub_mod_noop(c, b, n);
                vstd::arithmetic::div_mod::lemma_small_mod(c as nat, n as nat);
                assert((c - b) % n == (c - b % n) % n);
                if b % n <= c {
                    vstd::arithmetic::div_mod::lemma_small_mod((c - b % n) as nat, n as nat);
                } else {
                    vstd::arithmetic::div_mod::lemma_mod_add_multiples_vanish(c - b % n, n);
                    vstd::arithmetic::div_mod::lemma_small_mod(
                        (c - b % n + n) as nat,
                        n as nat,
                    );
                }
                assert(d == -b);
            }
        }
    }

    /// Classifies a batch of watch events, following the event model step by
    /// step: a write to the selected entry marks it dirty, a removal edits
    /// the list and keeps the cursor on the same logical entry, a rename of
    /// the selected entry replaces its stored path, and everything else that
    /// alters the directory asks for a rescan.
    pub fn refresh(&mut self, events: &Vec<WatchEvent>) -> (r: Result<
        RefreshFlags,
        NavigatorError,
    >)
        requires
            old(self).wf(),
        ensures
            final(self).extensions_spec() == old(self).extensions_spec(),
            match r {
                Ok(flags) => {
                    &&& final(self).wf()
                    &&& apply_events(old(self).model(), events@) == Some(
                        NavModel {
                            entries: final(self).entries(),
                            cursor: final(self).cursor_spec(),
                            dirty: flags.dirty,
                            rescan: flags.rescan,
                        },
                    )
                },
                Err(NavigatorError::EmptyList) => apply_events(old(self).model(), events@)
                    is None,
                _ => false,
            },
    {
        let mut dirty = false;
        let mut rescan = false;
        let mut k: usize = 0;
        while k < events.len()
            invariant
                k <= events@.len(),
                self.wf(),
                self.extensions_spec() == old(self).extensions_spec(),
                apply_events(old(self).model(), events@.take(k as int)) == Some(
                    NavModel {
                        entries: self.entries(),
                        cursor: self.cursor_spec(),
                        dirty: dirty,
                        rescan: rescan,
                    },
                ),
            decreases events@.len() - k,
        {
            proof {
                lemma_apply_events_snoc(old(self).model(), events@, k as int);
            }
            match &events[k] {
                WatchEvent::Write(p) => {
                    if path_eq(p, &self.filepaths[self.cursor]) {
                        dirty = true;
                    }
                },
                WatchEvent::Create => {
                    rescan = true;
                },
                WatchEvent::Chmod => {
                    rescan = true;
                },
                WatchEvent::Rescan => {
                    rescan = true;
                },
                WatchEvent::Remove(p) => {
                    match search_for(&self.filepaths, p) {
                        Some(index) => {
                            proof {
                                lemma_first_index_present(self.entries(), p@, index as int);
                            }
                            let ghost before = self.entries();
                            self.filepaths.remove(index);
                            assert(self.entries() =~= before.remove(index as int));
                            if self.filepaths.len() == 0 {
                                proof {
                                    lemma_apply_events_none_sticks(
                                        old(self).model(),
                                        events@,
                                        k + 1,
                                    );
                                }
                                return Err(NavigatorError::EmptyList);
                            }
                            if index == self.cursor {
                                self.cursor = self.cursor % self.filepaths.len();
                                dirty = true;
                            } else if index < self.cursor {
                                self.cursor = self.cursor - 1;
                            }
                        },
                        None => {
                            proof {
                                lemma_first_index_absent(self.entries(), p@);
                            }
                        },
                    }
                },
                WatchEvent::Rename(src, dst) => {
                    if path_eq(src, &self.filepaths[self.cursor]) {
                        let ghost before = self.entries();
                        let replacement = copy_path(dst);
                        self.filepaths.set(self.cursor, replacement);
                        assert(self.entries() =~= before.update(self.cursor as int, dst@));
                        rescan = true;
                    }
                },
            }
            k = k + 1;
        }
        proof {
            assert(events@.take(events@.len() as int) =~= events@);
        }
        Ok(RefreshFlags { dirty, rescan })
    }

    /// Replaces the entry list from a fresh listing of the directory and
    /// re-locates the selected path; the selection survives every rescan
    /// that still finds its path.
    pub fn rescan(&mut self, listing: Vec<Vec<u8>>) -> (r: Result<(), NavigatorError>)
        requires
            old(self).wf(),
        ensures
            ({
                let filtered = views_of(listing@).filter(
                    extension_pred(old(self).extensions_spec()),
                );
                match r {
                    Ok(()) => {
                        &&& final(self).wf()
                        &&& sorted_paths(final(self).entries())
                        &&& final(self).entries().to_multiset() == filtered.to_multiset()
                        &&& final(self).selected_spec() == old(self).selected_spec()
                        &&& final(self).extensions_spec() == old(self).extensions_spec()
                    },
                    Err(NavigatorError::NoMatchingEntry(p)) => {
                        &&& !filtered.contains(old(self).selected_spec())
                        &&& p@ == old(self).selected_spec()
                        &&& *final(self) == *old(self)
                    },
                    _ => false,
                }
            }),
    {
        broadcast use vstd::seq_lib::group_to_multiset_ensures;

        let ghost filtered = views_of(listing@).filter(extension_pred(self.extensions_spec()));
        let mut fresh = filter_by_extensions(listing, &self.extensions);
        sort_paths(&mut fresh);
        let selected = copy_path(&self.filepaths[self.cursor]);
        match search_for(&fresh, &selected) {
            Some(index) => {
                self.filepaths = fresh;
                self.cursor = index;
                Ok(())
            },
            None => {
                proof {
                    assert forall|j: int|
                        0 <= j < filtered.len() implies filtered[j] != selected@ by {
                        assert(filtered.contains(filtered[j]));
                        assert(views_of(fresh@).to_multiset().contains(filtered[j]));
                    }
                    if filtered.contains(selected@) {
                        assert(false);
                    }
                }
                Err(NavigatorError::NoMatchingEntry(selected))
            },
        }
    }
}

} // verus!
