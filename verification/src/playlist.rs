//! Named, ordered collections of tracks: the playlist store.
//!
//! The store maps playlist names to ordered track lists; names are unique.
//! Order is meaningful — a playlist is the play queue.

use vstd::prelude::*;
use vstd::string::StringExecFns;
use crate::text::{dec_digits, u64_to_string};

verus! {

/// One playable track.  Immutable once constructed; removal by title uses
/// exact string match.
pub struct Track {
    pub title: String,
    pub file_path: String,
    pub url: Option<String>,
    pub duration: Option<String>,
}

impl Clone for Track {
    fn clone(&self) -> (r: Self)
        ensures
            r == *self,
    {
        Track {
            title: self.title.clone(),
            file_path: self.file_path.clone(),
            url: match &self.url {
                Some(u) => Some(u.clone()),
                None => None,
            },
            duration: match &self.duration {
                Some(d) => Some(d.clone()),
                None => None,
            },
        }
    }
}

/// Whether some track in `ts` bears exactly this title.
pub open spec fn has_track_titled(ts: Seq<Track>, title: Seq<char>) -> bool {
    exists|i: int| 0 <= i < ts.len() && ts[i].title@ == title
}

/// Whether `i` is the position of the first track in `ts` with this title.
pub open spec fn is_first_title_index(ts: Seq<Track>, title: Seq<char>, i: int) -> bool {
    &&& 0 <= i < ts.len()
    &&& ts[i].title@ == title
    &&& forall|j: int| 0 <= j < i ==> ts[j].title@ != title
}

/// A named ordered track list.
pub struct Playlist {
    pub name: String,
    pub tracks: Vec<Track>,
}

impl Clone for Playlist {
    fn clone(&self) -> (r: Self)
        ensures
            r.name@ == self.name@,
            r.tracks@ == self.tracks@,
    {
        let mut tracks: Vec<Track> = Vec::new();
        let mut i: usize = 0;
        while i < self.tracks.len()
            invariant
                i <= self.tracks.len(),
                tracks@ == self.tracks@.take(i as int),
            decreases self.tracks.len() - i,
        {
            tracks.push(self.tracks[i].clone());
            proof {
                assert(tracks@ =~= self.tracks@.take(i + 1));
            }
            i += 1;
        }
        proof {
            assert(self.tracks@.take(self.tracks@.len() as int) =~= self.tracks@);
        }
        Playlist { name: self.name.clone(), tracks }
    }
}

impl Playlist {
    /// A new, empty playlist with this name.
    pub fn new(name: &str) -> (r: Self)
        ensures
            r.name@ == name@,
            r.tracks@ == Seq::<Track>::empty(),
    {
        Playlist { name: name.to_owned(), tracks: Vec::new() }
    }

    /// Appends a track at the end of the play queue.
    pub fn add_track(&mut self, track: Track)
        ensures
            final(self).name@ == old(self).name@,
            final(self).tracks@ == old(self).tracks@.push(track),
    {
        self.tracks.push(track);
    }

    /// Removes and returns the track at `index`, or nothing when the index
    /// is out of range.
    pub fn remove_track_by_index(&mut self, index: usize) -> (r: Option<Track>)
        ensures
            final(self).name@ == old(self).name@,
            index < old(self).tracks@.len() ==> {
                &&& r == Some(old(self).tracks@[index as int])
                &&& final(self).tracks@ == old(self).tracks@.remove(index as int)
            },
            index >= old(self).tracks@.len() ==> {
                &&& r is None
                &&& final(self).tracks@ == old(self).tracks@
            },
    {
        if index < self.tracks.len() {
            Some(self.tracks.remove(index))
        } else {
            None
        }
    }

    /// The position of the first track with exactly this title, if any.
    pub fn find_title_index(&self, title: &str) -> (r: Option<usize>)
        ensures
            match r {
                Some(i) => is_first_title_index(self.tracks@, title@, i as int),
                None => !has_track_titled(self.tracks@, title@),
            },
    {
        let key: String = title.to_owned();
        let mut i: usize = 0;
        while i < self.tracks.len()
            invariant
                i <= self.tracks@.len(),
                key@ == title@,
                forall|j: int| 0 <= j < i ==> self.tracks@[j].title@ != title@,
            decreases self.tracks@.len() - i,
        {
            if self.tracks[i].title == key {
                return Some(i);
            }
            i += 1;
        }
        proof {
            if has_track_titled(self.tracks@, title@) {
                let w = choose|w: int|
                    0 <= w < self.tracks@.len() && self.tracks@[w].title@ == title@;
                assert(self.tracks@[w].title@ != title@);
            }
        }
        None
    }

    /// Removes and returns the first track with exactly this title, or
    /// nothing when no track bears it.
    pub fn remove_track_by_title(&mut self, title: &str) -> (r: Option<Track>)
        ensures
            final(self).name@ == old(self).name@,
            !has_track_titled(old(self).tracks@, title@) ==> {
                &&& r is None
                &&& final(self).tracks@ == old(self).tracks@
            },
            has_track_titled(old(self).tracks@, title@) ==> exists|i: int|
                {
                    &&& #[trigger] is_first_title_index(old(self).tracks@, title@, i)
                    &&& r == Some(old(self).tracks@[i])
                    &&& final(self).tracks@ == old(self).tracks@.remove(i)
                },
    {
        let key: String = title.to_owned();
        let mut i: usize = 0;
        while i < self.tracks.len()
            invariant
                *self == *old(self),
                i <= self.tracks@.len(),
                key@ == title@,
                forall|j: int| 0 <= j < i ==> self.tracks@[j].title@ != title@,
            decreases self.tracks@.len() - i,
        {
            if self.tracks[i].title == key {
                let ghost gi = i as int;
                let t = self.tracks.remove(i);
                proof {
                    assert(is_first_title_index(old(self).tracks@, title@, gi));
                }
                return Some(t);
            }
            i += 1;
        }
        proof {
            if has_track_titled(self.tracks@, title@) {
                let w = choose|w: int|
                    0 <= w < self.tracks@.len() && self.tracks@[w].title@ == title@;
                assert(self.tracks@[w].title@ != title@);
            }
        }
        None
    }

    /// The listing lines of this playlist: each track as its one-based
    /// position, title and path.
    pub fn track_lines(&self) -> (r: Vec<String>)
        ensures
            r@.len() == self.tracks@.len(),
            forall|i: int|
                0 <= i < r@.len() ==> (#[trigger] r@[i])@ == track_line_spec(
                    i as nat,
                    self.tracks@[i],
                ),
    {
        let mut r: Vec<String> = Vec::new();
        let mut i: usize = 0;
        while i < self.tracks.len()
            invariant
                i <= self.tracks@.len(),
                r@.len() == i as int,
                forall|j: int|
                    0 <= j < i ==> (#[trigger] r@[j])@ == track_line_spec(
                        j as nat,
                        self.tracks@[j],
                    ),
            decreases self.tracks@.len() - i,
        {
            let mut line = u64_to_string(i as u64 + 1);
            line.append(". ");
            line.append(self.tracks[i].title.as_str());
            line.append(" (");
            line.append(self.tracks[i].file_path.as_str());
            line.append(")");
            proof {
                assert(line@ =~= track_line_spec(i as nat, self.tracks@[i as int]));
            }
            r.push(line);
            i += 1;
        }
        r
    }
}

/// The listing line of one track: its one-based position, title and path.
pub open spec fn track_line_spec(index: nat, t: Track) -> Seq<char> {
    dec_digits(index + 1) + ". "@ + t.title@ + " ("@ + t.file_path@ + ")"@
}

/// The store: a mapping from playlist name to playlist, names unique.
pub struct PlaylistManager {
    playlists: Vec<Playlist>,
}

impl PlaylistManager {
    /// The stored playlists, in insertion order.
    pub closed spec fn spec_playlists(&self) -> Seq<Playlist> {
        self.playlists@
    }

    /// The stored playlist names, in insertion order.
    pub open spec fn names(&self) -> Seq<Seq<char>> {
        self.spec_playlists().map_values(|p: Playlist| p.name@)
    }

    /// Well-formedness: playlist names are pairwise distinct.
    pub open spec fn wf(&self) -> bool {
        forall|i: int, j: int|
            0 <= i < j < self.names().len() ==> self.names()[i] != self.names()[j]
    }

    /// Whether a playlist with this name exists.
    pub open spec fn has_playlist(&self, name: Seq<char>) -> bool {
        exists|i: int|
            0 <= i < self.spec_playlists().len() && #[trigger] self.spec_playlists()[i].name@
                == name
    }

    /// The position of the playlist with this name (meaningful when it
    /// exists and names are unique).
    pub open spec fn index_of(&self, name: Seq<char>) -> int {
        choose|i: int|
            0 <= i < self.spec_playlists().len() && #[trigger] self.spec_playlists()[i].name@
                == name
    }

    /// The track list stored under this name.
    pub open spec fn tracks_of(&self, name: Seq<char>) -> Seq<Track> {
        self.spec_playlists()[self.index_of(name)].tracks@
    }

    /// Whether two stores agree about the playlist named `n`.
    pub open spec fn same_on(&self, other: &Self, n: Seq<char>) -> bool {
        &&& self.has_playlist(n) == other.has_playlist(n)
        &&& (self.has_playlist(n) ==> self.tracks_of(n) == other.tracks_of(n))
    }

    /// In a well-formed store, any position bearing `name` is the position
    /// `index_of` denotes.
    proof fn lemma_index_unique(&self, name: Seq<char>, i: int)
        requires
            self.wf(),
            0 <= i < self.spec_playlists().len(),
            self.spec_playlists()[i].name@ == name,
        ensures
            self.has_playlist(name),
            self.index_of(name) == i,
    {
        assert(self.has_playlist(name));
        let j = self.index_of(name);
        assert(self.names()[i] == name);
        assert(self.names()[j] == name);
        if i != j {
            if i < j {
                assert(self.names()[i] != self.names()[j]);
            } else {
                assert(self.names()[j] != self.names()[i]);
            }
        }
    }

    /// An empty store.
    pub fn new() -> (r: Self)
        ensures
            r.spec_playlists() == Seq::<Playlist>::empty(),
            r.wf(),
            forall|n: Seq<char>| !r.has_playlist(n),
    {
        PlaylistManager { playlists: Vec::new() }
    }

    /// The position of the playlist with this name, if any.
    fn find_index(&self, name: &str) -> (r: Option<usize>)
        ensures
            match r {
                Some(i) => {
                    &&& i < self.spec_playlists().len()
                    &&& self.spec_playlists()[i as int].name@ == name@
                },
                None => !self.has_playlist(name@),
            },
    {
        let key: String = name.to_owned();
        let mut i: usize = 0;
        while i < self.playlists.len()
            invariant
                i <= self.spec_playlists().len(),
                key@ == name@,
                forall|j: int|
                    0 <= j < i ==> #[trigger] self.spec_playlists()[j].name@ != name@,
            decreases self.spec_playlists().len() - i,
        {
            if self.playlists[i].name == key {
                return Some(i);
            }
            i += 1;
        }
        None
    }

    /// Creates an empty playlist under this name; refuses (and leaves the
    /// store, every existing playlist and its tracks untouched) when the
    /// name is already taken.
    pub fn create_playlist(&mut self, name: &str) -> (r: bool)
        requires
            old(self).wf(),
        ensures
            final(self).wf(),
            r == !old(self).has_playlist(name@),
            old(self).has_playlist(name@) ==> *final(self) == *old(self),
            !old(self).has_playlist(name@) ==> {
                &&& final(self).has_playlist(name@)
                &&& final(self).tracks_of(name@) == Seq::<Track>::empty()
            },
            forall|n: Seq<char>| n != name@ ==> #[trigger] final(self).same_on(old(self), n),
    {
        match self.find_index(name) {
            Some(_) => false,
            None => {
                let pl = Playlist::new(name);
                self.playlists.push(pl);
                proof {
                    let prev = old(self);
                    let len = prev.spec_playlists().len() as int;
                    assert(self.names() =~= prev.names().push(name@));
                    assert forall|i: int, j: int|
                        0 <= i < j < self.names().len() implies self.names()[i]
                        != self.names()[j] by {
                        if j < len {
                            assert(prev.names()[i] != prev.names()[j]);
                        } else {
                            assert(self.names()[j] == name@);
                            assert(prev.spec_playlists()[i].name@ != name@);
                        }
                    }
                    self.lemma_index_unique(name@, len);
                    assert(self.tracks_of(name@) =~= Seq::<Track>::empty());
                    assert forall|n: Seq<char>| n != name@ implies #[trigger] self.same_on(
                        prev,
                        n,
                    ) by {
                        if self.has_playlist(n) {
                            let i = choose|i: int|
                                0 <= i < self.spec_playlists().len()
                                    && #[trigger] self.spec_playlists()[i].name@ == n;
                            assert(i < len);
                            prev.lemma_index_unique(n, i);
                            self.lemma_index_unique(n, i);
                        } else {
                            if prev.has_playlist(n) {
                                let i = choose|i: int|
                                    0 <= i < prev.spec_playlists().len()
                                        && #[trigger] prev.spec_playlists()[i].name@ == n;
                                assert(self.spec_playlists()[i].name@ == n);
                            }
                        }
                    }
                }
                true
            },
        }
    }

    /// Deletes the playlist with this name; reports failure (and leaves the
    /// store's set of playlist names, and every playlist, unchanged) when no
    /// such playlist exists.
    pub fn delete_playlist(&mut self, name: &str) -> (r: bool)
        requires
            old(self).wf(),
        ensures
            final(self).wf(),
            r == old(self).has_playlist(name@),
            !old(self).has_playlist(name@) ==> *final(self) == *old(self),
            !final(self).has_playlist(name@),
            forall|n: Seq<char>| n != name@ ==> #[trigger] final(self).same_on(old(self), n),
    {
        match self.find_index(name) {
            None => {
                proof {
                    if self.has_playlist(name@) {
                        let i = self.index_of(name@);
                    }
                }
                false
            },
            Some(i) => {
                let ghost gi = i as int;
                let _removed = self.playlists.remove(i);
                proof {
                    let prev = old(self);
                    assert(self.spec_playlists() =~= prev.spec_playlists().remove(gi));
                    assert forall|a: int, b: int|
                        0 <= a < b < self.names().len() implies self.names()[a]
                        != self.names()[b] by {
                        let a0 = if a < gi { a } else { a + 1 };
                        let b0 = if b < gi { b } else { b + 1 };
                        assert(self.spec_playlists()[a] == prev.spec_playlists()[a0]);
                        assert(self.spec_playlists()[b] == prev.spec_playlists()[b0]);
                        assert(prev.names()[a0] != prev.names()[b0]);
                    }
                    assert forall|j: int|
                        0 <= j < self.spec_playlists().len() implies #[trigger] self
                            .spec_playlists()[j].name@ != name@ by {
                        let j0 = if j < gi { j } else { j + 1 };
                        assert(self.spec_playlists()[j] == prev.spec_playlists()[j0]);
                        if j0 != gi {
                            prev.lemma_index_unique(name@, gi);
                            if prev.spec_playlists()[j0].name@ == name@ {
                                prev.lemma_index_unique(name@, j0);
                            }
                        }
                    }
                    assert forall|n: Seq<char>| n != name@ implies #[trigger] self.same_on(
                        prev,
                        n,
                    ) by {
                        if self.has_playlist(n) {
                            let i2 = choose|k: int|
                                0 <= k < self.spec_playlists().len()
                                    && #[trigger] self.spec_playlists()[k].name@ == n;
                            let i0 = if i2 < gi { i2 } else { i2 + 1 };
                            assert(self.spec_playlists()[i2] == prev.spec_playlists()[i0]);
                            prev.lemma_index_unique(n, i0);
                            self.lemma_index_unique(n, i2);
                        } else {
                            if prev.has_playlist(n) {
                                let k0 = choose|k: int|
                                    0 <= k < prev.spec_playlists().len()
                                        && #[trigger] prev.spec_playlists()[k].name@ == n;
                                assert(k0 != gi);
                                let k2 = if k0 < gi { k0 } else { k0 - 1 };
                                assert(self.spec_playlists()[k2] == prev.spec_playlists()[k0]);
                            }
                        }
                    }
                }
                true
            },
        }
    }

    /// After a removal at `i` followed by an insertion of `pl` at `i`,
    /// position `i` holds `pl` and every other position holds what it held
    /// before.
    proof fn lemma_replace_slot(prev: Seq<Playlist>, cur: Seq<Playlist>, i: int, pl: Playlist)
        requires
            0 <= i < prev.len(),
            cur == prev.remove(i).insert(i, pl),
        ensures
            cur.len() == prev.len(),
            cur[i] == pl,
            forall|k: int| 0 <= k < prev.len() && k != i ==> cur[k] == prev[k],
    {
        assert forall|k: int| 0 <= k < prev.len() && k != i implies cur[k] == prev[k] by {
            if k < i {
                assert(cur[k] == prev.remove(i)[k]);
            } else {
                assert(cur[k] == prev.remove(i)[k - 1]);
            }
        }
    }

    /// After replacing the playlist at position `i` by one with the same
    /// name, the store is still well-formed and agrees with its old self on
    /// every other name.
    proof fn lemma_replace_same_name(prev: &Self, cur: &Self, i: int)
        requires
            prev.wf(),
            0 <= i < prev.spec_playlists().len(),
            cur.spec_playlists().len() == prev.spec_playlists().len(),
            forall|k: int|
                0 <= k < prev.spec_playlists().len() && k != i
                    ==> cur.spec_playlists()[k] == prev.spec_playlists()[k],
            cur.spec_playlists()[i].name@ == prev.spec_playlists()[i].name@,
        ensures
            cur.wf(),
            cur.has_playlist(prev.spec_playlists()[i].name@),
            cur.index_of(prev.spec_playlists()[i].name@) == i,
            cur.tracks_of(prev.spec_playlists()[i].name@) == cur.spec_playlists()[i].tracks@,
            prev.index_of(prev.spec_playlists()[i].name@) == i,
            forall|n: Seq<char>| n != prev.spec_playlists()[i].name@
                ==> #[trigger] cur.same_on(prev, n),
    {
        let name = prev.spec_playlists()[i].name@;
        assert(cur.names() =~= prev.names());
        assert forall|a: int, b: int|
            0 <= a < b < cur.names().len() implies cur.names()[a] != cur.names()[b] by {
            assert(prev.names()[a] != prev.names()[b]);
        }
        cur.lemma_index_unique(name, i);
        prev.lemma_index_unique(name, i);
        assert forall|n: Seq<char>| n != name implies #[trigger] cur.same_on(prev, n) by {
            if cur.has_playlist(n) {
                let k = choose|k: int|
                    0 <= k < cur.spec_playlists().len()
                        && #[trigger] cur.spec_playlists()[k].name@ == n;
                assert(k != i);
                assert(prev.spec_playlists()[k].name@ == n);
                cur.lemma_index_unique(n, k);
                prev.lemma_index_unique(n, k);
            } else {
                if prev.has_playlist(n) {
                    let k = choose|k: int|
                        0 <= k < prev.spec_playlists().len()
                            && #[trigger] prev.spec_playlists()[k].name@ == n;
                    assert(k != i);
                    assert(cur.spec_playlists()[k].name@ == n);
                }
            }
        }
    }

    /// Appends a track to the named playlist's queue; reports failure, and
    /// changes nothing, when no playlist bears the name.
    pub fn add_track_to_playlist(&mut self, playlist_name: &str, track: Track) -> (r: bool)
        requires
            old(self).wf(),
        ensures
            final(self).wf(),
            r == old(self).has_playlist(playlist_name@),
            !old(self).has_playlist(playlist_name@) ==> *final(self) == *old(self),
            old(self).has_playlist(playlist_name@) ==> {
                &&& final(self).has_playlist(playlist_name@)
                &&& final(self).tracks_of(playlist_name@) == old(self).tracks_of(
                    playlist_name@,
                ).push(track)
            },
            forall|n: Seq<char>| n != playlist_name@ ==> #[trigger] final(self).same_on(
                old(self),
                n,
            ),
    {
        match self.find_index(playlist_name) {
            None => false,
            Some(i) => {
                let ghost gi = i as int;
                let ghost prev = *self;
                let mut pl = self.playlists.remove(i);
                pl.add_track(track);
                let ghost replaced = pl;
                self.playlists.insert(i, pl);
                proof {
                    Self::lemma_replace_slot(
                        prev.spec_playlists(),
                        self.spec_playlists(),
                        gi,
                        replaced,
                    );
                    Self::lemma_replace_same_name(&prev, self, gi);
                }
                true
            },
        }
    }

    /// Removes the first track with this exact title from the named
    /// playlist; reports failure, and changes nothing, when the playlist is
    /// missing or no track bears the title.
    pub fn remove_track_from_playlist_by_title(
        &mut self,
        playlist_name: &str,
        track_title: &str,
    ) -> (r: bool)
        requires
            old(self).wf(),
        ensures
            final(self).wf(),
            r == (old(self).has_playlist(playlist_name@) && has_track_titled(
                old(self).tracks_of(playlist_name@),
                track_title@,
            )),
            !r ==> *final(self) == *old(self),
            r ==> exists|j: int|
                {
                    &&& #[trigger] is_first_title_index(
                        old(self).tracks_of(playlist_name@),
                        track_title@,
                        j,
                    )
                    &&& final(self).tracks_of(playlist_name@) == old(self).tracks_of(
                        playlist_name@,
                    ).remove(j)
                },
            forall|n: Seq<char>| n != playlist_name@ ==> #[trigger] final(self).same_on(
                old(self),
                n,
            ),
    {
        match self.find_index(playlist_name) {
            None => false,
            Some(i) => {
                let ghost gi = i as int;
                let ghost prev = *self;
                proof {
                    prev.lemma_index_unique(playlist_name@, gi);
                }
                match self.playlists[i].find_title_index(track_title) {
                    None => false,
                    Some(j) => {
                        let ghost gj = j as int;
                        let mut pl = self.playlists.remove(i);
                        let _removed = pl.remove_track_by_index(j);
                        let ghost replaced = pl;
                        self.playlists.insert(i, pl);
                        proof {
                            Self::lemma_replace_slot(
                                prev.spec_playlists(),
                                self.spec_playlists(),
                                gi,
                                replaced,
                            );
                            Self::lemma_replace_same_name(&prev, self, gi);
                            assert(is_first_title_index(
                                prev.tracks_of(playlist_name@),
                                track_title@,
                                gj,
                            ));
                        }
                        true
                    },
                }
            },
        }
    }

    /// Removes the track at `index` from the named playlist; reports
    /// failure, and changes nothing, when the playlist is missing or the
    /// index is out of range.
    pub fn remove_track_from_playlist_by_index(
        &mut self,
        playlist_name: &str,
        index: usize,
    ) -> (r: bool)
        requires
            old(self).wf(),
        ensures
            final(self).wf(),
            r == (old(self).has_playlist(playlist_name@) && index < old(self).tracks_of(
                playlist_name@,
            ).len()),
            !r ==> *final(self) == *old(self),
            r ==> final(self).tracks_of(playlist_name@) == old(self).tracks_of(
                playlist_name@,
            ).remove(index as int),
            forall|n: Seq<char>| n != playlist_name@ ==> #[trigger] final(self).same_on(
                old(self),
                n,
            ),
    {
        match self.find_index(playlist_name) {
            None => false,
            Some(i) => {
                let ghost gi = i as int;
                let ghost prev = *self;
                proof {
                    prev.lemma_index_unique(playlist_name@, gi);
                }
                if index >= self.playlists[i].tracks.len() {
                    return false;
                }
                let mut pl = self.playlists.remove(i);
                let _removed = pl.remove_track_by_index(index);
                let ghost replaced = pl;
                self.playlists.insert(i, pl);
                proof {
                    Self::lemma_replace_slot(
                        prev.spec_playlists(),
                        self.spec_playlists(),
                        gi,
                        replaced,
                    );
                    Self::lemma_replace_same_name(&prev, self, gi);
                }
                true
            },
        }
    }

    /// Whether a playlist with this name exists in the store.
    pub fn contains_playlist(&self, name: &str) -> (r: bool)
        ensures
            r == self.has_playlist(name@),
    {
        match self.find_index(name) {
            Some(i) => {
                proof {
                    assert(self.has_playlist(name@));
                }
                true
            },
            None => false,
        }
    }

    /// The stored playlist names, in insertion order.
    pub fn playlist_names(&self) -> (r: Vec<String>)
        ensures
            r@.map_values(|s: String| s@) == self.names(),
    {
        let mut r: Vec<String> = Vec::new();
        let mut i: usize = 0;
        while i < self.playlists.len()
            invariant
                i <= self.spec_playlists().len(),
                r@.len() == i as int,
                forall|j: int| 0 <= j < i ==> r@[j]@ == self.names()[j],
            decreases self.spec_playlists().len() - i,
        {
            r.push(self.playlists[i].name.clone());
            i += 1;
        }
        proof {
            assert(r@.map_values(|s: String| s@) =~= self.names());
        }
        r
    }

    /// A copy of the named playlist's track list, if the playlist exists.
    pub fn get_playlist_tracks(&self, name: &str) -> (r: Option<Vec<Track>>)
        requires
            self.wf(),
        ensures
            match r {
                Some(ts) => self.has_playlist(name@) && ts@ == self.tracks_of(name@),
                None => !self.has_playlist(name@),
            },
    {
        match self.find_index(name) {
            None => None,
            Some(i) => {
                proof {
                    self.lemma_index_unique(name@, i as int);
                }
                let pl = self.playlists[i].clone();
                Some(pl.tracks)
            },
        }
    }

    /// Empties the store.
    pub fn clear(&mut self)
        ensures
            final(self).spec_playlists() == Seq::<Playlist>::empty(),
            final(self).wf(),
            forall|n: Seq<char>| !final(self).has_playlist(n),
    {
        self.playlists.clear();
    }

    /// Stores this playlist under its own name, replacing any playlist that
    /// already bears it.
    pub fn install_playlist(&mut self, pl: Playlist)
        requires
            old(self).wf(),
        ensures
            final(self).wf(),
            final(self).has_playlist(pl.name@),
            final(self).tracks_of(pl.name@) == pl.tracks@,
            forall|n: Seq<char>| n != pl.name@ ==> #[trigger] final(self).same_on(
                old(self),
                n,
            ),
    {
        let ghost name = pl.name@;
        match self.find_index(pl.name.as_str()) {
            Some(i) => {
                let ghost gi = i as int;
                let ghost prev = *self;
                let _old_pl = self.playlists.remove(i);
                let ghost replaced = pl;
                self.playlists.insert(i, pl);
                proof {
                    Self::lemma_replace_slot(
                        prev.spec_playlists(),
                        self.spec_playlists(),
                        gi,
                        replaced,
                    );
                    Self::lemma_replace_same_name(&prev, self, gi);
                }
            },
            None => {
                let ghost prev = *self;
                self.playlists.push(pl);
                proof {
                    let len = prev.spec_playlists().len() as int;
                    assert(self.names() =~= prev.names().push(name));
                    assert forall|i: int, j: int|
                        0 <= i < j < self.names().len() implies self.names()[i]
                        != self.names()[j] by {
                        if j < len {
                            assert(prev.names()[i] != prev.names()[j]);
                        } else {
                            assert(prev.spec_playlists()[i].name@ != name);
                        }
                    }
                    self.lemma_index_unique(name, len);
                    assert forall|n: Seq<char>| n != name implies #[trigger] self.same_on(
                        &prev,
                        n,
                    ) by {
                        if self.has_playlist(n) {
                            let i = choose|i: int|
                                0 <= i < self.spec_playlists().len()
                                    && #[trigger] self.spec_playlists()[i].name@ == n;
                            assert(i < len);
                            prev.lemma_index_unique(n, i);
                            self.lemma_index_unique(n, i);
                        } else {
                            if prev.has_playlist(n) {
                                let i = choose|i: int|
                                    0 <= i < prev.spec_playlists().len()
                                        && #[trigger] prev.spec_playlists()[i].name@ == n;
                                assert(self.spec_playlists()[i].name@ == n);
                            }
                        }
                    }
                }
            },
        }
    }
}

} // verus!
