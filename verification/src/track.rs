//! A track as a search returns it.

use vstd::prelude::*;

verus! {

/// A track of the catalogue: its identifier and the popularity score that the
/// service assigns to it.
#[derive(Debug, PartialEq, Eq)]
pub struct Track {
    pub id: String,
    pub popularity: u32,
}

/// What a [`Track`] stands for in contracts.
#[verifier::ext_equal]
pub struct TrackView {
    pub id: Seq<char>,
    pub popularity: nat,
}

impl View for Track {
    type V = TrackView;

    open spec fn view(&self) -> TrackView {
        TrackView { id: self.id@, popularity: self.popularity as nat }
    }
}

/// The tracks of `tracks`, each by its view, in the same order.
pub open spec fn track_views(tracks: Seq<Track>) -> Seq<TrackView> {
    Seq::new(tracks.len(), |i: int| tracks[i]@)
}

/// The identifiers of `tracks`, in the same order.
pub open spec fn track_ids(tracks: Seq<TrackView>) -> Seq<Seq<char>> {
    Seq::new(tracks.len(), |i: int| tracks[i].id)
}

impl Track {
    /// A track with the given identifier and popularity.
    pub fn new(id: String, popularity: u32) -> (track: Track)
        ensures
            track.id == id,
            track.popularity == popularity,
    {
        Track { id, popularity }
    }

}

impl Clone for Track {
    fn clone(&self) -> (copy: Track)
        ensures
            copy == *self,
    {
        Track { id: self.id.clone(), popularity: self.popularity }
    }
}

} // verus!
