//! A playlist as the service describes it.

use vstd::prelude::*;
use crate::text::{duplicate_optional, optional_text};

verus! {

/// A playlist of the service: its identifier, its attributes and the address
/// under which it is shared.
#[derive(Debug, PartialEq, Eq)]
pub struct Playlist {
    pub id: String,
    pub name: String,
    pub description: Option<String>,
    pub public: Option<bool>,
    pub collaborative: bool,
    pub owner: String,
    pub url: String,
}

/// What a [`Playlist`] stands for in contracts.
#[verifier::ext_equal]
pub struct PlaylistView {
    pub id: Seq<char>,
    pub name: Seq<char>,
    pub description: Option<Seq<char>>,
    pub public: Option<bool>,
    pub collaborative: bool,
    pub owner: Seq<char>,
    pub url: Seq<char>,
}

impl View for Playlist {
    type V = PlaylistView;

    open spec fn view(&self) -> PlaylistView {
        PlaylistView {
            id: self.id@,
            name: self.name@,
            description: optional_text(self.description),
            public: self.public,
            collaborative: self.collaborative,
            owner: self.owner@,
            url: self.url@,
        }
    }
}

/// The view of an optional playlist.
pub open spec fn optional_playlist(playlist: Option<Playlist>) -> Option<PlaylistView> {
    match playlist {
        Some(p) => Some(p@),
        None => None,
    }
}

impl Clone for Playlist {
    fn clone(&self) -> (copy: Playlist)
        ensures
            copy == *self,
    {
        Playlist {
            id: self.id.clone(),
            name: self.name.clone(),
            description: duplicate_optional(&self.description),
            public: self.public,
            collaborative: self.collaborative,
            owner: self.owner.clone(),
            url: self.url.clone(),
        }
    }
}

} // verus!
