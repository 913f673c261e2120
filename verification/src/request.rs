//! The requests that a run makes of the service, and what it reports.
//!
//! Each function here fixes the parameters of one request. Carrying the
//! request out is the caller's part.

use vstd::prelude::*;
use vstd::string::*;
use crate::playlist::{Playlist, PlaylistView};
use crate::rank::{lemma_ranked_len, rank_tracks, ranked};
use crate::text::texts;
use crate::track::{Track, TrackView, track_ids, track_views};

verus! {

/// How the client asks for the user's consent: the client's identifier, the
/// address to which the browser is sent back, the scopes asked for, the notice
/// shown to the user and the pause that follows it.
#[derive(Debug, PartialEq, Eq)]
pub struct AuthRequest {
    pub client_id: String,
    pub redirect_uri: String,
    pub scopes: Vec<String>,
    pub notice: Vec<String>,
    pub pause_seconds: u64,
}

/// What an [`AuthRequest`] stands for in contracts.
#[verifier::ext_equal]
pub struct AuthRequestView {
    pub client_id: Seq<char>,
    pub redirect_uri: Seq<char>,
    pub scopes: Seq<Seq<char>>,
    pub notice: Seq<Seq<char>>,
    pub pause_seconds: nat,
}

impl View for AuthRequest {
    type V = AuthRequestView;

    open spec fn view(&self) -> AuthRequestView {
        AuthRequestView {
            client_id: self.client_id@,
            redirect_uri: self.redirect_uri@,
            scopes: texts(self.scopes@),
            notice: texts(self.notice@),
            pause_seconds: self.pause_seconds as nat,
        }
    }
}

/// A new playlist for a user.
#[derive(Debug, PartialEq, Eq)]
pub struct PlaylistRequest {
    pub user_id: String,
    pub name: String,
    pub public: bool,
    pub collaborative: bool,
    pub description: String,
}

/// What a [`PlaylistRequest`] stands for in contracts.
#[verifier::ext_equal]
pub struct PlaylistRequestView {
    pub user_id: Seq<char>,
    pub name: Seq<char>,
    pub public: bool,
    pub collaborative: bool,
    pub description: Seq<char>,
}

impl View for PlaylistRequest {
    type V = PlaylistRequestView;

    open spec fn view(&self) -> PlaylistRequestView {
        PlaylistRequestView {
            user_id: self.user_id@,
            name: self.name@,
            public: self.public,
            collaborative: self.collaborative,
            description: self.description@,
        }
    }
}

/// A search for tracks: the query and the largest number of tracks to
/// return. The search starts at the first match and is not narrowed to a
/// market: a request of this type cannot say otherwise.
#[derive(Debug, PartialEq, Eq)]
pub struct TrackSearch {
    pub query: String,
    pub limit: u32,
}

/// What a [`TrackSearch`] stands for in contracts.
#[verifier::ext_equal]
pub struct TrackSearchView {
    pub query: Seq<char>,
    pub limit: nat,
}

impl View for TrackSearch {
    type V = TrackSearchView;

    open spec fn view(&self) -> TrackSearchView {
        TrackSearchView { query: self.query@, limit: self.limit as nat }
    }
}

/// Tracks to add to a playlist, in one batch and in the given order.
#[derive(Debug, PartialEq, Eq)]
pub struct AddRequest {
    pub playlist_id: String,
    pub track_ids: Vec<String>,
}

/// What an [`AddRequest`] stands for in contracts.
#[verifier::ext_equal]
pub struct AddRequestView {
    pub playlist_id: Seq<char>,
    pub track_ids: Seq<Seq<char>>,
}

impl View for AddRequest {
    type V = AddRequestView;

    open spec fn view(&self) -> AddRequestView {
        AddRequestView { playlist_id: self.playlist_id@, track_ids: texts(self.track_ids@) }
    }
}

/// What is told to the user at the end of a run: a line of text, and the
/// address to open in the browser.
#[derive(Debug, PartialEq, Eq)]
pub struct Announcement {
    pub text: String,
    pub url: String,
}

/// What an [`Announcement`] stands for in contracts.
#[verifier::ext_equal]
pub struct AnnouncementView {
    pub text: Seq<char>,
    pub url: Seq<char>,
}

impl View for Announcement {
    type V = AnnouncementView;

    open spec fn view(&self) -> AnnouncementView {
        AnnouncementView { text: self.text@, url: self.url@ }
    }
}

/// The request for the user's consent. It is the same in every run.
pub open spec fn authorization_view() -> AuthRequestView {
    AuthRequestView {
        client_id: "f9f9113afea14d8698a40a4822d056c2"@,
        redirect_uri: "http://localhost:8888/callback"@,
        scopes: seq!["playlist-modify-private"@, "playlist-modify-public"@],
        notice: seq![
            "You are about to be redirected to your browser to authenticate with Spotify"@,
            "Copy the URL that you are redirected to and paste it back here!"@,
        ],
        pause_seconds: 3,
    }
}

/// The request for a new playlist: public, not collaborative, with the given
/// owner, name and description.
pub open spec fn creation_view(
    user_id: Seq<char>,
    name: Seq<char>,
    description: Seq<char>,
) -> PlaylistRequestView {
    PlaylistRequestView { user_id, name, public: true, collaborative: false, description }
}

/// The search for at most `limit` tracks that match `query`.
pub open spec fn track_search_view(query: Seq<char>, limit: nat) -> TrackSearchView {
    TrackSearchView { query, limit }
}

/// The request that adds `tracks` to `playlist`: their identifiers, in the
/// order of their ranking.
pub open spec fn population_view(playlist: PlaylistView, tracks: Seq<TrackView>) -> AddRequestView {
    AddRequestView { playlist_id: playlist.id, track_ids: track_ids(ranked(tracks)) }
}

/// The line that names a playlist and gives its address.
pub open spec fn announcement_text(name: Seq<char>, url: Seq<char>) -> Seq<char> {
    "??? "@ + name + " playlist ???? "@ + url
}

/// What is told to the user about `playlist`.
pub open spec fn announcement_view(playlist: PlaylistView) -> AnnouncementView {
    AnnouncementView { text: announcement_text(playlist.name, playlist.url), url: playlist.url }
}

impl PlaylistView {
    /// The playlist is what `request` asked for: it has the requested owner,
    /// name, description and visibility.
    pub open spec fn fulfils(self, request: PlaylistRequestView) -> bool {
        &&& self.owner == request.user_id
        &&& self.name == request.name
        &&& self.description == Some(request.description)
        &&& self.public == Some(request.public)
        &&& self.collaborative == request.collaborative
    }
}

/// The request for the user's consent.
pub fn authorization() -> (request: AuthRequest)
    ensures
        request@ == authorization_view(),
{
    let mut scopes: Vec<String> = Vec::new();
    scopes.push(String::from_str("playlist-modify-private"));
    scopes.push(String::from_str("playlist-modify-public"));
    let mut notice: Vec<String> = Vec::new();
    notice.push(
        String::from_str(
            "You are about to be redirected to your browser to authenticate with Spotify",
        ),
    );
    notice.push(String::from_str("Copy the URL that you are redirected to and paste it back here!"));
    let request = AuthRequest {
        client_id: String::from_str("f9f9113afea14d8698a40a4822d056c2"),
        redirect_uri: String::from_str("http://localhost:8888/callback"),
        scopes,
        notice,
        pause_seconds: 3,
    };
    proof {
        assert(request@.scopes == authorization_view().scopes);
        assert(request@.notice == authorization_view().notice);
    }
    request
}

/// The request for a new playlist of `user_id`: public and not collaborative.
pub fn creation(user_id: String, name: &str, description: &str) -> (request: PlaylistRequest)
    ensures
        request@ == creation_view(user_id@, name@, description@),
{
    PlaylistRequest {
        user_id,
        name: String::from_str(name),
        public: true,
        collaborative: false,
        description: String::from_str(description),
    }
}

/// The search for at most `limit` tracks that match `query`.
pub fn track_search(query: &str, limit: u32) -> (search: TrackSearch)
    ensures
        search@ == track_search_view(query@, limit as nat),
{
    TrackSearch { query: String::from_str(query), limit }
}

/// The identifiers of `tracks`, in their order.
pub fn ids_of(tracks: &Vec<Track>) -> (ids: Vec<String>)
    ensures
        texts(ids@) == track_ids(track_views(tracks@)),
{
    let mut ids: Vec<String> = Vec::new();
    let mut i: usize = 0;
    while i < tracks.len()
        invariant
            i <= tracks.len(),
            texts(ids@) == track_ids(track_views(tracks@)).take(i as int),
        decreases tracks.len() - i,
    {
        ids.push(tracks[i].id.clone());
        proof {
            let all = track_ids(track_views(tracks@));
            assert(all.take(i + 1) == all.take(i as int).push(all[i as int]));
        }
        i += 1;
    }
    proof {
        let all = track_ids(track_views(tracks@));
        assert(all.take(tracks.len() as int) == all);
    }
    ids
}

/// The request that adds the tracks that a search found to `playlist`: every
/// track that was found, once for each time it was found, most popular first,
/// tracks of equal popularity in the order of the search.
pub fn population(playlist: &Playlist, tracks: &Vec<Track>) -> (request: AddRequest)
    ensures
        request@ == population_view(playlist@, track_views(tracks@)),
        request.track_ids.len() == tracks.len(),
{
    let ranking = rank_tracks(tracks);
    let track_ids = ids_of(&ranking);
    proof {
        lemma_ranked_len(track_views(tracks@));
        assert(texts(track_ids@).len() == track_ids.len());
    }
    AddRequest { playlist_id: playlist.id.clone(), track_ids }
}

/// What is told to the user about `playlist`: its name and its address.
pub fn announcement(playlist: &Playlist) -> (told: Announcement)
    ensures
        told@ == announcement_view(playlist@),
{
    let mut text = String::from_str("??? ");
    text.append(playlist.name.as_str());
    text.append(" playlist ???? ");
    text.append(playlist.url.as_str());
    Announcement { text, url: playlist.url.clone() }
}

} // verus!
