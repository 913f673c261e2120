//! The run, stage by stage.
//!
//! A run asks the service for one thing at a time: the user's consent, the
//! user's identifier, a new playlist, a search, the addition of the tracks
//! that were found, and at last the opening of the playlist in the browser.
//! [`Workflow::start`] gives the first request. The caller carries each
//! request out and hands what came of it to [`Workflow::step`], which gives
//! the next one. The first failure ends the run.

use vstd::prelude::*;
use crate::failure::Failure;
use crate::playlist::{Playlist, PlaylistView, optional_playlist};
use crate::request::{
    AddRequest, AddRequestView, Announcement, AnnouncementView, AuthRequest, AuthRequestView,
    PlaylistRequest, PlaylistRequestView, TrackSearch, TrackSearchView, announcement,
    announcement_view, authorization, authorization_view, creation, creation_view, population,
    population_view, track_search, track_search_view,
};
use crate::settings::{Settings, SettingsView, playlist_name, playlist_name_text};
use crate::text::{duplicate_all, texts};
use crate::track::{Track, TrackView, track_views};

verus! {

/// What a search returned: tracks, or results of another kind.
#[derive(Debug, PartialEq, Eq)]
pub enum SearchOutcome {
    Tracks(Vec<Track>),
    Other,
}

/// What a [`SearchOutcome`] stands for in contracts.
#[verifier::ext_equal]
pub enum SearchOutcomeView {
    Tracks(Seq<TrackView>),
    Other,
}

impl View for SearchOutcome {
    type V = SearchOutcomeView;

    open spec fn view(&self) -> SearchOutcomeView {
        match self {
            SearchOutcome::Tracks(tracks) => SearchOutcomeView::Tracks(track_views(tracks@)),
            SearchOutcome::Other => SearchOutcomeView::Other,
        }
    }
}

impl SearchOutcomeView {
    /// The search returned no more tracks than it was limited to.
    pub open spec fn within(self, limit: nat) -> bool {
        match self {
            SearchOutcomeView::Tracks(tracks) => tracks.len() <= limit,
            SearchOutcomeView::Other => true,
        }
    }
}

/// What came of the request that the run made last.
#[derive(Debug, PartialEq, Eq)]
pub enum Event {
    /// The user gave consent and the client holds a token.
    Authorized,
    /// The client's credentials are not configured.
    CredentialsMissing,
    /// The service named the current user.
    UserFound { user_id: String },
    /// The service created the playlist.
    PlaylistCreated { playlist: Playlist },
    /// The search returned.
    SearchCompleted { outcome: SearchOutcome },
    /// The service added the tracks to the playlist.
    ItemsAdded,
    /// The playlist was opened in the browser.
    Opened,
    /// The request failed.
    Failed,
}

/// What an [`Event`] stands for in contracts.
#[verifier::ext_equal]
pub enum EventView {
    Authorized,
    CredentialsMissing,
    UserFound { user_id: Seq<char> },
    PlaylistCreated { playlist: PlaylistView },
    SearchCompleted { outcome: SearchOutcomeView },
    ItemsAdded,
    Opened,
    Failed,
}

impl View for Event {
    type V = EventView;

    open spec fn view(&self) -> EventView {
        match self {
            Event::Authorized => EventView::Authorized,
            Event::CredentialsMissing => EventView::CredentialsMissing,
            Event::UserFound { user_id } => EventView::UserFound { user_id: user_id@ },
            Event::PlaylistCreated { playlist } => EventView::PlaylistCreated {
                playlist: playlist@,
            },
            Event::SearchCompleted { outcome } => EventView::SearchCompleted { outcome: outcome@ },
            Event::ItemsAdded => EventView::ItemsAdded,
            Event::Opened => EventView::Opened,
            Event::Failed => EventView::Failed,
        }
    }
}

/// What the caller is to do next.
#[derive(Debug, PartialEq, Eq)]
pub enum Action {
    /// Show the notice, pause, and obtain the user's consent.
    Authorize(AuthRequest),
    /// Look up the current user.
    FindUser,
    /// Create the playlist.
    CreatePlaylist(PlaylistRequest),
    /// Search for tracks.
    Search(TrackSearch),
    /// Add the tracks to the playlist, in one batch.
    AddItems(AddRequest),
    /// Print the text and open the address in the browser.
    Announce(Announcement),
    /// Nothing: the run is over.
    Stop,
    /// End the process with this failure.
    Abort(Failure),
}

/// What an [`Action`] stands for in contracts.
#[verifier::ext_equal]
pub enum ActionView {
    Authorize(AuthRequestView),
    FindUser,
    CreatePlaylist(PlaylistRequestView),
    Search(TrackSearchView),
    AddItems(AddRequestView),
    Announce(AnnouncementView),
    Stop,
    Abort(Failure),
}

impl View for Action {
    type V = ActionView;

    open spec fn view(&self) -> ActionView {
        match self {
            Action::Authorize(request) => ActionView::Authorize(request@),
            Action::FindUser => ActionView::FindUser,
            Action::CreatePlaylist(request) => ActionView::CreatePlaylist(request@),
            Action::Search(search) => ActionView::Search(search@),
            Action::AddItems(request) => ActionView::AddItems(request@),
            Action::Announce(told) => ActionView::Announce(told@),
            Action::Stop => ActionView::Stop,
            Action::Abort(failure) => ActionView::Abort(*failure),
        }
    }
}

/// Where a run stands, with what it has obtained so far.
#[derive(Debug, PartialEq, Eq)]
pub enum Workflow {
    /// The user's consent was asked for.
    Authorizing { settings: Settings },
    /// The current user is being looked up.
    FindingUser { settings: Settings },
    /// The playlist was asked for.
    Creating { settings: Settings },
    /// The playlist exists, and the search is under way.
    Searching { settings: Settings, playlist: Playlist },
    /// The tracks with these identifiers were handed in for addition.
    Adding { playlist: Playlist, track_ids: Vec<String> },
    /// The playlist holds the added tracks and is being opened.
    Opening { playlist: Playlist, added: Vec<String> },
    /// The run succeeded.
    Finished { playlist: Playlist, added: Vec<String> },
    /// The run failed; the playlist, if it was created, and what was added
    /// to it stay as they are.
    Failed { failure: Failure, created: Option<Playlist>, added: Vec<String> },
}

/// What a [`Workflow`] stands for in contracts.
#[verifier::ext_equal]
pub enum WorkflowView {
    Authorizing { settings: SettingsView },
    FindingUser { settings: SettingsView },
    Creating { settings: SettingsView },
    Searching { settings: SettingsView, playlist: PlaylistView },
    Adding { playlist: PlaylistView, track_ids: Seq<Seq<char>> },
    Opening { playlist: PlaylistView, added: Seq<Seq<char>> },
    Finished { playlist: PlaylistView, added: Seq<Seq<char>> },
    Failed { failure: Failure, created: Option<PlaylistView>, added: Seq<Seq<char>> },
}

impl View for Workflow {
    type V = WorkflowView;

    open spec fn view(&self) -> WorkflowView {
        match self {
            Workflow::Authorizing { settings } => WorkflowView::Authorizing { settings: settings@ },
            Workflow::FindingUser { settings } => WorkflowView::FindingUser { settings: settings@ },
            Workflow::Creating { settings } => WorkflowView::Creating { settings: settings@ },
            Workflow::Searching { settings, playlist } => WorkflowView::Searching {
                settings: settings@,
                playlist: playlist@,
            },
            Workflow::Adding { playlist, track_ids } => WorkflowView::Adding {
                playlist: playlist@,
                track_ids: texts(track_ids@),
            },
            Workflow::Opening { playlist, added } => WorkflowView::Opening {
                playlist: playlist@,
                added: texts(added@),
            },
            Workflow::Finished { playlist, added } => WorkflowView::Finished {
                playlist: playlist@,
                added: texts(added@),
            },
            Workflow::Failed { failure, created, added } => WorkflowView::Failed {
                failure: *failure,
                created: optional_playlist(*created),
                added: texts(added@),
            },
        }
    }
}

impl WorkflowView {
    /// The playlist of the run, once the service has created it.
    pub open spec fn playlist(self) -> Option<PlaylistView> {
        match self {
            WorkflowView::Searching { playlist, .. } => Some(playlist),
            WorkflowView::Adding { playlist, .. } => Some(playlist),
            WorkflowView::Opening { playlist, .. } => Some(playlist),
            WorkflowView::Finished { playlist, .. } => Some(playlist),
            WorkflowView::Failed { created, .. } => created,
            _ => None,
        }
    }

    /// The identifiers of the tracks that the service has added to the
    /// playlist, in their order.
    pub open spec fn added(self) -> Seq<Seq<char>> {
        match self {
            WorkflowView::Opening { added, .. } => added,
            WorkflowView::Finished { added, .. } => added,
            WorkflowView::Failed { added, .. } => added,
            _ => Seq::empty(),
        }
    }

    /// The run is over: it succeeded or it failed.
    pub open spec fn is_over(self) -> bool {
        self is Finished || self is Failed
    }

    /// The failure that ends a run when, in this state, its request does not
    /// succeed and `event` came back. A run that is over makes no request:
    /// of a failed one this is the failure it ended with, of a finished one
    /// that of its last stage.
    pub open spec fn failure_on(self, event: EventView) -> Failure {
        match self {
            WorkflowView::Authorizing { .. } => if event is CredentialsMissing {
                Failure::Configuration
            } else {
                Failure::Authorization
            },
            WorkflowView::FindingUser { .. } => Failure::UserLookup,
            WorkflowView::Creating { .. } => Failure::PlaylistCreation,
            WorkflowView::Searching { .. } => Failure::Search,
            WorkflowView::Adding { .. } => Failure::AddItems,
            WorkflowView::Opening { .. } => Failure::BrowserOpen,
            WorkflowView::Finished { .. } => Failure::BrowserOpen,
            WorkflowView::Failed { failure, .. } => failure,
        }
    }

    /// This run, failed: nothing of what was obtained changes.
    pub open spec fn failed(self, failure: Failure) -> WorkflowView {
        WorkflowView::Failed { failure, created: self.playlist(), added: self.added() }
    }

    /// `event` is the success of the request that was made last.
    pub open spec fn succeeds_with(self, event: EventView) -> bool {
        match self {
            WorkflowView::Authorizing { .. } => event is Authorized,
            WorkflowView::FindingUser { .. } => event is UserFound,
            WorkflowView::Creating { .. } => event is PlaylistCreated,
            WorkflowView::Searching { .. } => event is SearchCompleted,
            WorkflowView::Adding { .. } => event is ItemsAdded,
            WorkflowView::Opening { .. } => event is Opened,
            _ => false,
        }
    }
}

/// The playlist that a run asks for: named after the theme, and described by
/// its name.
pub open spec fn requested_playlist(settings: SettingsView, user_id: Seq<char>) -> PlaylistRequestView {
    creation_view(
        user_id,
        playlist_name_text(settings.theme),
        playlist_name_text(settings.theme),
    )
}

/// The search that a run makes: for the theme, limited to the number of songs.
pub open spec fn requested_search(settings: SettingsView) -> TrackSearchView {
    track_search_view(settings.theme, settings.total_songs)
}

/// The first state of a run and its first request.
pub open spec fn beginning(settings: SettingsView) -> (WorkflowView, ActionView) {
    (WorkflowView::Authorizing { settings }, ActionView::Authorize(authorization_view()))
}

/// The state that follows `state` when `event` comes back, and the next
/// request.
///
/// A run that is over stays as it is and asks for nothing. Otherwise the one
/// event that reports the success of the last request moves the run to its
/// next stage; any other event ends it with the failure of the stage it was
/// in.
pub open spec fn transition(state: WorkflowView, event: EventView) -> (WorkflowView, ActionView) {
    if state.is_over() {
        (state, ActionView::Stop)
    } else if !state.succeeds_with(event) {
        (state.failed(state.failure_on(event)), ActionView::Abort(state.failure_on(event)))
    } else {
        match state {
            WorkflowView::Authorizing { settings } => (
                WorkflowView::FindingUser { settings },
                ActionView::FindUser,
            ),
            WorkflowView::FindingUser { settings } => (
                WorkflowView::Creating { settings },
                ActionView::CreatePlaylist(requested_playlist(settings, event->user_id)),
            ),
            WorkflowView::Creating { settings } => (
                WorkflowView::Searching { settings, playlist: event->playlist },
                ActionView::Search(requested_search(settings)),
            ),
            WorkflowView::Searching { settings, playlist } => match event->outcome {
                SearchOutcomeView::Tracks(tracks) => (
                    WorkflowView::Adding {
                        playlist,
                        track_ids: population_view(playlist, tracks).track_ids,
                    },
                    ActionView::AddItems(population_view(playlist, tracks)),
                ),
                SearchOutcomeView::Other => (
                    WorkflowView::Opening { playlist, added: Seq::empty() },
                    ActionView::Announce(announcement_view(playlist)),
                ),
            },
            WorkflowView::Adding { playlist, track_ids } => (
                WorkflowView::Opening { playlist, added: track_ids },
                ActionView::Announce(announcement_view(playlist)),
            ),
            WorkflowView::Opening { playlist, added } => (
                WorkflowView::Finished { playlist, added },
                ActionView::Stop,
            ),
            _ => (state, ActionView::Stop),
        }
    }
}

/// A run that failed with `failure`, and the request to end the process.
fn fail(failure: Failure, created: Option<Playlist>, added: Vec<String>) -> (next: (
    Workflow,
    Action,
))
    ensures
        next.0@ == (WorkflowView::Failed {
            failure,
            created: optional_playlist(created),
            added: texts(added@),
        }),
        next.1@ == ActionView::Abort(failure),
{
    (Workflow::Failed { failure, created, added }, Action::Abort(failure))
}

impl Workflow {
    /// Begins a run: the user's consent is asked for first.
    pub fn start(settings: Settings) -> (next: (Workflow, Action))
        ensures
            (next.0@, next.1@) == beginning(settings@),
    {
        (Workflow::Authorizing { settings }, Action::Authorize(authorization()))
    }

    /// Takes what came of the last request and gives the state that follows
    /// and the next request.
    pub fn step(self, event: Event) -> (next: (Workflow, Action))
        ensures
            (next.0@, next.1@) == transition(self@, event@),
    {
        match self {
            Workflow::Authorizing { settings } => match event {
                Event::Authorized => (Workflow::FindingUser { settings }, Action::FindUser),
                Event::CredentialsMissing => fail(Failure::Configuration, None, Vec::new()),
                _ => fail(Failure::Authorization, None, Vec::new()),
            },
            Workflow::FindingUser { settings } => match event {
                Event::UserFound { user_id } => {
                    let name = playlist_name(settings.theme.as_str());
                    let request = creation(user_id, name.as_str(), name.as_str());
                    (Workflow::Creating { settings }, Action::CreatePlaylist(request))
                },
                _ => fail(Failure::UserLookup, None, Vec::new()),
            },
            Workflow::Creating { settings } => match event {
                Event::PlaylistCreated { playlist } => {
                    let search = track_search(settings.theme.as_str(), settings.total_songs);
                    (Workflow::Searching { settings, playlist }, Action::Search(search))
                },
                _ => fail(Failure::PlaylistCreation, None, Vec::new()),
            },
            Workflow::Searching { settings, playlist } => match event {
                Event::SearchCompleted { outcome } => match outcome {
                    SearchOutcome::Tracks(tracks) => {
                        let request = population(&playlist, &tracks);
                        let track_ids = duplicate_all(&request.track_ids);
                        (Workflow::Adding { playlist, track_ids }, Action::AddItems(request))
                    },
                    SearchOutcome::Other => {
                        let told = announcement(&playlist);
                        (
                            Workflow::Opening { playlist, added: Vec::new() },
                            Action::Announce(told),
                        )
                    },
                },
                _ => fail(Failure::Search, Some(playlist), Vec::new()),
            },
            Workflow::Adding { playlist, track_ids } => match event {
                Event::ItemsAdded => {
                    let told = announcement(&playlist);
                    (Workflow::Opening { playlist, added: track_ids }, Action::Announce(told))
                },
                _ => fail(Failure::AddItems, Some(playlist), Vec::new()),
            },
            Workflow::Opening { playlist, added } => match event {
                Event::Opened => (Workflow::Finished { playlist, added }, Action::Stop),
                _ => fail(Failure::BrowserOpen, Some(playlist), added),
            },
            Workflow::Finished { playlist, added } => (
                Workflow::Finished { playlist, added },
                Action::Stop,
            ),
            Workflow::Failed { failure, created, added } => (
                Workflow::Failed { failure, created, added },
                Action::Stop,
            ),
        }
    }
}

} // verus!
