use sprint_playlist::failure::Failure;
use sprint_playlist::playlist::Playlist;
use sprint_playlist::request::{authorization, AddRequest, Announcement, PlaylistRequest, TrackSearch};
use sprint_playlist::settings::Settings;
use sprint_playlist::track::Track;
use sprint_playlist::workflow::{Action, Event, SearchOutcome, Workflow};

fn settings() -> Settings {
    Settings::resolve("Focus".to_string(), Some(3))
}

fn playlist() -> Playlist {
    Playlist {
        id: "pl1".to_string(),
        name: "Focus Sprint".to_string(),
        description: Some("Focus Sprint".to_string()),
        public: Some(true),
        collaborative: false,
        owner: "user1".to_string(),
        url: "https://open.spotify.com/playlist/pl1".to_string(),
    }
}

fn found() -> Vec<Track> {
    vec![
        Track::new("a".to_string(), 10),
        Track::new("b".to_string(), 50),
        Track::new("c".to_string(), 10),
    ]
}

fn announced() -> Announcement {
    Announcement {
        text: "??? Focus Sprint playlist ???? https://open.spotify.com/playlist/pl1".to_string(),
        url: "https://open.spotify.com/playlist/pl1".to_string(),
    }
}

fn strings(items: &[&str]) -> Vec<String> {
    items.iter().map(|s| s.to_string()).collect()
}

fn searching() -> Workflow {
    Workflow::Searching { settings: settings(), playlist: playlist() }
}

#[test]
fn run_begins_with_authorization() {
    let (state, action) = Workflow::start(settings());
    assert_eq!(state, Workflow::Authorizing { settings: settings() });
    assert_eq!(action, Action::Authorize(authorization()));
}

#[test]
fn successful_run_goes_through_every_stage() {
    let (state, _) = Workflow::start(settings());

    let (state, action) = state.step(Event::Authorized);
    assert_eq!(state, Workflow::FindingUser { settings: settings() });
    assert_eq!(action, Action::FindUser);

    let (state, action) = state.step(Event::UserFound { user_id: "user1".to_string() });
    assert_eq!(state, Workflow::Creating { settings: settings() });
    assert_eq!(
        action,
        Action::CreatePlaylist(PlaylistRequest {
            user_id: "user1".to_string(),
            name: "Focus Sprint".to_string(),
            public: true,
            collaborative: false,
            description: "Focus Sprint".to_string(),
        })
    );

    let (state, action) = state.step(Event::PlaylistCreated { playlist: playlist() });
    assert_eq!(state, searching());
    assert_eq!(action, Action::Search(TrackSearch { query: "Focus".to_string(), limit: 3 }));

    let (state, action) =
        state.step(Event::SearchCompleted { outcome: SearchOutcome::Tracks(found()) });
    assert_eq!(
        state,
        Workflow::Adding { playlist: playlist(), track_ids: strings(&["b", "a", "c"]) }
    );
    assert_eq!(
        action,
        Action::AddItems(AddRequest {
            playlist_id: "pl1".to_string(),
            track_ids: strings(&["b", "a", "c"]),
        })
    );

    let (state, action) = state.step(Event::ItemsAdded);
    assert_eq!(state, Workflow::Opening { playlist: playlist(), added: strings(&["b", "a", "c"]) });
    assert_eq!(action, Action::Announce(announced()));

    let (state, action) = state.step(Event::Opened);
    assert_eq!(
        state,
        Workflow::Finished { playlist: playlist(), added: strings(&["b", "a", "c"]) }
    );
    assert_eq!(action, Action::Stop);
}

#[test]
fn default_number_of_songs_limits_the_search() {
    let state = Workflow::Creating { settings: Settings::resolve("Jazz".to_string(), None) };
    let (_, action) = state.step(Event::PlaylistCreated { playlist: playlist() });
    assert_eq!(action, Action::Search(TrackSearch { query: "Jazz".to_string(), limit: 20 }));
}

#[test]
fn search_without_tracks_leaves_playlist_empty_and_succeeds() {
    let (state, action) =
        searching().step(Event::SearchCompleted { outcome: SearchOutcome::Tracks(Vec::new()) });
    assert_eq!(state, Workflow::Adding { playlist: playlist(), track_ids: Vec::new() });
    assert_eq!(
        action,
        Action::AddItems(AddRequest { playlist_id: "pl1".to_string(), track_ids: Vec::new() })
    );
    let (state, action) = state.step(Event::ItemsAdded);
    assert_eq!(state, Workflow::Opening { playlist: playlist(), added: Vec::new() });
    assert_eq!(action, Action::Announce(announced()));
    let (state, action) = state.step(Event::Opened);
    assert_eq!(state, Workflow::Finished { playlist: playlist(), added: Vec::new() });
    assert_eq!(action, Action::Stop);
}

#[test]
fn search_of_another_kind_adds_nothing() {
    let (state, action) = searching().step(Event::SearchCompleted { outcome: SearchOutcome::Other });
    assert_eq!(state, Workflow::Opening { playlist: playlist(), added: Vec::new() });
    assert_eq!(action, Action::Announce(announced()));
}

#[test]
fn playlist_gains_no_more_tracks_than_the_limit() {
    let tracks = found();
    assert!(tracks.len() <= settings().total_songs as usize);
    let (state, _) =
        searching().step(Event::SearchCompleted { outcome: SearchOutcome::Tracks(tracks) });
    let (state, _) = state.step(Event::ItemsAdded);
    match state {
        Workflow::Opening { added, .. } => assert_eq!(added.len(), 3),
        other => panic!("unexpected state {:?}", other),
    }
}

#[test]
fn missing_credentials_end_the_run() {
    let (state, _) = Workflow::start(settings());
    let (state, action) = state.step(Event::CredentialsMissing);
    assert_eq!(
        state,
        Workflow::Failed { failure: Failure::Configuration, created: None, added: Vec::new() }
    );
    assert_eq!(action, Action::Abort(Failure::Configuration));
}

#[test]
fn failed_authorization_ends_the_run() {
    let (state, _) = Workflow::start(settings());
    let (state, action) = state.step(Event::Failed);
    assert_eq!(
        state,
        Workflow::Failed { failure: Failure::Authorization, created: None, added: Vec::new() }
    );
    assert_eq!(action, Action::Abort(Failure::Authorization));
}

#[test]
fn failed_user_lookup_ends_the_run() {
    let state = Workflow::FindingUser { settings: settings() };
    let (state, action) = state.step(Event::Failed);
    assert_eq!(
        state,
        Workflow::Failed { failure: Failure::UserLookup, created: None, added: Vec::new() }
    );
    assert_eq!(action, Action::Abort(Failure::UserLookup));
}

#[test]
fn failed_creation_ends_the_run_without_a_playlist() {
    let state = Workflow::Creating { settings: settings() };
    let (state, action) = state.step(Event::Failed);
    assert_eq!(
        state,
        Workflow::Failed { failure: Failure::PlaylistCreation, created: None, added: Vec::new() }
    );
    assert_eq!(action, Action::Abort(Failure::PlaylistCreation));
}

#[test]
fn failed_search_leaves_the_playlist_empty() {
    let (state, action) = searching().step(Event::Failed);
    assert_eq!(
        state,
        Workflow::Failed {
            failure: Failure::Search,
            created: Some(playlist()),
            added: Vec::new(),
        }
    );
    assert_eq!(action, Action::Abort(Failure::Search));
}

#[test]
fn failed_addition_leaves_the_playlist_empty() {
    let state = Workflow::Adding { playlist: playlist(), track_ids: strings(&["b", "a", "c"]) };
    let (state, action) = state.step(Event::Failed);
    assert_eq!(
        state,
        Workflow::Failed {
            failure: Failure::AddItems,
            created: Some(playlist()),
            added: Vec::new(),
        }
    );
    assert_eq!(action, Action::Abort(Failure::AddItems));
}

#[test]
fn failed_opening_keeps_what_was_added() {
    let state = Workflow::Opening { playlist: playlist(), added: strings(&["b", "a", "c"]) };
    let (state, action) = state.step(Event::Failed);
    assert_eq!(
        state,
        Workflow::Failed {
            failure: Failure::BrowserOpen,
            created: Some(playlist()),
            added: strings(&["b", "a", "c"]),
        }
    );
    assert_eq!(action, Action::Abort(Failure::BrowserOpen));
}

#[test]
fn event_of_another_stage_counts_as_failure() {
    let (state, action) = searching().step(Event::ItemsAdded);
    assert_eq!(
        state,
        Workflow::Failed {
            failure: Failure::Search,
            created: Some(playlist()),
            added: Vec::new(),
        }
    );
    assert_eq!(action, Action::Abort(Failure::Search));

    let state = Workflow::FindingUser { settings: settings() };
    let (_, action) = state.step(Event::CredentialsMissing);
    assert_eq!(action, Action::Abort(Failure::UserLookup));
}

#[test]
fn nothing_follows_a_failure() {
    let (failed, _) = searching().step(Event::Failed);
    let (state, action) =
        failed.step(Event::SearchCompleted { outcome: SearchOutcome::Tracks(found()) });
    assert_eq!(action, Action::Stop);
    let (state, action) = state.step(Event::ItemsAdded);
    assert_eq!(action, Action::Stop);
    let (state, action) = state.step(Event::Opened);
    assert_eq!(action, Action::Stop);
    assert_eq!(
        state,
        Workflow::Failed {
            failure: Failure::Search,
            created: Some(playlist()),
            added: Vec::new(),
        }
    );
}

#[test]
fn finished_run_stays_finished() {
    let finished = Workflow::Finished { playlist: playlist(), added: strings(&["b"]) };
    let (state, action) = finished.step(Event::Failed);
    assert_eq!(action, Action::Stop);
    assert_eq!(state, Workflow::Finished { playlist: playlist(), added: strings(&["b"]) });
    let (state, action) = state.step(Event::Authorized);
    assert_eq!(action, Action::Stop);
    assert_eq!(state, Workflow::Finished { playlist: playlist(), added: strings(&["b"]) });
}
