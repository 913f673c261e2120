//! What holds of whole runs.
//!
//! A run is the state with which it began and the events that came back, one
//! after another. The lemmas here say what the service is asked for along the
//! way, what the playlist holds at the end, and where a run stops.

use vstd::prelude::*;
use crate::playlist::PlaylistView;
use crate::rank::{is_stable_ranking, lemma_ranked_is_stable_ranking, lemma_ranked_keeps_ids, ranked};
use crate::request::{AddRequestView, announcement_text};
use crate::settings::{SettingsView, playlist_name_text};
use crate::track::{TrackView, track_ids};
use crate::workflow::{
    ActionView, EventView, SearchOutcomeView, WorkflowView, beginning, requested_playlist,
    transition,
};

verus! {

/// The state of a run that began in `state`, after `events` came back in
/// their order.
pub open spec fn state_after(state: WorkflowView, events: Seq<EventView>) -> WorkflowView
    decreases events.len(),
{
    if events.len() == 0 {
        state
    } else {
        transition(state_after(state, events.drop_last()), events.last()).0
    }
}

/// The request that a run which began in `state` makes when the last of
/// `events` has come back.
pub open spec fn action_after(state: WorkflowView, events: Seq<EventView>) -> ActionView
    recommends
        events.len() > 0,
{
    transition(state_after(state, events.drop_last()), events.last()).1
}

/// Every search among `events` returned no more tracks than `limit`.
pub open spec fn searches_within(events: Seq<EventView>, limit: nat) -> bool {
    forall|i: int|
        0 <= i < events.len() && events[i] is SearchCompleted ==> (#[trigger] events[i])->outcome.within(
            limit,
        )
}

/// The number of tracks that a run in `state` has handed in or added is at
/// most `limit`, and so is the number it may still search for.
pub open spec fn holds_at_most(state: WorkflowView, limit: nat) -> bool {
    match state {
        WorkflowView::Authorizing { settings } => settings.total_songs == limit,
        WorkflowView::FindingUser { settings } => settings.total_songs == limit,
        WorkflowView::Creating { settings } => settings.total_songs == limit,
        WorkflowView::Searching { settings, .. } => settings.total_songs == limit,
        WorkflowView::Adding { track_ids, .. } => track_ids.len() <= limit,
        WorkflowView::Opening { added, .. } => added.len() <= limit,
        WorkflowView::Finished { added, .. } => added.len() <= limit,
        WorkflowView::Failed { added, .. } => added.len() <= limit,
    }
}

/// The playlist that a run asks for is named after the theme, described by
/// its name, public and not collaborative; a playlist that the service
/// created as it was asked to is so too.
pub proof fn lemma_playlist_created_public(
    settings: SettingsView,
    user_id: Seq<char>,
    playlist: PlaylistView,
)
    requires
        playlist.fulfils(requested_playlist(settings, user_id)),
    ensures
        transition(WorkflowView::FindingUser { settings }, EventView::UserFound { user_id })
            == (
            WorkflowView::Creating { settings },
            ActionView::CreatePlaylist(requested_playlist(settings, user_id)),
        ),
        requested_playlist(settings, user_id).public,
        !requested_playlist(settings, user_id).collaborative,
        requested_playlist(settings, user_id).description == requested_playlist(
            settings,
            user_id,
        ).name,
        playlist.public == Some(true),
        !playlist.collaborative,
        playlist.name == playlist_name_text(settings.theme),
        playlist.description == Some(playlist.name),
        playlist.owner == user_id,
{
}

/// When a search has found `tracks` and the service has added what it was
/// asked to, the playlist holds the identifiers of exactly the tracks that
/// were found, each as often as it was found.
pub proof fn lemma_population_keeps_ids(
    settings: SettingsView,
    playlist: PlaylistView,
    tracks: Seq<TrackView>,
)
    ensures
        ({
            let found = EventView::SearchCompleted { outcome: SearchOutcomeView::Tracks(tracks) };
            let (adding, asked) = transition(WorkflowView::Searching { settings, playlist }, found);
            let (opening, told) = transition(adding, EventView::ItemsAdded);
            &&& asked matches ActionView::AddItems(request)
            &&& request.playlist_id == playlist.id
            &&& opening.playlist() == Some(playlist)
            &&& opening.added() == request.track_ids
            &&& opening.added().to_set() == track_ids(tracks).to_set()
            &&& opening.added().to_multiset() == track_ids(tracks).to_multiset()
            &&& opening.added().len() == tracks.len()
        }),
{
    lemma_ranked_keeps_ids(tracks);
}

/// The tracks are added in the order of their ranking, which is the stable
/// ranking of what the search found: most popular first, tracks of equal
/// popularity in the order of the search.
pub proof fn lemma_population_in_ranked_order(
    settings: SettingsView,
    playlist: PlaylistView,
    tracks: Seq<TrackView>,
)
    ensures
        ({
            let found = EventView::SearchCompleted { outcome: SearchOutcomeView::Tracks(tracks) };
            let (adding, asked) = transition(WorkflowView::Searching { settings, playlist }, found);
            let (opening, told) = transition(adding, EventView::ItemsAdded);
            &&& asked == ActionView::AddItems(
                AddRequestView { playlist_id: playlist.id, track_ids: track_ids(ranked(tracks)) },
            )
            &&& opening.added() == track_ids(ranked(tracks))
            &&& is_stable_ranking(ranked(tracks), tracks)
        }),
{
    lemma_ranked_is_stable_ranking(tracks);
}

/// One event keeps the number of tracks within the limit, where the search,
/// if the event is one, kept to it.
pub proof fn lemma_step_holds_at_most(state: WorkflowView, event: EventView, limit: nat)
    requires
        holds_at_most(state, limit),
        event is SearchCompleted ==> event->outcome.within(limit),
    ensures
        holds_at_most(transition(state, event).0, limit),
{
    if let WorkflowView::Searching { settings, playlist } = state {
        if let EventView::SearchCompleted { outcome } = event {
            if let SearchOutcomeView::Tracks(tracks) = outcome {
                lemma_ranked_keeps_ids(tracks);
            }
        }
    }
}

/// Where the search is limited to `settings.total_songs` tracks and returns
/// no more, the playlist never gains more tracks than that, whatever else
/// happens in the run.
pub proof fn lemma_gains_at_most_limit(settings: SettingsView, events: Seq<EventView>)
    requires
        searches_within(events, settings.total_songs),
    ensures
        holds_at_most(state_after(beginning(settings).0, events), settings.total_songs),
        state_after(beginning(settings).0, events).added().len() <= settings.total_songs,
    decreases events.len(),
{
    if events.len() > 0 {
        let earlier = events.drop_last();
        assert forall|i: int| 0 <= i < earlier.len() && earlier[i] is SearchCompleted implies (
        #[trigger] earlier[i])->outcome.within(settings.total_songs) by {
            assert(earlier[i] == events[i]);
        }
        lemma_gains_at_most_limit(settings, earlier);
        lemma_step_holds_at_most(
            state_after(beginning(settings).0, earlier),
            events.last(),
            settings.total_songs,
        );
    }
}

/// A search that finds no track is no failure: nothing is added, the
/// playlist is announced under its address, and the run succeeds with an
/// empty playlist.
pub proof fn lemma_empty_search_succeeds(settings: SettingsView, playlist: PlaylistView)
    ensures
        ({
            let nothing = EventView::SearchCompleted {
                outcome: SearchOutcomeView::Tracks(Seq::empty()),
            };
            let (adding, asked) = transition(WorkflowView::Searching { settings, playlist }, nothing);
            let (opening, told) = transition(adding, EventView::ItemsAdded);
            let (finished, last) = transition(opening, EventView::Opened);
            &&& asked == ActionView::AddItems(
                AddRequestView { playlist_id: playlist.id, track_ids: Seq::empty() },
            )
            &&& told matches ActionView::Announce(announcement)
            &&& announcement.url == playlist.url
            &&& announcement.text == announcement_text(playlist.name, playlist.url)
            &&& finished == WorkflowView::Finished { playlist, added: Seq::empty() }
            &&& last == ActionView::Stop
        }),
{
    assert(ranked(Seq::<TrackView>::empty()) == Seq::<TrackView>::empty());
    assert(track_ids(Seq::<TrackView>::empty()) == Seq::<Seq<char>>::empty());
}

/// A request that does not succeed ends the run at once: the process is told
/// to abort with the failure of the stage, and the playlist and what was
/// added to it are what they were before.
pub proof fn lemma_failure_ends_run(state: WorkflowView, event: EventView)
    requires
        !state.is_over(),
        !state.succeeds_with(event),
    ensures
        transition(state, event).0 is Failed,
        transition(state, event).0->failure == state.failure_on(event),
        transition(state, event).1 == ActionView::Abort(state.failure_on(event)),
        transition(state, event).0.playlist() == state.playlist(),
        transition(state, event).0.added() == state.added(),
{
}

/// A run that is over stays as it is, whatever comes back, and asks for
/// nothing more.
pub proof fn lemma_over_stays_over(state: WorkflowView, events: Seq<EventView>)
    requires
        state.is_over(),
    ensures
        state_after(state, events) == state,
        events.len() > 0 ==> action_after(state, events) == ActionView::Stop,
    decreases events.len(),
{
    if events.len() > 0 {
        lemma_over_stays_over(state, events.drop_last());
    }
}

/// After a failure no later stage is performed: whatever events follow, the
/// run stays failed as it was and every request is to stop.
pub proof fn lemma_nothing_follows_failure(
    state: WorkflowView,
    event: EventView,
    later: Seq<EventView>,
)
    requires
        !state.is_over(),
        !state.succeeds_with(event),
    ensures
        state_after(transition(state, event).0, later) == state.failed(state.failure_on(event)),
        later.len() > 0 ==> action_after(transition(state, event).0, later) == ActionView::Stop,
{
    lemma_over_stays_over(transition(state, event).0, later);
}

} // verus!
