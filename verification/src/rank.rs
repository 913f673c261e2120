//! Ranking of tracks by popularity.
//!
//! The ranking is a stable sort, most popular first: tracks of equal
//! popularity keep the order in which the search returned them.

use vstd::prelude::*;
use vstd::seq_lib::*;
use crate::track::{Track, TrackView, track_ids, track_views};

verus! {

/// Where a track of the given popularity goes in `ranked`: directly behind the
/// last track that is at least as popular, and in front where there is none.
pub open spec fn slot(ranked: Seq<TrackView>, popularity: nat) -> int
    decreases ranked.len(),
{
    if ranked.len() > 0 && ranked.last().popularity < popularity {
        slot(ranked.drop_last(), popularity)
    } else {
        ranked.len() as int
    }
}

/// `ranked` with `track` put in its slot.
pub open spec fn place(ranked: Seq<TrackView>, track: TrackView) -> Seq<TrackView> {
    ranked.insert(slot(ranked, track.popularity), track)
}

/// The ranking of `tracks`: each track in turn, in the order of `tracks`, is
/// placed among those before it.
pub open spec fn ranked(tracks: Seq<TrackView>) -> Seq<TrackView>
    decreases tracks.len(),
{
    if tracks.len() == 0 {
        Seq::empty()
    } else {
        place(ranked(tracks.drop_last()), tracks.last())
    }
}

/// No track stands before a more popular one.
pub open spec fn descending(tracks: Seq<TrackView>) -> bool {
    forall|i: int, j: int|
        0 <= i < j < tracks.len() ==> tracks[i].popularity >= tracks[j].popularity
}

/// The test "has this popularity".
pub open spec fn with_popularity(popularity: nat) -> spec_fn(TrackView) -> bool {
    |track: TrackView| track.popularity == popularity
}

/// The tracks of `tracks` that have the given popularity, in their order.
pub open spec fn of_popularity(tracks: Seq<TrackView>, popularity: nat) -> Seq<TrackView> {
    tracks.filter(with_popularity(popularity))
}

/// `out` is a stable ranking of `tracks`: it is descending, and among the
/// tracks of any one popularity it holds the same tracks in the same order.
pub open spec fn is_stable_ranking(out: Seq<TrackView>, tracks: Seq<TrackView>) -> bool {
    &&& descending(out)
    &&& forall|popularity: nat| #[trigger]
        of_popularity(out, popularity) == of_popularity(tracks, popularity)
}

/// Ranks `tracks` by popularity, most popular first, keeping the order of
/// tracks that are equally popular.
pub fn rank_tracks(tracks: &Vec<Track>) -> (out: Vec<Track>)
    ensures
        track_views(out@) == ranked(track_views(tracks@)),
        is_stable_ranking(track_views(out@), track_views(tracks@)),
        out.len() == tracks.len(),
{
    let mut out: Vec<Track> = Vec::new();
    let mut i: usize = 0;
    while i < tracks.len()
        invariant
            i <= tracks.len(),
            out.len() == i,
            track_views(out@) == ranked(track_views(tracks@).take(i as int)),
        decreases tracks.len() - i,
    {
        let track = tracks[i].clone();
        let ghost before = track_views(out@);
        let mut pos: usize = out.len();
        proof {
            assert(before.take(pos as int) == before);
        }
        while pos > 0 && out[pos - 1].popularity < track.popularity
            invariant
                pos <= out.len(),
                before == track_views(out@),
                slot(before, track@.popularity) == slot(before.take(pos as int), track@.popularity),
            decreases pos,
        {
            proof {
                let head = before.take(pos as int);
                assert(head.last() == before[pos - 1]);
                assert(head.drop_last() == before.take(pos - 1));
            }
            pos -= 1;
        }
        proof {
            assert(before.take(pos as int).len() == pos);
            assert(pos > 0 ==> before.take(pos as int).last() == before[pos - 1]);
            assert(track_views(out@.insert(pos as int, track)) == before.insert(
                pos as int,
                track@,
            ));
            let upto = track_views(tracks@).take(i + 1);
            assert(upto.drop_last() == track_views(tracks@).take(i as int));
            assert(upto.last() == track@);
        }
        out.insert(pos, track);
        i += 1;
    }
    proof {
        assert(track_views(tracks@).take(tracks.len() as int) == track_views(tracks@));
        lemma_ranked_is_stable_ranking(track_views(tracks@));
    }
    out
}

/// The slot of a track lies within the ranking, every track from the slot on
/// is less popular than the new one, and the track before the slot is at
/// least as popular.
pub proof fn lemma_slot_divides(ranked: Seq<TrackView>, popularity: nat)
    ensures
        0 <= slot(ranked, popularity) <= ranked.len(),
        forall|k: int|
            slot(ranked, popularity) <= k < ranked.len() ==> ranked[k].popularity < popularity,
        slot(ranked, popularity) > 0 ==> ranked[slot(ranked, popularity) - 1].popularity
            >= popularity,
    decreases ranked.len(),
{
    if ranked.len() > 0 && ranked.last().popularity < popularity {
        let rest = ranked.drop_last();
        lemma_slot_divides(rest, popularity);
        assert forall|k: int| slot(ranked, popularity) <= k < ranked.len() implies ranked[k].popularity
            < popularity by {
            if k < rest.len() {
                assert(ranked[k] == rest[k]);
            }
        }
        if slot(ranked, popularity) > 0 {
            assert(ranked[slot(ranked, popularity) - 1] == rest[slot(rest, popularity) - 1]);
        }
    }
}

/// Placing a track in a descending ranking leaves it descending.
pub proof fn lemma_place_keeps_descending(ranked: Seq<TrackView>, track: TrackView)
    requires
        descending(ranked),
    ensures
        descending(place(ranked, track)),
{
    let at = slot(ranked, track.popularity);
    let out = place(ranked, track);
    lemma_slot_divides(ranked, track.popularity);
    assert forall|i: int, j: int| 0 <= i < j < out.len() implies out[i].popularity
        >= out[j].popularity by {
        if j < at {
            assert(out[i] == ranked[i] && out[j] == ranked[j]);
        } else if j == at {
            assert(out[i] == ranked[i]);
            assert(i <= at - 1);
        } else if i < at {
            assert(out[i] == ranked[i] && out[j] == ranked[j - 1]);
        } else if i == at {
            assert(out[j] == ranked[j - 1]);
        } else {
            assert(out[i] == ranked[i - 1] && out[j] == ranked[j - 1]);
        }
    }
}

/// Placing a track adds it behind the tracks of its own popularity and leaves
/// the tracks of every other popularity as they were.
pub proof fn lemma_place_keeps_order(ranked: Seq<TrackView>, track: TrackView, popularity: nat)
    ensures
        of_popularity(place(ranked, track), popularity) == if track.popularity == popularity {
            of_popularity(ranked, popularity).push(track)
        } else {
            of_popularity(ranked, popularity)
        },
{
    broadcast use Seq::filter_distributes_over_add, Seq::lemma_filter_push;

    let at = slot(ranked, track.popularity);
    let test = with_popularity(popularity);
    let head = ranked.subrange(0, at);
    let tail = ranked.subrange(at, ranked.len() as int);
    lemma_slot_divides(ranked, track.popularity);
    assert(ranked == head + tail);
    assert(place(ranked, track) == head.push(track) + tail);
    if track.popularity == popularity {
        assert(tail.all(|other: TrackView| !test(other))) by {
            assert forall|k: int| 0 <= k < tail.len() implies !test(#[trigger] tail[k]) by {
                assert(tail[k] == ranked[at + k]);
            }
        }
        tail.lemma_all_neg_filter_empty(test);
        assert(tail.filter(test) == Seq::<TrackView>::empty());
        assert(head.filter(test).push(track) + tail.filter(test) == head.filter(test).push(track));
        assert(head.filter(test) + tail.filter(test) == head.filter(test));
    }
}

/// A ranking has as many tracks as were ranked.
pub proof fn lemma_ranked_len(tracks: Seq<TrackView>)
    ensures
        ranked(tracks).len() == tracks.len(),
    decreases tracks.len(),
{
    if tracks.len() > 0 {
        lemma_ranked_len(tracks.drop_last());
        lemma_slot_divides(ranked(tracks.drop_last()), tracks.last().popularity);
    }
}

/// In a ranking no track stands before a more popular one.
pub proof fn lemma_ranked_descending(tracks: Seq<TrackView>)
    ensures
        descending(ranked(tracks)),
    decreases tracks.len(),
{
    if tracks.len() > 0 {
        lemma_ranked_descending(tracks.drop_last());
        lemma_place_keeps_descending(ranked(tracks.drop_last()), tracks.last());
    }
}

/// Ranking is stable: the tracks of any one popularity stand in the ranking in
/// the order in which they were given.
pub proof fn lemma_ranked_stable(tracks: Seq<TrackView>, popularity: nat)
    ensures
        of_popularity(ranked(tracks), popularity) == of_popularity(tracks, popularity),
    decreases tracks.len(),
{
    broadcast use Seq::lemma_filter_push;

    if tracks.len() == 0 {
        assert(ranked(tracks) == tracks);
    } else {
        lemma_ranked_stable(tracks.drop_last(), popularity);
        lemma_place_keeps_order(ranked(tracks.drop_last()), tracks.last(), popularity);
        assert(tracks == tracks.drop_last().push(tracks.last()));
    }
}

/// The ranking of `tracks` is a stable ranking of them.
pub proof fn lemma_ranked_is_stable_ranking(tracks: Seq<TrackView>)
    ensures
        is_stable_ranking(ranked(tracks), tracks),
{
    lemma_ranked_descending(tracks);
    assert forall|popularity: nat| #[trigger]
        of_popularity(ranked(tracks), popularity) == of_popularity(tracks, popularity) by {
        lemma_ranked_stable(tracks, popularity);
    }
}

/// The last track of a sequence is the last among those of its popularity,
/// and is not among those of any other.
proof fn lemma_last_of_popularity(tracks: Seq<TrackView>, popularity: nat)
    requires
        tracks.len() > 0,
    ensures
        of_popularity(tracks, popularity) == if tracks.last().popularity == popularity {
            of_popularity(tracks.drop_last(), popularity).push(tracks.last())
        } else {
            of_popularity(tracks.drop_last(), popularity)
        },
{
    reveal(Seq::filter);
}

/// Where some track of `tracks` passes for the given popularity, a track of
/// that popularity stands in `tracks`.
proof fn lemma_popularity_occurs(tracks: Seq<TrackView>, popularity: nat) -> (k: int)
    requires
        of_popularity(tracks, popularity).len() > 0,
    ensures
        0 <= k < tracks.len(),
        tracks[k].popularity == popularity,
{
    let test = with_popularity(popularity);
    let found = tracks.filter(test)[0];
    tracks.lemma_filter_pred(test, 0);
    assert(tracks.filter(test).contains(found));
    tracks.lemma_filter_contains_rev(test, found);
    choose|k: int| 0 <= k < tracks.len() && tracks[k] == found
}

/// Two descending sequences that agree, for every popularity, on the tracks
/// of that popularity and their order are the same sequence.
pub proof fn lemma_descending_determined(a: Seq<TrackView>, b: Seq<TrackView>)
    requires
        descending(a),
        descending(b),
        forall|popularity: nat| #[trigger]
            of_popularity(a, popularity) == of_popularity(b, popularity),
    ensures
        a == b,
    decreases a.len(),
{
    if a.len() == 0 {
        if b.len() > 0 {
            lemma_last_of_popularity(b, b.last().popularity);
            assert(of_popularity(a, b.last().popularity).len() == 0) by {
                a.lemma_filter_len(with_popularity(b.last().popularity));
            }
            assert(of_popularity(a, b.last().popularity) == of_popularity(
                b,
                b.last().popularity,
            ));
        }
    } else {
        let p = a.last().popularity;
        lemma_last_of_popularity(a, p);
        assert(of_popularity(a, p) == of_popularity(b, p));
        let kb = lemma_popularity_occurs(b, p);
        let q = b.last().popularity;
        lemma_last_of_popularity(b, q);
        assert(of_popularity(a, q) == of_popularity(b, q));
        let ka = lemma_popularity_occurs(a, q);
        assert(p == q);
        assert(a.last() == of_popularity(a, p).last());
        assert(b.last() == of_popularity(b, p).last());
        assert forall|popularity: nat| #[trigger]
            of_popularity(a.drop_last(), popularity) == of_popularity(
                b.drop_last(),
                popularity,
            ) by {
            lemma_last_of_popularity(a, popularity);
            lemma_last_of_popularity(b, popularity);
            assert(of_popularity(a, popularity) == of_popularity(b, popularity));
            if popularity == p {
                assert(of_popularity(a.drop_last(), p) == of_popularity(a, p).drop_last());
                assert(of_popularity(b.drop_last(), p) == of_popularity(b, p).drop_last());
            }
        }
        lemma_descending_determined(a.drop_last(), b.drop_last());
        assert(a == a.drop_last().push(a.last()));
        assert(b == b.drop_last().push(b.last()));
    }
}

/// There is one stable ranking of `tracks`, and it is `ranked(tracks)`.
pub proof fn lemma_stable_ranking_is_ranked(out: Seq<TrackView>, tracks: Seq<TrackView>)
    requires
        is_stable_ranking(out, tracks),
    ensures
        out == ranked(tracks),
{
    lemma_ranked_is_stable_ranking(tracks);
    assert forall|popularity: nat| #[trigger]
        of_popularity(out, popularity) == of_popularity(ranked(tracks), popularity) by {
        assert(of_popularity(out, popularity) == of_popularity(tracks, popularity));
        assert(of_popularity(ranked(tracks), popularity) == of_popularity(tracks, popularity));
    }
    lemma_descending_determined(out, ranked(tracks));
}

/// A ranking holds exactly the tracks that were ranked, each as often as it
/// was given.
pub proof fn lemma_ranked_permutes(tracks: Seq<TrackView>)
    ensures
        ranked(tracks).to_multiset() == tracks.to_multiset(),
    decreases tracks.len(),
{
    broadcast use to_multiset_insert, to_multiset_build;

    if tracks.len() == 0 {
        assert(ranked(tracks) == tracks);
    } else {
        let rest = tracks.drop_last();
        lemma_ranked_permutes(rest);
        lemma_slot_divides(ranked(rest), tracks.last().popularity);
        assert(tracks == rest.push(tracks.last()));
    }
}

/// The identifiers of a ranking are the identifiers of the tracks that were
/// ranked, each as often as it was given: none is added and none is left out.
pub proof fn lemma_ranked_keeps_ids(tracks: Seq<TrackView>)
    ensures
        track_ids(ranked(tracks)).to_multiset() == track_ids(tracks).to_multiset(),
        track_ids(ranked(tracks)).to_set() == track_ids(tracks).to_set(),
        track_ids(ranked(tracks)).len() == tracks.len(),
    decreases tracks.len(),
{
    broadcast use to_multiset_insert, to_multiset_build, to_multiset_contains;

    lemma_ranked_len(tracks);
    if tracks.len() == 0 {
        assert(ranked(tracks) == tracks);
    } else {
        let rest = tracks.drop_last();
        let last = tracks.last();
        let at = slot(ranked(rest), last.popularity);
        lemma_ranked_keeps_ids(rest);
        lemma_ranked_len(rest);
        lemma_slot_divides(ranked(rest), last.popularity);
        assert(track_ids(ranked(tracks)) == track_ids(ranked(rest)).insert(at, last.id));
        assert(track_ids(tracks) == track_ids(rest).push(last.id));
    }
    let mine = track_ids(ranked(tracks));
    let given = track_ids(tracks);
    assert forall|id: Seq<char>| mine.to_set().contains(id) <==> given.to_set().contains(
        id,
    ) by {
        assert(mine.contains(id) <==> mine.to_multiset().count(id) > 0);
        assert(given.contains(id) <==> given.to_multiset().count(id) > 0);
    }
    assert(mine.to_set() =~= given.to_set());
}

} // verus!
