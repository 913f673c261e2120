use sprint_playlist::rank::rank_tracks;
use sprint_playlist::track::Track;

fn track(id: &str, popularity: u32) -> Track {
    Track::new(id.to_string(), popularity)
}

fn ids(tracks: &[Track]) -> Vec<String> {
    tracks.iter().map(|t| t.id.clone()).collect()
}

#[test]
fn ranks_most_popular_first() {
    let found = vec![track("a", 10), track("b", 50), track("c", 30)];
    let ranked = rank_tracks(&found);
    assert_eq!(ranked, vec![track("b", 50), track("c", 30), track("a", 10)]);
}

#[test]
fn ranking_keeps_order_of_equal_popularity() {
    let found = vec![
        track("a", 10),
        track("b", 50),
        track("c", 10),
        track("d", 50),
        track("e", 30),
        track("f", 10),
    ];
    let ranked = rank_tracks(&found);
    assert_eq!(ids(&ranked), vec!["b", "d", "e", "a", "c", "f"]);
}

#[test]
fn ranking_of_nothing_is_empty() {
    let ranked = rank_tracks(&Vec::new());
    assert!(ranked.is_empty());
}

#[test]
fn ranking_of_one_track_is_that_track() {
    let ranked = rank_tracks(&vec![track("only", 7)]);
    assert_eq!(ranked, vec![track("only", 7)]);
}

#[test]
fn ranking_leaves_descending_input_unchanged() {
    let found = vec![track("a", 90), track("b", 60), track("c", 60), track("d", 0)];
    let ranked = rank_tracks(&found);
    assert_eq!(ranked, found);
}

#[test]
fn ranking_reverses_strictly_ascending_input() {
    let found = vec![track("a", 1), track("b", 2), track("c", 3), track("d", 4)];
    let ranked = rank_tracks(&found);
    assert_eq!(ids(&ranked), vec!["d", "c", "b", "a"]);
}

#[test]
fn ranking_of_equally_popular_tracks_is_the_search_order() {
    let found = vec![track("x", 42), track("y", 42), track("z", 42)];
    let ranked = rank_tracks(&found);
    assert_eq!(ids(&ranked), vec!["x", "y", "z"]);
}

#[test]
fn ranking_keeps_tracks_found_twice() {
    let found = vec![track("a", 5), track("b", 9), track("a", 5)];
    let ranked = rank_tracks(&found);
    assert_eq!(ranked, vec![track("b", 9), track("a", 5), track("a", 5)]);
}

#[test]
fn ranking_handles_the_extremes_of_popularity() {
    let found = vec![track("low", 0), track("high", u32::MAX), track("mid", 100)];
    let ranked = rank_tracks(&found);
    assert_eq!(ids(&ranked), vec!["high", "mid", "low"]);
}

#[test]
fn ranking_does_not_change_its_input() {
    let found = vec![track("a", 1), track("b", 2)];
    let before = found.clone();
    let _ = rank_tracks(&found);
    assert_eq!(found, before);
}

#[test]
fn ranking_is_a_permutation_and_descending() {
    let mut found = Vec::new();
    let mut seed: u32 = 12345;
    for i in 0..200 {
        seed = seed.wrapping_mul(1103515245).wrapping_add(12345);
        found.push(track(&format!("t{}", i), (seed >> 16) % 10));
    }
    let ranked = rank_tracks(&found);
    assert_eq!(ranked.len(), found.len());
    for pair in ranked.windows(2) {
        assert!(pair[0].popularity >= pair[1].popularity);
    }
    for popularity in 0..10 {
        let given: Vec<&Track> = found.iter().filter(|t| t.popularity == popularity).collect();
        let kept: Vec<&Track> = ranked.iter().filter(|t| t.popularity == popularity).collect();
        assert_eq!(given, kept);
    }
}

#[test]
fn track_clone_is_equal() {
    let t = track("abc", 3);
    assert_eq!(t.clone(), t);
}
