//! What a run is asked to do: the theme and the number of songs.

use vstd::prelude::*;
use vstd::string::*;

verus! {

/// Number of songs searched for when the caller names none.
pub const DEFAULT_TOTAL_SONGS: u32 = 20;

/// The theme of the playlist and the number of songs to search for.
#[derive(Debug, PartialEq, Eq)]
pub struct Settings {
    pub theme: String,
    pub total_songs: u32,
}

/// What [`Settings`] stand for in contracts.
#[verifier::ext_equal]
pub struct SettingsView {
    pub theme: Seq<char>,
    pub total_songs: nat,
}

impl View for Settings {
    type V = SettingsView;

    open spec fn view(&self) -> SettingsView {
        SettingsView { theme: self.theme@, total_songs: self.total_songs as nat }
    }
}

/// The number of songs to search for: the caller's choice, or the default.
pub open spec fn total_songs_or_default(requested: Option<u32>) -> nat {
    match requested {
        Some(n) => n as nat,
        None => DEFAULT_TOTAL_SONGS as nat,
    }
}

/// The name of the playlist for a theme: the theme, a space and the word
/// `Sprint`.
pub open spec fn playlist_name_text(theme: Seq<char>) -> Seq<char> {
    theme + " Sprint"@
}

impl Settings {
    /// The settings for a theme and an optional number of songs; where no
    /// number is given, [`DEFAULT_TOTAL_SONGS`] are searched for.
    pub fn resolve(theme: String, total_songs: Option<u32>) -> (settings: Settings)
        ensures
            settings@.theme == theme@,
            settings@.total_songs == total_songs_or_default(total_songs),
    {
        let total_songs = match total_songs {
            Some(n) => n,
            None => DEFAULT_TOTAL_SONGS,
        };
        Settings { theme, total_songs }
    }
}

impl Clone for Settings {
    fn clone(&self) -> (copy: Settings)
        ensures
            copy == *self,
    {
        Settings { theme: self.theme.clone(), total_songs: self.total_songs }
    }
}

/// The name of the playlist for `theme`.
pub fn playlist_name(theme: &str) -> (name: String)
    ensures
        name@ == playlist_name_text(theme@),
{
    String::from_str(theme).concat(" Sprint")
}

} // verus!
