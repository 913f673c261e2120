//! Why a run stopped early.

use vstd::prelude::*;
use vstd::string::*;

verus! {

/// The stage at which a run failed. A run that failed is not resumed.
#[derive(Clone, Copy, Debug, PartialEq, Eq)]
pub enum Failure {
    /// The client's credentials are not configured.
    Configuration,
    /// The user's consent or the exchange for a token failed.
    Authorization,
    /// The current user could not be looked up.
    UserLookup,
    /// The service did not create the playlist.
    PlaylistCreation,
    /// The search failed.
    Search,
    /// The service did not add the tracks to the playlist.
    AddItems,
    /// The playlist could not be opened in the browser.
    BrowserOpen,
}

impl Failure {
    /// The fixed message that describes this failure.
    pub open spec fn text(self) -> Seq<char> {
        match self {
            Failure::Configuration => "Missing client credentials"@,
            Failure::Authorization => "Failed to authorize the client"@,
            Failure::UserLookup => "Failed to look up the current user"@,
            Failure::PlaylistCreation => "Failed to create new playlist"@,
            Failure::Search => "Failed to find songs to add to playlist"@,
            Failure::AddItems => "Failed to add tracks to playlist"@,
            Failure::BrowserOpen => "Failed to open the playlist in the browser"@,
        }
    }

    /// The fixed message that describes this failure.
    pub fn message(&self) -> (message: String)
        ensures
            message@ == self.text(),
    {
        match self {
            Failure::Configuration => String::from_str("Missing client credentials"),
            Failure::Authorization => String::from_str("Failed to authorize the client"),
            Failure::UserLookup => String::from_str("Failed to look up the current user"),
            Failure::PlaylistCreation => String::from_str("Failed to create new playlist"),
            Failure::Search => String::from_str("Failed to find songs to add to playlist"),
            Failure::AddItems => String::from_str("Failed to add tracks to playlist"),
            Failure::BrowserOpen => String::from_str("Failed to open the playlist in the browser"),
        }
    }
}

} // verus!
