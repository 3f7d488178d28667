//! The closed set of commands and the decoding of a command-line argument
//! into it.  Decoding happens once at the boundary; everything after it
//! dispatches on the enumeration.

use vstd::prelude::*;
use vstd::string::StringExecFns;

verus! {

/// The two operations this tool performs.
#[derive(Clone, Copy, Debug, PartialEq, Eq, Structural)]
pub enum Command {
    /// Toggle whether the currently played game is shown.
    Game,
    /// Toggle whether Spotify listening activity is shown.
    Spotify,
}

/// Decodes a command-line argument.  Exactly `"game"` and `"spotify"` are
/// commands; anything else is a usage error, reported as `None`.
pub fn parse_command(arg: &String) -> (r: Option<Command>)
    ensures
        arg@ == "game"@ ==> r == Some(Command::Game),
        arg@ == "spotify"@ ==> r == Some(Command::Spotify),
        arg@ != "game"@ && arg@ != "spotify"@ ==> r is None,
{
    proof {
        reveal_strlit("game");
        reveal_strlit("spotify");
        assert("game"@.len() != "spotify"@.len());
    }
    let game = String::from_str("game");
    let spotify = String::from_str("spotify");
    if *arg == game {
        Some(Command::Game)
    } else if *arg == spotify {
        Some(Command::Spotify)
    } else {
        None
    }
}

} // verus!
