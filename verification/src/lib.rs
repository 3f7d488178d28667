//! Toggles two privacy-related display settings of a remote account:
//! whether the currently played game is shown, and whether Spotify
//! listening activity is shown.  The library holds the verified decision
//! logic of the two read-modify-write sequences: interpreting a GET
//! response, locating and negating the boolean flag, building the PATCH
//! request, and interpreting the PATCH response.  The HTTP transport
//! itself lives outside the library and hands in plain status codes and
//! body strings.

pub mod command;
pub mod connections;
pub mod errors;
pub mod json;
pub mod laws;
pub mod settings;
