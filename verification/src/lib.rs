//! Verified core of a one-shot command-line Spotify playback controller.
//!
//! The library holds everything the tool decides and formats: parsing the
//! command line into a [`model::Command`], choosing which player action an
//! invocation issues, and rendering the single line of output. Talking to
//! the actual web service (authentication, HTTP) is left to a thin
//! unverified shell around the library.

pub mod cli;
pub mod controller;
pub mod model;
pub mod render;
