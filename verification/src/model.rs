//! Data model: the playback snapshot, the devices, the parsed command and
//! the downstream player action.

use vstd::prelude::*;

verus! {

/// Snapshot of the remote player, fetched fresh per invocation: whether a
/// track is playing, the loaded track's name, and the artist names in the
/// order the service returned them. `None` at the call sites stands for
/// "no active playback".
pub struct PlaybackState {
    pub is_playing: bool,
    pub track_name: String,
    pub artist_names: Vec<String>,
}

/// One available playback target, as listed by the service.
pub struct Device {
    pub id: String,
    pub name: String,
    pub is_active: bool,
}

/// The one downstream player command that an invocation issues.
pub enum PlayerAction {
    StartPlayback { device_id: Option<String> },
    PausePlayback { device_id: Option<String> },
    SkipToNext,
    SkipToPrevious,
}

/// A parsed command-line invocation: exactly one is produced per run.
#[derive(Debug)]
pub enum Command {
    Status,
    PlayPause { device_id: Option<String> },
    PlayButton { play_label: String, pause_label: String },
    Next,
    Previous,
    ListDevices,
}

/// Spec-level image of [`Command`], with strings as character sequences.
pub enum CommandView {
    Status,
    PlayPause { device_id: Option<Seq<char>> },
    PlayButton { play_label: Seq<char>, pause_label: Seq<char> },
    Next,
    Previous,
    ListDevices,
}

impl View for Command {
    type V = CommandView;

    open spec fn view(&self) -> CommandView {
        match self {
            Command::Status => CommandView::Status,
            Command::PlayPause { device_id } => CommandView::PlayPause {
                device_id: device_id.deep_view(),
            },
            Command::PlayButton { play_label, pause_label } => CommandView::PlayButton {
                play_label: play_label@,
                pause_label: pause_label@,
            },
            Command::Next => CommandView::Next,
            Command::Previous => CommandView::Previous,
            Command::ListDevices => CommandView::ListDevices,
        }
    }
}

/// Why a command line failed to parse.
#[derive(Clone, Copy, PartialEq, Eq, Structural, Debug)]
pub enum CliError {
    /// No subcommand was supplied at all.
    MissingSubcommand,
    /// The first argument is not one of the known subcommands.
    UnknownSubcommand,
    /// A positional argument or flag the subcommand does not take.
    UnexpectedArgument,
    /// A flag that takes a value came last, with no value after it.
    MissingFlagValue,
    /// The same flag was given twice.
    DuplicateFlag,
}

} // verus!
