//! Playback controller: given a parsed command and one fresh observation of
//! the remote player, decide the single player action to issue and the
//! lines to print. The unverified shell fetches the observation, performs
//! the action and prints the lines; every decision is made here.

use vstd::prelude::*;
use crate::model::{Command, Device, PlaybackState, PlayerAction};
use crate::render::{device_lines, play_button_label, spec_button_label, spec_device_line, spec_status_line, status_line};

verus! {

/// Whether the player is currently playing: `false` when no playback is
/// active at all.
pub open spec fn spec_is_playing(playing: Option<PlaybackState>) -> bool {
    match playing {
        None => false,
        Some(p) => p.is_playing,
    }
}

/// Reads the "is playing" flag out of a playback snapshot.
pub fn is_playing_of(playing: &Option<PlaybackState>) -> (r: bool)
    ensures
        r == spec_is_playing(*playing),
{
    match playing {
        None => false,
        Some(p) => p.is_playing,
    }
}

/// The one player action a `playpause` invocation issues: pause when a
/// track is playing, start (resume, or fresh start when nothing is loaded)
/// otherwise, always aimed at the optional target device.
pub open spec fn spec_playpause_action(playing: Option<PlaybackState>, device_id: Option<String>) -> PlayerAction {
    if spec_is_playing(playing) {
        PlayerAction::PausePlayback { device_id }
    } else {
        PlayerAction::StartPlayback { device_id }
    }
}

/// Toggling issues exactly one downstream command per invocation: pause
/// when a track is playing, start when nothing is loaded or the track is
/// paused — never both.
pub proof fn lemma_playpause_exactly_one(playing: Option<PlaybackState>, device_id: Option<String>)
    ensures
        spec_playpause_action(playing, device_id) matches PlayerAction::PausePlayback { .. }
            <==> spec_is_playing(playing),
        spec_playpause_action(playing, device_id) matches PlayerAction::StartPlayback { .. }
            <==> !spec_is_playing(playing),
{
}

/// Decides the `playpause` action from one fresh read of the player.
pub fn playpause_action(playing: &Option<PlaybackState>, device_id: Option<String>) -> (r: PlayerAction)
    ensures
        r == spec_playpause_action(*playing, device_id),
{
    if is_playing_of(playing) {
        PlayerAction::PausePlayback { device_id }
    } else {
        PlayerAction::StartPlayback { device_id }
    }
}

/// What a command needs fetched from the service before it can be decided.
#[derive(Clone, Copy, PartialEq, Eq, Structural, Debug)]
pub enum Fetch {
    /// The current playback snapshot.
    Playback,
    /// The device listing.
    Devices,
    /// Nothing: the command is decided from the arguments alone.
    Nothing,
}

/// One observation of the service, matching what the command asked for.
pub enum Observation {
    Playback { playing: Option<PlaybackState> },
    Devices { devices: Vec<Device> },
    Nothing,
}

/// Which observation each command needs: the three state-reading commands
/// need the playback snapshot, the listing needs the devices, the
/// unconditional skips need nothing.
pub open spec fn spec_needed_fetch(cmd: Command) -> Fetch {
    match cmd {
        Command::Status => Fetch::Playback,
        Command::PlayPause { .. } => Fetch::Playback,
        Command::PlayButton { .. } => Fetch::Playback,
        Command::Next => Fetch::Nothing,
        Command::Previous => Fetch::Nothing,
        Command::ListDevices => Fetch::Devices,
    }
}

/// Tells the shell what to fetch before calling [`dispatch`].
pub fn needed_fetch(cmd: &Command) -> (r: Fetch)
    ensures
        r == spec_needed_fetch(*cmd),
{
    match cmd {
        Command::Status => Fetch::Playback,
        Command::PlayPause { .. } => Fetch::Playback,
        Command::PlayButton { .. } => Fetch::Playback,
        Command::Next => Fetch::Nothing,
        Command::Previous => Fetch::Nothing,
        Command::ListDevices => Fetch::Devices,
    }
}

/// The observation is of the kind the command needs.
pub open spec fn obs_for(cmd: Command, obs: Observation) -> bool {
    match spec_needed_fetch(cmd) {
        Fetch::Playback => obs matches Observation::Playback { .. },
        Fetch::Devices => obs matches Observation::Devices { .. },
        Fetch::Nothing => obs matches Observation::Nothing,
    }
}

/// The lines a command prints, given the matching observation: one status
/// line, one button label, one line per device, or nothing at all for the
/// commands that only act.
pub open spec fn spec_lines(cmd: Command, obs: Observation) -> Seq<Seq<char>> {
    match cmd {
        Command::Status => match obs {
            Observation::Playback { playing } => seq![spec_status_line(playing)],
            _ => Seq::empty(),
        },
        Command::PlayButton { play_label, pause_label } => match obs {
            Observation::Playback { playing } => seq![
                spec_button_label(spec_is_playing(playing), play_label@, pause_label@),
            ],
            _ => Seq::empty(),
        },
        Command::ListDevices => match obs {
            Observation::Devices { devices } => devices@.map_values(
                |d: Device| spec_device_line(d),
            ),
            _ => Seq::empty(),
        },
        Command::PlayPause { .. } => Seq::empty(),
        Command::Next => Seq::empty(),
        Command::Previous => Seq::empty(),
    }
}

/// The one player action a command issues, given the matching observation:
/// the toggle's choice, the two unconditional skips, or none for the
/// commands that only print.
pub open spec fn spec_action(cmd: Command, obs: Observation) -> Option<PlayerAction> {
    match cmd {
        Command::PlayPause { device_id } => match obs {
            Observation::Playback { playing } => Some(spec_playpause_action(playing, device_id)),
            _ => None,
        },
        Command::Next => Some(PlayerAction::SkipToNext),
        Command::Previous => Some(PlayerAction::SkipToPrevious),
        _ => None,
    }
}

/// What one invocation does after its observation: the lines to print, in
/// order, and at most one player action to issue.
pub struct Response {
    pub lines: Vec<String>,
    pub action: Option<PlayerAction>,
}

/// Decides a whole invocation: from the parsed command and the observation
/// it asked for, the exact lines to print and the at-most-one action to
/// issue.
pub fn dispatch(cmd: Command, obs: Observation) -> (r: Response)
    requires
        obs_for(cmd, obs),
    ensures
        r.lines.deep_view() == spec_lines(cmd, obs),
        r.action == spec_action(cmd, obs),
{
    let ghost gcmd = cmd;
    let ghost gobs = obs;
    match cmd {
        Command::Status => match obs {
            Observation::Playback { playing } => {
                let line = status_line(&playing);
                let mut lines: Vec<String> = Vec::new();
                lines.push(line);
                proof {
                    assert(lines.deep_view() =~= spec_lines(gcmd, gobs));
                }
                Response { lines, action: None }
            },
            _ => vstd::pervasive::unreached(),
        },
        Command::PlayButton { play_label, pause_label } => match obs {
            Observation::Playback { playing } => {
                let playing_now = is_playing_of(&playing);
                let line = play_button_label(playing_now, play_label.as_str(), pause_label.as_str());
                let mut lines: Vec<String> = Vec::new();
                lines.push(line);
                proof {
                    assert(lines.deep_view() =~= spec_lines(gcmd, gobs));
                }
                Response { lines, action: None }
            },
            _ => vstd::pervasive::unreached(),
        },
        Command::ListDevices => match obs {
            Observation::Devices { devices } => {
                let lines = device_lines(&devices);
                Response { lines, action: None }
            },
            _ => vstd::pervasive::unreached(),
        },
        Command::PlayPause { device_id } => match obs {
            Observation::Playback { playing } => {
                let action = playpause_action(&playing, device_id);
                let lines: Vec<String> = Vec::new();
                proof {
                    assert(lines.deep_view() =~= spec_lines(gcmd, gobs));
                }
                Response { lines, action: Some(action) }
            },
            _ => vstd::pervasive::unreached(),
        },
        Command::Next => {
            let lines: Vec<String> = Vec::new();
            proof {
                assert(lines.deep_view() =~= spec_lines(gcmd, gobs));
            }
            Response { lines, action: Some(PlayerAction::SkipToNext) }
        },
        Command::Previous => {
            let lines: Vec<String> = Vec::new();
            proof {
                assert(lines.deep_view() =~= spec_lines(gcmd, gobs));
            }
            Response { lines, action: Some(PlayerAction::SkipToPrevious) }
        },
    }
}

} // verus!
