//! Command-line grammar: six subcommands, two of them with flags. The
//! grammar is the spec; the exec parser is proved to decide exactly it.

use vstd::prelude::*;
use crate::model::{CliError, Command, CommandView};

verus! {

/// String equality by characters.
pub fn str_eq(a: &str, b: &str) -> (r: bool)
    ensures
        r == (a@ == b@),
{
    let x: String = a.to_owned();
    let y: String = b.to_owned();
    x == y
}

/// Grammar of the arguments after `playpause`: nothing, or one
/// `-d`/`--device-id` flag with its value.
pub open spec fn spec_parse_playpause(rest: Seq<Seq<char>>) -> Result<CommandView, CliError> {
    if rest.len() == 0 {
        Ok(CommandView::PlayPause { device_id: None })
    } else if rest[0] == "-d"@ || rest[0] == "--device-id"@ {
        if rest.len() == 1 {
            Err(CliError::MissingFlagValue)
        } else if rest.len() == 2 {
            Ok(CommandView::PlayPause { device_id: Some(rest[1]) })
        } else {
            Err(CliError::UnexpectedArgument)
        }
    } else {
        Err(CliError::UnexpectedArgument)
    }
}

/// Grammar of the arguments after `play-button`: any mix of one `--play`
/// and one `--pause`, each with a value; a missing label falls back to the
/// defaults `"play"` and `"pause"`.
pub open spec fn spec_parse_button_flags(
    rest: Seq<Seq<char>>,
    play: Option<Seq<char>>,
    pause: Option<Seq<char>>,
) -> Result<CommandView, CliError>
    decreases rest.len(),
{
    if rest.len() == 0 {
        Ok(CommandView::PlayButton {
            play_label: match play {
                Some(p) => p,
                None => "play"@,
            },
            pause_label: match pause {
                Some(p) => p,
                None => "pause"@,
            },
        })
    } else if rest[0] == "--play"@ {
        if play is Some {
            Err(CliError::DuplicateFlag)
        } else if rest.len() == 1 {
            Err(CliError::MissingFlagValue)
        } else {
            spec_parse_button_flags(rest.skip(2), Some(rest[1]), pause)
        }
    } else if rest[0] == "--pause"@ {
        if pause is Some {
            Err(CliError::DuplicateFlag)
        } else if rest.len() == 1 {
            Err(CliError::MissingFlagValue)
        } else {
            spec_parse_button_flags(rest.skip(2), play, Some(rest[1]))
        }
    } else {
        Err(CliError::UnexpectedArgument)
    }
}

/// The whole command-line grammar, over the arguments after the program
/// name: which command a given argument list denotes, or exactly which
/// error rejects it.
pub open spec fn spec_parse(args: Seq<Seq<char>>) -> Result<CommandView, CliError> {
    if args.len() == 0 {
        Err(CliError::MissingSubcommand)
    } else {
        let sub = args[0];
        let rest = args.skip(1);
        if sub == "status"@ {
            if rest.len() == 0 {
                Ok(CommandView::Status)
            } else {
                Err(CliError::UnexpectedArgument)
            }
        } else if sub == "playpause"@ {
            spec_parse_playpause(rest)
        } else if sub == "play-button"@ {
            spec_parse_button_flags(rest, None, None)
        } else if sub == "next"@ {
            if rest.len() == 0 {
                Ok(CommandView::Next)
            } else {
                Err(CliError::UnexpectedArgument)
            }
        } else if sub == "previous"@ {
            if rest.len() == 0 {
                Ok(CommandView::Previous)
            } else {
                Err(CliError::UnexpectedArgument)
            }
        } else if sub == "players"@ {
            if rest.len() == 0 {
                Ok(CommandView::ListDevices)
            } else {
                Err(CliError::UnexpectedArgument)
            }
        } else {
            Err(CliError::UnknownSubcommand)
        }
    }
}

/// Spec-level image of a parse result.
pub open spec fn parse_result_view(r: Result<Command, CliError>) -> Result<CommandView, CliError> {
    match r {
        Ok(c) => Ok(c@),
        Err(e) => Err(e),
    }
}

/// An empty argument list is rejected as a missing subcommand and never
/// yields a command.
pub proof fn lemma_no_subcommand_is_rejected(args: Seq<Seq<char>>)
    requires
        args.len() == 0,
    ensures
        spec_parse(args) == Err::<CommandView, CliError>(CliError::MissingSubcommand),
{
}

/// Parses the arguments after the program name into a [`Command`], or the
/// exact error the grammar assigns them.
pub fn parse_command(args: &Vec<String>) -> (r: Result<Command, CliError>)
    ensures
        parse_result_view(r) == spec_parse(args.deep_view()),
{
    let ghost gargs = args.deep_view();
    if args.len() == 0 {
        return Err(CliError::MissingSubcommand);
    }
    let sub = &args[0];
    let ghost rest = gargs.skip(1);
    assert(rest.len() == gargs.len() - 1);
    if str_eq(sub.as_str(), "status") {
        if args.len() == 1 {
            Ok(Command::Status)
        } else {
            Err(CliError::UnexpectedArgument)
        }
    } else if str_eq(sub.as_str(), "playpause") {
        if args.len() == 1 {
            Ok(Command::PlayPause { device_id: None })
        } else {
            assert(rest[0] == gargs[1]);
            if str_eq(args[1].as_str(), "-d") || str_eq(args[1].as_str(), "--device-id") {
                if args.len() == 2 {
                    Err(CliError::MissingFlagValue)
                } else if args.len() == 3 {
                    assert(rest[1] == gargs[2]);
                    Ok(Command::PlayPause { device_id: Some(args[2].clone()) })
                } else {
                    Err(CliError::UnexpectedArgument)
                }
            } else {
                Err(CliError::UnexpectedArgument)
            }
        }
    } else if str_eq(sub.as_str(), "play-button") {
        parse_button_flags(args)
    } else if str_eq(sub.as_str(), "next") {
        if args.len() == 1 {
            Ok(Command::Next)
        } else {
            Err(CliError::UnexpectedArgument)
        }
    } else if str_eq(sub.as_str(), "previous") {
        if args.len() == 1 {
            Ok(Command::Previous)
        } else {
            Err(CliError::UnexpectedArgument)
        }
    } else if str_eq(sub.as_str(), "players") {
        if args.len() == 1 {
            Ok(Command::ListDevices)
        } else {
            Err(CliError::UnexpectedArgument)
        }
    } else {
        Err(CliError::UnknownSubcommand)
    }
}

/// Parses the flags after a leading `play-button` argument.
fn parse_button_flags(args: &Vec<String>) -> (r: Result<Command, CliError>)
    requires
        args.deep_view().len() >= 1,
    ensures
        parse_result_view(r) == spec_parse_button_flags(args.deep_view().skip(1), None, None),
{
    let ghost gargs = args.deep_view();
    let mut play: Option<String> = None;
    let mut pause: Option<String> = None;
    let mut i: usize = 1;
    while i < args.len()
        invariant
            1 <= i <= args.len(),
            gargs == args.deep_view(),
            gargs.len() == args.len(),
            spec_parse_button_flags(gargs.skip(1), None, None) == spec_parse_button_flags(
                gargs.skip(i as int),
                play.deep_view(),
                pause.deep_view(),
            ),
        decreases args.len() - i,
    {
        let ghost here = gargs.skip(i as int);
        assert(here[0] == gargs[i as int]);
        if str_eq(args[i].as_str(), "--play") {
            if play.is_some() {
                return Err(CliError::DuplicateFlag);
            }
            if i + 1 == args.len() {
                return Err(CliError::MissingFlagValue);
            }
            assert(here[1] == gargs[i + 1]);
            play = Some(args[i + 1].clone());
            proof {
                assert(here.skip(2) =~= gargs.skip(i + 2));
            }
            i = i + 2;
        } else if str_eq(args[i].as_str(), "--pause") {
            if pause.is_some() {
                return Err(CliError::DuplicateFlag);
            }
            if i + 1 == args.len() {
                return Err(CliError::MissingFlagValue);
            }
            assert(here[1] == gargs[i + 1]);
            pause = Some(args[i + 1].clone());
            proof {
                assert(here.skip(2) =~= gargs.skip(i + 2));
            }
            i = i + 2;
        } else {
            return Err(CliError::UnexpectedArgument);
        }
    }
    assert(gargs.skip(i as int).len() == 0);
    let play_label: String = match play {
        Some(p) => p,
        None => "play".to_owned(),
    };
    let pause_label: String = match pause {
        Some(p) => p,
        None => "pause".to_owned(),
    };
    Ok(Command::PlayButton { play_label, pause_label })
}

/// The usage text printed to the error stream when no subcommand is given.
pub open spec fn spec_usage() -> Seq<char> {
    "Usage: spotify-polybar <SUBCOMMAND>\n\nSubcommands:\n    status                     Output current track info\n    playpause [-d <device-id>] Toggle play/pause\n    play-button [--play <label>] [--pause <label>]\n                               Output the play button\n    next                       Next track\n    previous                   Previous track\n    players                    List available players\n"@
}

/// Returns the usage text.
pub fn usage() -> (r: String)
    ensures
        r@ == spec_usage(),
{
    "Usage: spotify-polybar <SUBCOMMAND>\n\nSubcommands:\n    status                     Output current track info\n    playpause [-d <device-id>] Toggle play/pause\n    play-button [--play <label>] [--pause <label>]\n                               Output the play button\n    next                       Next track\n    previous                   Previous track\n    players                    List available players\n".to_owned()
}

} // verus!
