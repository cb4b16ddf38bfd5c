use spotify_polybar::cli::{parse_command, usage};
use spotify_polybar::model::{CliError, Command};

fn args(list: &[&str]) -> Vec<String> {
    list.iter().map(|a| a.to_string()).collect()
}

#[test]
fn empty_command_line_is_missing_subcommand() {
    assert_eq!(parse_command(&args(&[])).unwrap_err(), CliError::MissingSubcommand);
}

#[test]
fn plain_subcommands_parse() {
    assert!(matches!(parse_command(&args(&["status"])), Ok(Command::Status)));
    assert!(matches!(parse_command(&args(&["next"])), Ok(Command::Next)));
    assert!(matches!(parse_command(&args(&["previous"])), Ok(Command::Previous)));
    assert!(matches!(parse_command(&args(&["players"])), Ok(Command::ListDevices)));
}

#[test]
fn unknown_subcommand_is_rejected() {
    assert_eq!(parse_command(&args(&["shuffle"])).unwrap_err(), CliError::UnknownSubcommand);
}

#[test]
fn extra_argument_is_rejected() {
    assert_eq!(parse_command(&args(&["status", "now"])).unwrap_err(), CliError::UnexpectedArgument);
    assert_eq!(parse_command(&args(&["players", "-v"])).unwrap_err(), CliError::UnexpectedArgument);
}

#[test]
fn playpause_without_flags_has_no_device() {
    match parse_command(&args(&["playpause"])) {
        Ok(Command::PlayPause { device_id }) => assert_eq!(device_id, None),
        _ => panic!("expected playpause"),
    }
}

#[test]
fn playpause_takes_a_device_id() {
    match parse_command(&args(&["playpause", "-d", "dev1"])) {
        Ok(Command::PlayPause { device_id }) => assert_eq!(device_id, Some("dev1".to_string())),
        _ => panic!("expected playpause"),
    }
    match parse_command(&args(&["playpause", "--device-id", "dev2"])) {
        Ok(Command::PlayPause { device_id }) => assert_eq!(device_id, Some("dev2".to_string())),
        _ => panic!("expected playpause"),
    }
}

#[test]
fn playpause_flag_without_value_is_rejected() {
    assert_eq!(parse_command(&args(&["playpause", "-d"])).unwrap_err(), CliError::MissingFlagValue);
}

#[test]
fn playpause_unknown_flag_is_rejected() {
    assert_eq!(parse_command(&args(&["playpause", "--loud"])).unwrap_err(), CliError::UnexpectedArgument);
    assert_eq!(
        parse_command(&args(&["playpause", "-d", "dev1", "more"])).unwrap_err(),
        CliError::UnexpectedArgument
    );
}

#[test]
fn play_button_defaults_to_play_and_pause() {
    match parse_command(&args(&["play-button"])) {
        Ok(Command::PlayButton { play_label, pause_label }) => {
            assert_eq!(play_label, "play");
            assert_eq!(pause_label, "pause");
        },
        _ => panic!("expected play-button"),
    }
}

#[test]
fn play_button_takes_label_overrides_in_any_order() {
    match parse_command(&args(&["play-button", "--play", "P", "--pause", "Q"])) {
        Ok(Command::PlayButton { play_label, pause_label }) => {
            assert_eq!(play_label, "P");
            assert_eq!(pause_label, "Q");
        },
        _ => panic!("expected play-button"),
    }
    match parse_command(&args(&["play-button", "--pause", "Q", "--play", "P"])) {
        Ok(Command::PlayButton { play_label, pause_label }) => {
            assert_eq!(play_label, "P");
            assert_eq!(pause_label, "Q");
        },
        _ => panic!("expected play-button"),
    }
}

#[test]
fn play_button_one_override_keeps_the_other_default() {
    match parse_command(&args(&["play-button", "--pause", "Q"])) {
        Ok(Command::PlayButton { play_label, pause_label }) => {
            assert_eq!(play_label, "play");
            assert_eq!(pause_label, "Q");
        },
        _ => panic!("expected play-button"),
    }
}

#[test]
fn play_button_duplicate_flag_is_rejected() {
    assert_eq!(
        parse_command(&args(&["play-button", "--play", "a", "--play", "b"])).unwrap_err(),
        CliError::DuplicateFlag
    );
}

#[test]
fn play_button_flag_without_value_is_rejected() {
    assert_eq!(
        parse_command(&args(&["play-button", "--play"])).unwrap_err(),
        CliError::MissingFlagValue
    );
    assert_eq!(
        parse_command(&args(&["play-button", "--play", "a", "--pause"])).unwrap_err(),
        CliError::MissingFlagValue
    );
}

#[test]
fn play_button_unknown_flag_is_rejected() {
    assert_eq!(
        parse_command(&args(&["play-button", "-p"])).unwrap_err(),
        CliError::UnexpectedArgument
    );
}

#[test]
fn usage_names_every_subcommand() {
    let text = usage();
    assert!(text.starts_with("Usage:"));
    for sub in ["status", "playpause", "play-button", "next", "previous", "players"] {
        assert!(text.contains(sub), "usage text misses {sub}");
    }
}
