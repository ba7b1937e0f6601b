use ssc::config::{Config, IpAddress};
use ssc::dispatch::{
    start, step, Action, Event, IoFailure, Reply, Request, Session, Track, TransportState,
};
use ssc::error::Error;

fn device_config(step: u8) -> Config {
    Config { ip: IpAddress { a: 192, b: 168, c: 1, d: 105 }, step }
}

fn speaker_ok(reply: Reply) -> Event {
    Event::Speaker(Ok(reply))
}

#[test]
fn no_argument_is_missing_command() {
    let (session, out) = start(None);
    assert_eq!(session, Session::Finished);
    assert_eq!(out.action, Action::Exit(Err(Error::MissingCommand)));
    assert!(out.out.is_empty());
    assert!(out.err.is_empty());
}

#[test]
fn unknown_token_is_unknown_command() {
    let (session, out) = start(Some("frobnicate".to_string()));
    assert_eq!(out.action, Action::GetConfigRoot);
    let (session, out) = step(session, Event::ConfigRoot(Some("/root/cfg".to_string())));
    assert_eq!(
        out.action,
        Action::ReadFile {
            dir: "/root/cfg/ssc".to_string(),
            path: "/root/cfg/ssc/Config.toml".to_string(),
        },
    );
    let (session, out) = step(session, Event::FileRead(Ok(Config::write())));
    assert_eq!(out.action, Action::Connect { ip: IpAddress { a: 192, b: 168, c: 1, d: 105 } });
    let (session, out) = step(session, Event::Connected(Ok(())));
    assert_eq!(session, Session::Finished);
    assert_eq!(
        out.action,
        Action::Exit(Err(Error::UnknownCommand("frobnicate".to_string()))),
    );
    assert!(out.out.is_empty());
}

#[test]
fn help_lists_every_command_exactly_once() {
    let (session, out) = start(Some("help".to_string()));
    assert_eq!(session, Session::Finished);
    assert_eq!(out.action, Action::Exit(Ok(())));
    let lines = out.out;
    assert_eq!(lines[0], "Version: 0.1.0");
    assert_eq!(lines[1], "Usage: ssc [command]");
    assert_eq!(lines[2], "Available commands: ");
    let names = [
        "volume-up",
        "volume-down",
        "play-pause",
        "next-track",
        "previous-track",
        "help",
        "create-config",
    ];
    assert_eq!(lines.len(), 3 + names.len());
    for name in names {
        let expected = format!("\t{}", name);
        assert_eq!(lines.iter().filter(|l| **l == expected).count(), 1);
    }
}

#[test]
fn create_config_writes_the_default_and_reports_the_path() {
    let (session, out) = start(Some("create-config".to_string()));
    assert_eq!(out.action, Action::GetConfigRoot);
    let (session, out) = step(session, Event::ConfigRoot(Some("/root/cfg".to_string())));
    assert_eq!(
        out.action,
        Action::WriteFile {
            dir: "/root/cfg/ssc".to_string(),
            path: "/root/cfg/ssc/Config.toml".to_string(),
            contents: "ip = \"192.168.1.105\"\nstep = 1\n".to_string(),
        },
    );
    let (session, out) = step(session, Event::FileWritten(Ok(())));
    assert_eq!(session, Session::Finished);
    assert_eq!(out.action, Action::Exit(Ok(())));
    assert_eq!(out.out, vec!["Config written to \"/root/cfg/ssc/Config.toml\"".to_string()]);
}

#[test]
fn absent_config_prints_guidance_and_exits_clean() {
    let (session, _) = start(Some("volume-up".to_string()));
    let (session, _) = step(session, Event::ConfigRoot(Some("/root/cfg".to_string())));
    let failure = IoFailure { not_found: true, message: "missing".to_string() };
    let (session, out) = step(session, Event::FileRead(Err(failure)));
    assert_eq!(session, Session::Finished);
    assert_eq!(out.action, Action::Exit(Ok(())));
    assert_eq!(
        out.err,
        vec![
            "Config.toml not found".to_string(),
            "Create config with 'ssc create-config'".to_string(),
        ],
    );
    assert!(out.out.is_empty());
}

#[test]
fn other_read_failures_are_hard_io_errors() {
    let (session, _) = start(Some("volume-up".to_string()));
    let (session, _) = step(session, Event::ConfigRoot(Some("/root/cfg".to_string())));
    let failure = IoFailure { not_found: false, message: "permission denied".to_string() };
    let (session, out) = step(session, Event::FileRead(Err(failure)));
    assert_eq!(session, Session::Finished);
    assert_eq!(
        out.action,
        Action::Exit(Err(Error::Io {
            not_found: false,
            message: "permission denied".to_string(),
        })),
    );
}

#[test]
fn malformed_config_is_a_deserialization_error() {
    let (session, _) = start(Some("volume-up".to_string()));
    let (session, _) = step(session, Event::ConfigRoot(Some("/root/cfg".to_string())));
    let (session, out) = step(session, Event::FileRead(Ok("nonsense".to_string())));
    assert_eq!(session, Session::Finished);
    assert_eq!(out.action, Action::Exit(Err(Error::Deserialization)));
}

fn reach_device_command(cmd: &str, step_size: u8) -> (Session, Action) {
    let (session, _) = start(Some(cmd.to_string()));
    let (session, _) = step(session, Event::ConfigRoot(Some("/root/cfg".to_string())));
    let (session, _) = step(session, Event::FileRead(Ok(device_config(step_size).render())));
    let (session, out) = step(session, Event::Connected(Ok(())));
    (session, out.action)
}

#[test]
fn device_command_announces_itself() {
    let (session, _) = start(Some("volume-up".to_string()));
    let (session, _) = step(session, Event::ConfigRoot(Some("/root/cfg".to_string())));
    let (session, _) = step(session, Event::FileRead(Ok(Config::write())));
    let (_, out) = step(session, Event::Connected(Ok(())));
    assert_eq!(out.out, vec!["Command: volume-up".to_string()]);
}

#[test]
fn volume_up_requests_current_plus_step() {
    let (session, action) = reach_device_command("volume-up", 1);
    assert_eq!(action, Action::Speaker(Request::GetVolume));
    let (session, out) = step(session, speaker_ok(Reply::Volume(50)));
    assert_eq!(out.action, Action::Speaker(Request::SetVolume(51)));
    assert_eq!(
        out.out,
        vec!["Current volume: 50".to_string(), "New volume: 51".to_string()],
    );
    let (session, out) = step(session, speaker_ok(Reply::Done));
    assert_eq!(session, Session::Finished);
    assert_eq!(out.action, Action::Exit(Ok(())));
}

#[test]
fn volume_down_requests_current_minus_step() {
    let (session, _) = reach_device_command("volume-down", 1);
    let (_, out) = step(session, speaker_ok(Reply::Volume(50)));
    assert_eq!(out.action, Action::Speaker(Request::SetVolume(49)));
    assert_eq!(
        out.out,
        vec!["Current volume: 50".to_string(), "New volume: 49".to_string()],
    );
}

#[test]
fn volume_up_does_not_clamp() {
    let (session, _) = reach_device_command("volume-up", 5);
    let (_, out) = step(session, speaker_ok(Reply::Volume(98)));
    assert_eq!(out.action, Action::Speaker(Request::SetVolume(103)));
    assert_eq!(
        out.out,
        vec!["Current volume: 98".to_string(), "New volume: 103".to_string()],
    );
}

#[test]
fn volume_down_can_request_below_zero() {
    let (session, _) = reach_device_command("volume-down", 1);
    let (_, out) = step(session, speaker_ok(Reply::Volume(0)));
    assert_eq!(out.action, Action::Speaker(Request::SetVolume(-1)));
    assert_eq!(
        out.out,
        vec!["Current volume: 0".to_string(), "New volume: -1".to_string()],
    );
}

#[test]
fn play_pause_pauses_a_playing_device() {
    let (session, action) = reach_device_command("play-pause", 1);
    assert_eq!(action, Action::Speaker(Request::GetTransportState));
    let (session, out) = step(session, speaker_ok(Reply::State(TransportState::Playing)));
    assert_eq!(out.action, Action::Speaker(Request::Pause));
    assert_eq!(out.out, vec!["Current state: Playing".to_string()]);
    let (session, out) = step(session, speaker_ok(Reply::Done));
    assert_eq!(session, Session::Finished);
    assert_eq!(out.action, Action::Exit(Ok(())));
    assert_eq!(out.out, vec!["New state: Paused".to_string()]);
}

#[test]
fn play_pause_resumes_a_paused_device() {
    let (session, _) = reach_device_command("play-pause", 1);
    let (session, out) = step(session, speaker_ok(Reply::State(TransportState::PausedPlayback)));
    assert_eq!(out.action, Action::Speaker(Request::Play));
    assert_eq!(out.out, vec!["Current state: Paused".to_string()]);
    let (_, out) = step(session, speaker_ok(Reply::Done));
    assert_eq!(out.out, vec!["New state: Playing".to_string()]);
}

#[test]
fn play_pause_rejects_any_other_state_without_acting() {
    let (session, _) = reach_device_command("play-pause", 1);
    let (session, out) = step(session, speaker_ok(Reply::State(TransportState::Other)));
    assert_eq!(session, Session::Finished);
    assert_eq!(out.action, Action::Exit(Err(Error::UnknownTransportState)));
    assert!(out.out.is_empty());
}

#[test]
fn next_track_reads_skips_and_reads_again() {
    let (session, action) = reach_device_command("next-track", 1);
    assert_eq!(action, Action::Speaker(Request::GetTrack));
    let first = Track { title: "One".to_string(), artist: "A".to_string() };
    let (session, out) = step(session, speaker_ok(Reply::Track(first)));
    assert_eq!(out.action, Action::Speaker(Request::NextTrack));
    assert_eq!(out.out, vec!["Current track: One - A".to_string()]);
    let (session, out) = step(session, speaker_ok(Reply::Done));
    assert_eq!(out.action, Action::Speaker(Request::GetTrack));
    assert!(out.out.is_empty());
    let second = Track { title: "Two".to_string(), artist: "B".to_string() };
    let (session, out) = step(session, speaker_ok(Reply::Track(second)));
    assert_eq!(session, Session::Finished);
    assert_eq!(out.action, Action::Exit(Ok(())));
    assert_eq!(out.out, vec!["Next track: Two - B".to_string()]);
}

#[test]
fn previous_track_skips_backwards() {
    let (session, _) = reach_device_command("previous-track", 1);
    let t = Track { title: "One".to_string(), artist: "A".to_string() };
    let (_, out) = step(session, speaker_ok(Reply::Track(t)));
    assert_eq!(out.action, Action::Speaker(Request::PreviousTrack));
}

#[test]
fn speaker_failures_become_device_errors() {
    let (session, _) = reach_device_command("volume-up", 1);
    let (session, out) = step(session, Event::Speaker(Err("timeout".to_string())));
    assert_eq!(session, Session::Finished);
    assert_eq!(
        out.action,
        Action::Exit(Err(Error::Device { message: "timeout".to_string() })),
    );
}

#[test]
fn connect_failures_become_device_errors() {
    let (session, _) = start(Some("volume-up".to_string()));
    let (session, _) = step(session, Event::ConfigRoot(Some("/root/cfg".to_string())));
    let (session, _) = step(session, Event::FileRead(Ok(Config::write())));
    let (session, out) = step(session, Event::Connected(Err("no route".to_string())));
    assert_eq!(session, Session::Finished);
    assert_eq!(
        out.action,
        Action::Exit(Err(Error::Device { message: "no route".to_string() })),
    );
}

#[test]
fn missing_root_fails_create_config_but_soft_exits_device_commands() {
    let (session, _) = start(Some("create-config".to_string()));
    let (session, out) = step(session, Event::ConfigRoot(None));
    assert_eq!(session, Session::Finished);
    assert_eq!(
        out.action,
        Action::Exit(Err(Error::Io { not_found: true, message: String::new() })),
    );

    let (session, _) = start(Some("volume-up".to_string()));
    let (session, out) = step(session, Event::ConfigRoot(None));
    assert_eq!(session, Session::Finished);
    assert_eq!(out.action, Action::Exit(Ok(())));
    assert_eq!(
        out.err,
        vec![
            "Config.toml not found".to_string(),
            "Create config with 'ssc create-config'".to_string(),
        ],
    );
}

#[test]
fn accepts_rejects_mismatched_events() {
    let (session, _) = start(Some("volume-up".to_string()));
    assert!(session.accepts(&Event::ConfigRoot(None)));
    assert!(!session.accepts(&Event::Speaker(Ok(Reply::Done))));
    let (session, _) = reach_device_command("volume-up", 1);
    assert!(session.accepts(&Event::Speaker(Ok(Reply::Volume(3)))));
    assert!(!session.accepts(&Event::Speaker(Ok(Reply::Done))));
    assert!(session.accepts(&Event::Speaker(Err("x".to_string()))));
}
