//! The dispatch state machine: one process invocation as a sequence of
//! decisions.  The machine holds every rule — command lookup, the config
//! lifecycle, the volume arithmetic, the play/pause transition — while a
//! thin driver performs the storage and speaker actions it requests and
//! hands the outcomes back as events.

use vstd::prelude::*;
use vstd::pervasive::unreached;
use crate::config::Config;
use crate::config::IpAddress;
use crate::config::config_text;
use crate::error::Error;
use crate::registry::DeviceCmd;
use crate::registry::PreCmd;
use crate::registry::device_name;
use crate::registry::find_device;
use crate::registry::help_lines;
use crate::registry::help_lines_spec;
use crate::registry::lemma_registry_names_unique;
use crate::registry::pre_name;
use crate::text::dec_digits;
use crate::text::dec_int;
use crate::text::i32_to_string;
use crate::text::u32_to_string;

verus! {

/// The playback state reported by the device, as the dispatcher
/// distinguishes it: the two recognized states, and everything else.
#[derive(Clone, Copy, PartialEq, Eq, Structural, Debug)]
pub enum TransportState {
    Playing,
    PausedPlayback,
    Other,
}

/// The current track as reported by the device.
#[derive(Clone, PartialEq, Eq, Debug)]
pub struct Track {
    pub title: String,
    pub artist: String,
}

/// One request against the speaker.
#[derive(Clone, Copy, PartialEq, Eq, Structural, Debug)]
pub enum Request {
    GetVolume,
    SetVolume(i32),
    GetTransportState,
    Pause,
    Play,
    GetTrack,
    NextTrack,
    PreviousTrack,
}

/// One reply from the speaker.
#[derive(Clone, PartialEq, Eq, Debug)]
pub enum Reply {
    Volume(u8),
    State(TransportState),
    Track(Track),
    Done,
}

/// A storage failure handed back by the driver; `not_found` marks a
/// missing file or an undetermined configuration root.
#[derive(Clone, PartialEq, Eq, Debug)]
pub struct IoFailure {
    pub not_found: bool,
    pub message: String,
}

/// What the driver hands back after performing the requested action.
#[derive(PartialEq, Eq, Debug)]
pub enum Event {
    /// The platform configuration root, if one could be determined.
    ConfigRoot(Option<String>),
    /// The outcome of writing the config file.
    FileWritten(Result<(), IoFailure>),
    /// The outcome of reading the config file.
    FileRead(Result<String, IoFailure>),
    /// The outcome of acquiring a speaker handle.
    Connected(Result<(), String>),
    /// The outcome of one speaker request.
    Speaker(Result<Reply, String>),
}

/// What the driver must do next.
#[derive(PartialEq, Eq, Debug)]
pub enum Action {
    /// Ask the platform for its configuration root directory.
    GetConfigRoot,
    /// Create `dir` if absent, then write `contents` to `path` wholesale.
    WriteFile { dir: String, path: String, contents: String },
    /// Create `dir` if absent, then read `path` in full.
    ReadFile { dir: String, path: String },
    /// Acquire a speaker handle bound to `ip`.
    Connect { ip: IpAddress },
    /// Issue one request against the speaker.
    Speaker(Request),
    /// Stop: on `Err` report the failure and exit non-zero.
    Exit(Result<(), Error>),
}

/// Where one invocation stands between two actions.
#[derive(Clone, PartialEq, Eq, Debug)]
pub enum Session {
    AwaitRoot { cmd: String },
    AwaitWrite { path: String },
    AwaitRead { cmd: String },
    AwaitConnect { cmd: String, config: Config },
    AwaitVolume { up: bool, step: u8 },
    AwaitVolumeSet,
    AwaitTransport,
    AwaitPause,
    AwaitPlay,
    AwaitTrack { forward: bool },
    AwaitSkip { forward: bool },
    AwaitTrackAfter,
    Finished,
}

/// One step's observable outcome: lines for standard output, lines for
/// standard error, and the next action.
#[derive(Debug)]
pub struct StepOut {
    pub out: Vec<String>,
    pub err: Vec<String>,
    pub action: Action,
}

/// The volume that a volume command computes and requests.
pub open spec fn new_volume(v: u8, step: u8, up: bool) -> int {
    if up {
        v + step
    } else {
        v - step
    }
}

pub open spec fn command_line(name: Seq<char>) -> Seq<char> {
    "Command: "@ + name
}

pub open spec fn current_volume_line(v: u8) -> Seq<char> {
    "Current volume: "@ + dec_digits(v as nat)
}

pub open spec fn new_volume_line(n: int) -> Seq<char> {
    "New volume: "@ + dec_int(n)
}

pub open spec fn written_line(path: Seq<char>) -> Seq<char> {
    "Config written to \""@ + path + "\""@
}

pub open spec fn current_track_line(title: Seq<char>, artist: Seq<char>) -> Seq<char> {
    "Current track: "@ + title + " - "@ + artist
}

pub open spec fn next_track_line(title: Seq<char>, artist: Seq<char>) -> Seq<char> {
    "Next track: "@ + title + " - "@ + artist
}

/// The two-line guidance printed when the config file is absent.
pub open spec fn guidance_lines() -> Seq<Seq<char>> {
    seq!["Config.toml not found"@, "Create config with 'ssc create-config'"@]
}

pub open spec fn done_or_err(event: Event) -> bool {
    ||| event matches Event::Speaker(Err(_))
    ||| event matches Event::Speaker(Ok(Reply::Done))
}

pub open spec fn track_or_err(event: Event) -> bool {
    ||| event matches Event::Speaker(Err(_))
    ||| event matches Event::Speaker(Ok(Reply::Track(_)))
}

fn cat(a: &str, b: &str) -> (r: String)
    ensures
        r@ == a@ + b@,
{
    String::from_str(a).concat(b)
}

fn lines0() -> (r: Vec<String>)
    ensures
        r@.len() == 0,
        r.deep_view() == Seq::<Seq<char>>::empty(),
{
    let v: Vec<String> = Vec::new();
    proof {
        assert(v.deep_view() =~~= Seq::<Seq<char>>::empty());
    }
    v
}

fn lines1(a: String) -> (r: Vec<String>)
    ensures
        r.deep_view() == seq![a@],
{
    let mut v: Vec<String> = Vec::new();
    v.push(a);
    proof {
        assert(v.deep_view() =~~= seq![v@[0]@]);
    }
    v
}

fn lines2(a: String, b: String) -> (r: Vec<String>)
    ensures
        r.deep_view() == seq![a@, b@],
{
    let ghost av = a@;
    let ghost bv = b@;
    let mut v: Vec<String> = Vec::new();
    v.push(a);
    v.push(b);
    proof {
        assert(v.deep_view() =~~= seq![av, bv]);
    }
    v
}

impl Session {
    /// Whether `event` answers the action this session is waiting on.
    pub open spec fn fits(self, event: Event) -> bool {
        match self {
            Session::AwaitRoot { .. } => event matches Event::ConfigRoot(_),
            Session::AwaitWrite { .. } => event matches Event::FileWritten(_),
            Session::AwaitRead { .. } => event matches Event::FileRead(_),
            Session::AwaitConnect { .. } => event matches Event::Connected(_),
            Session::AwaitVolume { .. } => event matches Event::Speaker(Err(_)) || event matches
                Event::Speaker(Ok(Reply::Volume(_))),
            Session::AwaitVolumeSet => done_or_err(event),
            Session::AwaitTransport => event matches Event::Speaker(Err(_)) || event matches
                Event::Speaker(Ok(Reply::State(_))),
            Session::AwaitPause => done_or_err(event),
            Session::AwaitPlay => done_or_err(event),
            Session::AwaitTrack { .. } => track_or_err(event),
            Session::AwaitSkip { .. } => done_or_err(event),
            Session::AwaitTrackAfter => track_or_err(event),
            Session::Finished => false,
        }
    }

    /// Whether `event` answers the action this session is waiting on.
    /// The driver must test this before calling `step`.
    pub fn accepts(&self, event: &Event) -> (r: bool)
        ensures
            r == self.fits(*event),
    {
        match self {
            Session::AwaitRoot { .. } => matches!(event, Event::ConfigRoot(_)),
            Session::AwaitWrite { .. } => matches!(event, Event::FileWritten(_)),
            Session::AwaitRead { .. } => matches!(event, Event::FileRead(_)),
            Session::AwaitConnect { .. } => matches!(event, Event::Connected(_)),
            Session::AwaitVolume { .. } => matches!(
                event,
                Event::Speaker(Err(_)) | Event::Speaker(Ok(Reply::Volume(_))),
            ),
            Session::AwaitVolumeSet => matches!(
                event,
                Event::Speaker(Err(_)) | Event::Speaker(Ok(Reply::Done)),
            ),
            Session::AwaitTransport => matches!(
                event,
                Event::Speaker(Err(_)) | Event::Speaker(Ok(Reply::State(_))),
            ),
            Session::AwaitPause => matches!(
                event,
                Event::Speaker(Err(_)) | Event::Speaker(Ok(Reply::Done)),
            ),
            Session::AwaitPlay => matches!(
                event,
                Event::Speaker(Err(_)) | Event::Speaker(Ok(Reply::Done)),
            ),
            Session::AwaitTrack { .. } => matches!(
                event,
                Event::Speaker(Err(_)) | Event::Speaker(Ok(Reply::Track(_))),
            ),
            Session::AwaitSkip { .. } => matches!(
                event,
                Event::Speaker(Err(_)) | Event::Speaker(Ok(Reply::Done)),
            ),
            Session::AwaitTrackAfter => matches!(
                event,
                Event::Speaker(Err(_)) | Event::Speaker(Ok(Reply::Track(_))),
            ),
            Session::Finished => false,
        }
    }
}

/// Begins one invocation from its single argument.  No argument is
/// `MissingCommand`; `help` prints its listing and succeeds; every other
/// token first needs the configuration root.
pub fn start(arg: Option<String>) -> (r: (Session, StepOut))
    ensures
        (r.1.action matches Action::Exit(_)) <==> r.0 == Session::Finished,
        arg matches None ==> r.0 == Session::Finished && r.1.out@.len() == 0 && r.1.err@.len()
            == 0 && r.1.action == Action::Exit(Err(Error::MissingCommand)),
        arg matches Some(cmd) ==> (cmd@ == pre_name(PreCmd::Help) ==> r.0 == Session::Finished
            && r.1.out.deep_view() == help_lines_spec() && r.1.err@.len() == 0 && r.1.action
            == Action::Exit(Ok(()))),
        arg matches Some(cmd) ==> (cmd@ != pre_name(PreCmd::Help) ==> r.0 == (
        Session::AwaitRoot { cmd }) && r.1.out@.len() == 0 && r.1.err@.len() == 0 && r.1.action
            == Action::GetConfigRoot),
{
    match arg {
        None => (
            Session::Finished,
            StepOut {
                out: lines0(),
                err: lines0(),
                action: Action::Exit(Err(Error::MissingCommand)),
            },
        ),
        Some(cmd) => {
            if crate::text::str_eq(cmd.as_str(), "help") {
                (
                    Session::Finished,
                    StepOut { out: help_lines(), err: lines0(), action: Action::Exit(Ok(())) },
                )
            } else {
                (
                    Session::AwaitRoot { cmd },
                    StepOut { out: lines0(), err: lines0(), action: Action::GetConfigRoot },
                )
            }
        },
    }
}

/// Advances the invocation by one event.  Each arm of the contract pins
/// the printed lines, the next action and the next session state.
pub fn step(session: Session, event: Event) -> (r: (Session, StepOut))
    requires
        session.fits(event),
    ensures
        (r.1.action matches Action::Exit(_)) <==> r.0 == Session::Finished,
        match session {
            Session::AwaitRoot { cmd } => match event {
                Event::ConfigRoot(Some(root)) => {
                    if cmd@ == pre_name(PreCmd::CreateConfig) {
                        &&& r.0 matches Session::AwaitWrite { path } && path@ == root@
                            + "/ssc/Config.toml"@
                        &&& r.1.action matches Action::WriteFile { dir, path, contents }
                            && dir@ == root@ + "/ssc"@ && path@ == root@ + "/ssc/Config.toml"@
                            && contents@ == config_text(Config::default_spec())
                        &&& r.1.out@.len() == 0 && r.1.err@.len() == 0
                    } else {
                        &&& r.0 == (Session::AwaitRead { cmd })
                        &&& r.1.action matches Action::ReadFile { dir, path } && dir@ == root@
                            + "/ssc"@ && path@ == root@ + "/ssc/Config.toml"@
                        &&& r.1.out@.len() == 0 && r.1.err@.len() == 0
                    }
                },
                Event::ConfigRoot(None) => {
                    if cmd@ == pre_name(PreCmd::CreateConfig) {
                        &&& r.0 == Session::Finished
                        &&& r.1.action matches Action::Exit(Err(Error::Io {
                            not_found,
                            message,
                        })) && not_found && message@ == Seq::<char>::empty()
                        &&& r.1.out@.len() == 0 && r.1.err@.len() == 0
                    } else {
                        &&& r.0 == Session::Finished
                        &&& r.1.action == Action::Exit(Ok(()))
                        &&& r.1.out@.len() == 0
                        &&& r.1.err.deep_view() == guidance_lines()
                    }
                },
                _ => true,
            },
            Session::AwaitWrite { path } => match event {
                Event::FileWritten(Ok(_)) => {
                    &&& r.0 == Session::Finished
                    &&& r.1.action == Action::Exit(Ok(()))
                    &&& r.1.out.deep_view() == seq![written_line(path@)]
                    &&& r.1.err@.len() == 0
                },
                Event::FileWritten(Err(f)) => {
                    &&& r.0 == Session::Finished
                    &&& r.1.action == Action::Exit(
                        Err(Error::Io { not_found: f.not_found, message: f.message }),
                    )
                    &&& r.1.out@.len() == 0 && r.1.err@.len() == 0
                },
                _ => true,
            },
            Session::AwaitRead { cmd } => match event {
                Event::FileRead(Ok(text)) => {
                    &&& forall|c: Config|
                        c.wf() && text@ == config_text(c) ==> r.0 == (Session::AwaitConnect {
                            cmd,
                            config: c,
                        }) && r.1.action == (Action::Connect { ip: c.ip })
                    &&& (forall|c: Config| !(c.wf() && text@ == config_text(c))) ==> r.0
                        == Session::Finished && r.1.action == Action::Exit(
                        Err(Error::Deserialization),
                    )
                    &&& r.1.out@.len() == 0 && r.1.err@.len() == 0
                },
                Event::FileRead(Err(f)) => {
                    if f.not_found {
                        &&& r.0 == Session::Finished
                        &&& r.1.action == Action::Exit(Ok(()))
                        &&& r.1.out@.len() == 0
                        &&& r.1.err.deep_view() == guidance_lines()
                    } else {
                        &&& r.0 == Session::Finished
                        &&& r.1.action == Action::Exit(
                            Err(Error::Io { not_found: false, message: f.message }),
                        )
                        &&& r.1.out@.len() == 0 && r.1.err@.len() == 0
                    }
                },
                _ => true,
            },
            Session::AwaitConnect { cmd, config } => match event {
                Event::Connected(Ok(_)) => {
                    &&& cmd@ == device_name(DeviceCmd::VolumeUp) ==> r.0 == (
                    Session::AwaitVolume { up: true, step: config.step }) && r.1.action
                        == Action::Speaker(Request::GetVolume)
                    &&& cmd@ == device_name(DeviceCmd::VolumeDown) ==> r.0 == (
                    Session::AwaitVolume { up: false, step: config.step }) && r.1.action
                        == Action::Speaker(Request::GetVolume)
                    &&& cmd@ == device_name(DeviceCmd::PlayPause) ==> r.0
                        == Session::AwaitTransport && r.1.action == Action::Speaker(
                        Request::GetTransportState,
                    )
                    &&& cmd@ == device_name(DeviceCmd::NextTrack) ==> r.0 == (
                    Session::AwaitTrack { forward: true }) && r.1.action == Action::Speaker(
                        Request::GetTrack,
                    )
                    &&& cmd@ == device_name(DeviceCmd::PreviousTrack) ==> r.0 == (
                    Session::AwaitTrack { forward: false }) && r.1.action == Action::Speaker(
                        Request::GetTrack,
                    )
                    &&& (exists|dc: DeviceCmd| cmd@ == device_name(dc)) ==> r.1.out.deep_view()
                        == seq![command_line(cmd@)] && r.1.err@.len() == 0
                    &&& (forall|dc: DeviceCmd| cmd@ != device_name(dc)) ==> r.0
                        == Session::Finished && r.1.action == Action::Exit(
                        Err(Error::UnknownCommand(cmd)),
                    ) && r.1.out@.len() == 0 && r.1.err@.len() == 0
                },
                Event::Connected(Err(m)) => {
                    &&& r.0 == Session::Finished
                    &&& r.1.action == Action::Exit(Err(Error::Device { message: m }))
                    &&& r.1.out@.len() == 0 && r.1.err@.len() == 0
                },
                _ => true,
            },
            Session::AwaitVolume { up, step } => match event {
                Event::Speaker(Ok(Reply::Volume(v))) => {
                    &&& r.0 == Session::AwaitVolumeSet
                    &&& r.1.action matches Action::Speaker(Request::SetVolume(n)) && n as int
                        == new_volume(v, step, up)
                    &&& r.1.out.deep_view() == seq![
                        current_volume_line(v),
                        new_volume_line(new_volume(v, step, up)),
                    ]
                    &&& r.1.err@.len() == 0
                },
                Event::Speaker(Err(m)) => device_failed(r, m),
                _ => true,
            },
            Session::AwaitVolumeSet => match event {
                Event::Speaker(Ok(Reply::Done)) => {
                    &&& r.0 == Session::Finished
                    &&& r.1.action == Action::Exit(Ok(()))
                    &&& r.1.out@.len() == 0 && r.1.err@.len() == 0
                },
                Event::Speaker(Err(m)) => device_failed(r, m),
                _ => true,
            },
            Session::AwaitTransport => match event {
                Event::Speaker(Ok(Reply::State(st))) => match st {
                    TransportState::Playing => {
                        &&& r.0 == Session::AwaitPause
                        &&& r.1.action == Action::Speaker(Request::Pause)
                        &&& r.1.out.deep_view() == seq!["Current state: Playing"@]
                        &&& r.1.err@.len() == 0
                    },
                    TransportState::PausedPlayback => {
                        &&& r.0 == Session::AwaitPlay
                        &&& r.1.action == Action::Speaker(Request::Play)
                        &&& r.1.out.deep_view() == seq!["Current state: Paused"@]
                        &&& r.1.err@.len() == 0
                    },
                    TransportState::Other => {
                        &&& r.0 == Session::Finished
                        &&& r.1.action == Action::Exit(Err(Error::UnknownTransportState))
                        &&& r.1.out@.len() == 0 && r.1.err@.len() == 0
                    },
                },
                Event::Speaker(Err(m)) => device_failed(r, m),
                _ => true,
            },
            Session::AwaitPause => match event {
                Event::Speaker(Ok(Reply::Done)) => {
                    &&& r.0 == Session::Finished
                    &&& r.1.action == Action::Exit(Ok(()))
                    &&& r.1.out.deep_view() == seq!["New state: Paused"@]
                    &&& r.1.err@.len() == 0
                },
                Event::Speaker(Err(m)) => device_failed(r, m),
                _ => true,
            },
            Session::AwaitPlay => match event {
                Event::Speaker(Ok(Reply::Done)) => {
                    &&& r.0 == Session::Finished
                    &&& r.1.action == Action::Exit(Ok(()))
                    &&& r.1.out.deep_view() == seq!["New state: Playing"@]
                    &&& r.1.err@.len() == 0
                },
                Event::Speaker(Err(m)) => device_failed(r, m),
                _ => true,
            },
            Session::AwaitTrack { forward } => match event {
                Event::Speaker(Ok(Reply::Track(t))) => {
                    &&& r.0 == (Session::AwaitSkip { forward })
                    &&& r.1.action == Action::Speaker(
                        if forward {
                            Request::NextTrack
                        } else {
                            Request::PreviousTrack
                        },
                    )
                    &&& r.1.out.deep_view() == seq![current_track_line(t.title@, t.artist@)]
                    &&& r.1.err@.len() == 0
                },
                Event::Speaker(Err(m)) => device_failed(r, m),
                _ => true,
            },
            Session::AwaitSkip { forward } => match event {
                Event::Speaker(Ok(Reply::Done)) => {
                    &&& r.0 == Session::AwaitTrackAfter
                    &&& r.1.action == Action::Speaker(Request::GetTrack)
                    &&& r.1.out@.len() == 0 && r.1.err@.len() == 0
                },
                Event::Speaker(Err(m)) => device_failed(r, m),
                _ => true,
            },
            Session::AwaitTrackAfter => match event {
                Event::Speaker(Ok(Reply::Track(t))) => {
                    &&& r.0 == Session::Finished
                    &&& r.1.action == Action::Exit(Ok(()))
                    &&& r.1.out.deep_view() == seq![next_track_line(t.title@, t.artist@)]
                    &&& r.1.err@.len() == 0
                },
                Event::Speaker(Err(m)) => device_failed(r, m),
                _ => true,
            },
            Session::Finished => true,
        },
{
    match session {
        Session::AwaitRoot { cmd } => match event {
            Event::ConfigRoot(Some(root)) => {
                let dir = Config::dir_path(root.as_str());
                let path = Config::path(root.as_str());
                if crate::text::str_eq(cmd.as_str(), "create-config") {
                    let contents = Config::write();
                    let session_path = path.clone();
                    (
                        Session::AwaitWrite { path: session_path },
                        StepOut {
                            out: lines0(),
                            err: lines0(),
                            action: Action::WriteFile { dir, path, contents },
                        },
                    )
                } else {
                    (
                        Session::AwaitRead { cmd },
                        StepOut {
                            out: lines0(),
                            err: lines0(),
                            action: Action::ReadFile { dir, path },
                        },
                    )
                }
            },
            Event::ConfigRoot(None) => {
                if crate::text::str_eq(cmd.as_str(), "create-config") {
                    (
                        Session::Finished,
                        StepOut {
                            out: lines0(),
                            err: lines0(),
                            action: Action::Exit(
                                Err(Error::Io { not_found: true, message: String::new() }),
                            ),
                        },
                    )
                } else {
                    (
                        Session::Finished,
                        StepOut {
                            out: lines0(),
                            err: lines2(
                                String::from_str("Config.toml not found"),
                                String::from_str("Create config with 'ssc create-config'"),
                            ),
                            action: Action::Exit(Ok(())),
                        },
                    )
                }
            },
            _ => unreached(),
        },
        Session::AwaitWrite { path } => match event {
            Event::FileWritten(Ok(_)) => {
                let mut line = String::from_str("Config written to \"");
                line.append(path.as_str());
                line.append("\"");
                (
                    Session::Finished,
                    StepOut { out: lines1(line), err: lines0(), action: Action::Exit(Ok(())) },
                )
            },
            Event::FileWritten(Err(f)) => (
                Session::Finished,
                StepOut {
                    out: lines0(),
                    err: lines0(),
                    action: Action::Exit(
                        Err(Error::Io { not_found: f.not_found, message: f.message }),
                    ),
                },
            ),
            _ => unreached(),
        },
        Session::AwaitRead { cmd } => match event {
            Event::FileRead(Ok(text)) => match Config::read(text.as_str()) {
                Ok(config) => {
                    let ip = config.ip;
                    (
                        Session::AwaitConnect { cmd, config },
                        StepOut {
                            out: lines0(),
                            err: lines0(),
                            action: Action::Connect { ip },
                        },
                    )
                },
                Err(e) => (
                    Session::Finished,
                    StepOut { out: lines0(), err: lines0(), action: Action::Exit(Err(e)) },
                ),
            },
            Event::FileRead(Err(f)) => {
                if f.not_found {
                    (
                        Session::Finished,
                        StepOut {
                            out: lines0(),
                            err: lines2(
                                String::from_str("Config.toml not found"),
                                String::from_str("Create config with 'ssc create-config'"),
                            ),
                            action: Action::Exit(Ok(())),
                        },
                    )
                } else {
                    (
                        Session::Finished,
                        StepOut {
                            out: lines0(),
                            err: lines0(),
                            action: Action::Exit(
                                Err(Error::Io { not_found: false, message: f.message }),
                            ),
                        },
                    )
                }
            },
            _ => unreached(),
        },
        Session::AwaitConnect { cmd, config } => match event {
            Event::Connected(Ok(_)) => {
                proof {
                    lemma_registry_names_unique();
                }
                match find_device(cmd.as_str()) {
                    Some(dc) => {
                        let line = cat("Command: ", cmd.as_str());
                        let (next, req) = match dc {
                            DeviceCmd::VolumeUp => (
                                Session::AwaitVolume { up: true, step: config.step },
                                Request::GetVolume,
                            ),
                            DeviceCmd::VolumeDown => (
                                Session::AwaitVolume { up: false, step: config.step },
                                Request::GetVolume,
                            ),
                            DeviceCmd::PlayPause => (
                                Session::AwaitTransport,
                                Request::GetTransportState,
                            ),
                            DeviceCmd::NextTrack => (
                                Session::AwaitTrack { forward: true },
                                Request::GetTrack,
                            ),
                            DeviceCmd::PreviousTrack => (
                                Session::AwaitTrack { forward: false },
                                Request::GetTrack,
                            ),
                        };
                        (
                            next,
                            StepOut {
                                out: lines1(line),
                                err: lines0(),
                                action: Action::Speaker(req),
                            },
                        )
                    },
                    None => (
                        Session::Finished,
                        StepOut {
                            out: lines0(),
                            err: lines0(),
                            action: Action::Exit(Err(Error::UnknownCommand(cmd))),
                        },
                    ),
                }
            },
            Event::Connected(Err(m)) => (
                Session::Finished,
                StepOut {
                    out: lines0(),
                    err: lines0(),
                    action: Action::Exit(Err(Error::Device { message: m })),
                },
            ),
            _ => unreached(),
        },
        Session::AwaitVolume { up, step } => match event {
            Event::Speaker(Ok(Reply::Volume(v))) => {
                let nv: i32 = if up {
                    v as i32 + step as i32
                } else {
                    v as i32 - step as i32
                };
                let cur = cat("Current volume: ", u32_to_string(v as u32).as_str());
                let new = cat("New volume: ", i32_to_string(nv).as_str());
                (
                    Session::AwaitVolumeSet,
                    StepOut {
                        out: lines2(cur, new),
                        err: lines0(),
                        action: Action::Speaker(Request::SetVolume(nv)),
                    },
                )
            },
            Event::Speaker(Err(m)) => fail_device(m),
            _ => unreached(),
        },
        Session::AwaitVolumeSet => match event {
            Event::Speaker(Ok(Reply::Done)) => finish_ok(),
            Event::Speaker(Err(m)) => fail_device(m),
            _ => unreached(),
        },
        Session::AwaitTransport => match event {
            Event::Speaker(Ok(Reply::State(st))) => match st {
                TransportState::Playing => (
                    Session::AwaitPause,
                    StepOut {
                        out: lines1(String::from_str("Current state: Playing")),
                        err: lines0(),
                        action: Action::Speaker(Request::Pause),
                    },
                ),
                TransportState::PausedPlayback => (
                    Session::AwaitPlay,
                    StepOut {
                        out: lines1(String::from_str("Current state: Paused")),
                        err: lines0(),
                        action: Action::Speaker(Request::Play),
                    },
                ),
                TransportState::Other => (
                    Session::Finished,
                    StepOut {
                        out: lines0(),
                        err: lines0(),
                        action: Action::Exit(Err(Error::UnknownTransportState)),
                    },
                ),
            },
            Event::Speaker(Err(m)) => fail_device(m),
            _ => unreached(),
        },
        Session::AwaitPause => match event {
            Event::Speaker(Ok(Reply::Done)) => (
                Session::Finished,
                StepOut {
                    out: lines1(String::from_str("New state: Paused")),
                    err: lines0(),
                    action: Action::Exit(Ok(())),
                },
            ),
            Event::Speaker(Err(m)) => fail_device(m),
            _ => unreached(),
        },
        Session::AwaitPlay => match event {
            Event::Speaker(Ok(Reply::Done)) => (
                Session::Finished,
                StepOut {
                    out: lines1(String::from_str("New state: Playing")),
                    err: lines0(),
                    action: Action::Exit(Ok(())),
                },
            ),
            Event::Speaker(Err(m)) => fail_device(m),
            _ => unreached(),
        },
        Session::AwaitTrack { forward } => match event {
            Event::Speaker(Ok(Reply::Track(t))) => {
                let mut line = String::from_str("Current track: ");
                line.append(t.title.as_str());
                line.append(" - ");
                line.append(t.artist.as_str());
                (
                    Session::AwaitSkip { forward },
                    StepOut {
                        out: lines1(line),
                        err: lines0(),
                        action: Action::Speaker(
                            if forward {
                                Request::NextTrack
                            } else {
                                Request::PreviousTrack
                            },
                        ),
                    },
                )
            },
            Event::Speaker(Err(m)) => fail_device(m),
            _ => unreached(),
        },
        Session::AwaitSkip { forward: _ } => match event {
            Event::Speaker(Ok(Reply::Done)) => (
                Session::AwaitTrackAfter,
                StepOut {
                    out: lines0(),
                    err: lines0(),
                    action: Action::Speaker(Request::GetTrack),
                },
            ),
            Event::Speaker(Err(m)) => fail_device(m),
            _ => unreached(),
        },
        Session::AwaitTrackAfter => match event {
            Event::Speaker(Ok(Reply::Track(t))) => {
                let mut line = String::from_str("Next track: ");
                line.append(t.title.as_str());
                line.append(" - ");
                line.append(t.artist.as_str());
                (
                    Session::Finished,
                    StepOut {
                        out: lines1(line),
                        err: lines0(),
                        action: Action::Exit(Ok(())),
                    },
                )
            },
            Event::Speaker(Err(m)) => fail_device(m),
            _ => unreached(),
        },
        Session::Finished => unreached(),
    }
}

/// What every speaker-await state reports when the speaker failed: the
/// failure becomes `DeviceFailure` and the invocation ends.
pub open spec fn device_failed(r: (Session, StepOut), m: String) -> bool {
    &&& r.0 == Session::Finished
    &&& r.1.action == Action::Exit(Err(Error::Device { message: m }))
    &&& r.1.out@.len() == 0
    &&& r.1.err@.len() == 0
}

fn fail_device(m: String) -> (r: (Session, StepOut))
    ensures
        device_failed(r, m),
{
    (
        Session::Finished,
        StepOut {
            out: lines0(),
            err: lines0(),
            action: Action::Exit(Err(Error::Device { message: m })),
        },
    )
}

fn finish_ok() -> (r: (Session, StepOut))
    ensures
        r.0 == Session::Finished,
        r.1.action == Action::Exit(Ok(())),
        r.1.out@.len() == 0,
        r.1.err@.len() == 0,
{
    (Session::Finished, StepOut { out: lines0(), err: lines0(), action: Action::Exit(Ok(())) })
}

} // verus!
