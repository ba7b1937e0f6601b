//! The fixed catalog of commands: two ordered registries, exact-name
//! lookup, and the `help` listing derived from them.

use vstd::prelude::*;
use crate::text::str_eq;

verus! {

/// A command runnable before any configuration or device is loaded.
#[derive(Clone, Copy, PartialEq, Eq, Structural, Debug)]
pub enum PreCmd {
    Help,
    CreateConfig,
}

/// A command that needs the loaded configuration and a live speaker.
#[derive(Clone, Copy, PartialEq, Eq, Structural, Debug)]
pub enum DeviceCmd {
    VolumeUp,
    VolumeDown,
    PlayPause,
    NextTrack,
    PreviousTrack,
}

/// The registered name of a pre-connection command.
pub open spec fn pre_name(c: PreCmd) -> Seq<char> {
    match c {
        PreCmd::Help => "help"@,
        PreCmd::CreateConfig => "create-config"@,
    }
}

/// The registered name of a device command.
pub open spec fn device_name(c: DeviceCmd) -> Seq<char> {
    match c {
        DeviceCmd::VolumeUp => "volume-up"@,
        DeviceCmd::VolumeDown => "volume-down"@,
        DeviceCmd::PlayPause => "play-pause"@,
        DeviceCmd::NextTrack => "next-track"@,
        DeviceCmd::PreviousTrack => "previous-track"@,
    }
}

/// The pre-connection registry, in its declared order.
pub open spec fn pre_list() -> Seq<PreCmd> {
    seq![PreCmd::Help, PreCmd::CreateConfig]
}

/// The device registry, in its declared order.
pub open spec fn device_list() -> Seq<DeviceCmd> {
    seq![
        DeviceCmd::VolumeUp,
        DeviceCmd::VolumeDown,
        DeviceCmd::PlayPause,
        DeviceCmd::NextTrack,
        DeviceCmd::PreviousTrack,
    ]
}

/// Every registered name, device commands first, each list in its
/// declared order.
pub open spec fn all_names() -> Seq<Seq<char>> {
    device_list().map_values(|c: DeviceCmd| device_name(c)) + pre_list().map_values(
        |c: PreCmd| pre_name(c),
    )
}

/// The registered name of a pre-connection command.
pub fn pre_name_of(c: PreCmd) -> (r: &'static str)
    ensures
        r@ == pre_name(c),
{
    match c {
        PreCmd::Help => "help",
        PreCmd::CreateConfig => "create-config",
    }
}

/// The registered name of a device command.
pub fn device_name_of(c: DeviceCmd) -> (r: &'static str)
    ensures
        r@ == device_name(c),
{
    match c {
        DeviceCmd::VolumeUp => "volume-up",
        DeviceCmd::VolumeDown => "volume-down",
        DeviceCmd::PlayPause => "play-pause",
        DeviceCmd::NextTrack => "next-track",
        DeviceCmd::PreviousTrack => "previous-track",
    }
}

/// Looks a name up in the pre-connection registry: exact match, and the
/// only entry of that name.
pub fn find_pre(name: &str) -> (r: Option<PreCmd>)
    ensures
        match r {
            Some(c) => name@ == pre_name(c),
            None => forall|c: PreCmd| name@ != pre_name(c),
        },
{
    if str_eq(name, "help") {
        Some(PreCmd::Help)
    } else if str_eq(name, "create-config") {
        Some(PreCmd::CreateConfig)
    } else {
        proof {
            assert forall|c: PreCmd| name@ != pre_name(c) by {
                match c {
                    PreCmd::Help => {},
                    PreCmd::CreateConfig => {},
                }
            }
        }
        None
    }
}

/// Looks a name up in the device registry: exact match, and the only
/// entry of that name.
pub fn find_device(name: &str) -> (r: Option<DeviceCmd>)
    ensures
        match r {
            Some(c) => name@ == device_name(c),
            None => forall|c: DeviceCmd| name@ != device_name(c),
        },
{
    if str_eq(name, "volume-up") {
        Some(DeviceCmd::VolumeUp)
    } else if str_eq(name, "volume-down") {
        Some(DeviceCmd::VolumeDown)
    } else if str_eq(name, "play-pause") {
        Some(DeviceCmd::PlayPause)
    } else if str_eq(name, "next-track") {
        Some(DeviceCmd::NextTrack)
    } else if str_eq(name, "previous-track") {
        Some(DeviceCmd::PreviousTrack)
    } else {
        proof {
            assert forall|c: DeviceCmd| name@ != device_name(c) by {
                match c {
                    DeviceCmd::VolumeUp => {},
                    DeviceCmd::VolumeDown => {},
                    DeviceCmd::PlayPause => {},
                    DeviceCmd::NextTrack => {},
                    DeviceCmd::PreviousTrack => {},
                }
            }
        }
        None
    }
}

/// A help listing entry: the name behind one tab stop.
pub open spec fn tabbed(n: Seq<char>) -> Seq<char> {
    "\t"@ + n
}

/// The lines the `help` command prints: version, usage, a caption, then
/// one tabbed line per registered name, device commands first.
pub open spec fn help_lines_spec() -> Seq<Seq<char>> {
    seq!["Version: 0.1.0"@, "Usage: ssc [command]"@, "Available commands: "@] + all_names()
        .map_values(|n: Seq<char>| tabbed(n))
}

/// Builds the lines the `help` command prints.
pub fn help_lines() -> (r: Vec<String>)
    ensures
        r.deep_view() == help_lines_spec(),
{
    let mut v: Vec<String> = Vec::new();
    v.push(String::from_str("Version: 0.1.0"));
    v.push(String::from_str("Usage: ssc [command]"));
    v.push(String::from_str("Available commands: "));
    v.push(String::from_str("\t").concat(device_name_of(DeviceCmd::VolumeUp)));
    v.push(String::from_str("\t").concat(device_name_of(DeviceCmd::VolumeDown)));
    v.push(String::from_str("\t").concat(device_name_of(DeviceCmd::PlayPause)));
    v.push(String::from_str("\t").concat(device_name_of(DeviceCmd::NextTrack)));
    v.push(String::from_str("\t").concat(device_name_of(DeviceCmd::PreviousTrack)));
    v.push(String::from_str("\t").concat(pre_name_of(PreCmd::Help)));
    v.push(String::from_str("\t").concat(pre_name_of(PreCmd::CreateConfig)));
    proof {
        assert(v.deep_view() =~~= help_lines_spec());
    }
    v
}

/// No two registered commands share a name, within a registry or across
/// the two: a matching name selects exactly one entry.
pub proof fn lemma_registry_names_unique()
    ensures
        forall|c1: PreCmd, c2: PreCmd| pre_name(c1) == pre_name(c2) ==> c1 == c2,
        forall|c1: DeviceCmd, c2: DeviceCmd| device_name(c1) == device_name(c2) ==> c1 == c2,
        forall|c1: PreCmd, c2: DeviceCmd| pre_name(c1) != device_name(c2),
        forall|i: int, j: int|
            0 <= i < j < all_names().len() ==> all_names()[i] != all_names()[j],
{
    reveal_strlit("help");
    reveal_strlit("create-config");
    reveal_strlit("volume-up");
    reveal_strlit("volume-down");
    reveal_strlit("play-pause");
    reveal_strlit("next-track");
    reveal_strlit("previous-track");
    assert forall|c1: PreCmd, c2: PreCmd| pre_name(c1) == pre_name(c2) implies c1 == c2 by {
        match c1 {
            PreCmd::Help => match c2 {
                PreCmd::Help => {},
                PreCmd::CreateConfig => {
                    assert(pre_name(c1).len() != pre_name(c2).len());
                },
            },
            PreCmd::CreateConfig => match c2 {
                PreCmd::Help => {
                    assert(pre_name(c1).len() != pre_name(c2).len());
                },
                PreCmd::CreateConfig => {},
            },
        }
    }
    assert forall|c1: DeviceCmd, c2: DeviceCmd| device_name(c1) == device_name(c2) implies c1
        == c2 by {
        match c1 {
            DeviceCmd::VolumeUp => match c2 {
                DeviceCmd::VolumeUp => {},
                DeviceCmd::VolumeDown => {
                    assert(device_name(c1).len() != device_name(c2).len());
                },
                DeviceCmd::PlayPause => {
                    assert(device_name(c1).len() != device_name(c2).len());
                },
                DeviceCmd::NextTrack => {
                    assert(device_name(c1).len() != device_name(c2).len());
                },
                DeviceCmd::PreviousTrack => {
                    assert(device_name(c1).len() != device_name(c2).len());
                },
            },
            DeviceCmd::VolumeDown => match c2 {
                DeviceCmd::VolumeUp => {
                    assert(device_name(c1).len() != device_name(c2).len());
                },
                DeviceCmd::VolumeDown => {},
                DeviceCmd::PlayPause => {
                    assert(device_name(c1).len() != device_name(c2).len());
                },
                DeviceCmd::NextTrack => {
                    assert(device_name(c1).len() != device_name(c2).len());
                },
                DeviceCmd::PreviousTrack => {
                    assert(device_name(c1).len() != device_name(c2).len());
                },
            },
            DeviceCmd::PlayPause => match c2 {
                DeviceCmd::VolumeUp => {
                    assert(device_name(c1).len() != device_name(c2).len());
                },
                DeviceCmd::VolumeDown => {
                    assert(device_name(c1).len() != device_name(c2).len());
                },
                DeviceCmd::PlayPause => {},
                DeviceCmd::NextTrack => {
                    assert(device_name(c1)[0] != device_name(c2)[0]);
                },
                DeviceCmd::PreviousTrack => {
                    assert(device_name(c1).len() != device_name(c2).len());
                },
            },
            DeviceCmd::NextTrack => match c2 {
                DeviceCmd::VolumeUp => {
                    assert(device_name(c1).len() != device_name(c2).len());
                },
                DeviceCmd::VolumeDown => {
                    assert(device_name(c1).len() != device_name(c2).len());
                },
                DeviceCmd::PlayPause => {
                    assert(device_name(c1)[0] != device_name(c2)[0]);
                },
                DeviceCmd::NextTrack => {},
                DeviceCmd::PreviousTrack => {
                    assert(device_name(c1).len() != device_name(c2).len());
                },
            },
            DeviceCmd::PreviousTrack => match c2 {
                DeviceCmd::VolumeUp => {
                    assert(device_name(c1).len() != device_name(c2).len());
                },
                DeviceCmd::VolumeDown => {
                    assert(device_name(c1).len() != device_name(c2).len());
                },
                DeviceCmd::PlayPause => {
                    assert(device_name(c1).len() != device_name(c2).len());
                },
                DeviceCmd::NextTrack => {
                    assert(device_name(c1).len() != device_name(c2).len());
                },
                DeviceCmd::PreviousTrack => {},
            },
        }
    }
    assert forall|c1: PreCmd, c2: DeviceCmd| pre_name(c1) != device_name(c2) by {
        match c1 {
            PreCmd::Help => match c2 {
                DeviceCmd::VolumeUp => {
                    assert(pre_name(c1).len() != device_name(c2).len());
                },
                DeviceCmd::VolumeDown => {
                    assert(pre_name(c1).len() != device_name(c2).len());
                },
                DeviceCmd::PlayPause => {
                    assert(pre_name(c1).len() != device_name(c2).len());
                },
                DeviceCmd::NextTrack => {
                    assert(pre_name(c1).len() != device_name(c2).len());
                },
                DeviceCmd::PreviousTrack => {
                    assert(pre_name(c1).len() != device_name(c2).len());
                },
            },
            PreCmd::CreateConfig => match c2 {
                DeviceCmd::VolumeUp => {
                    assert(pre_name(c1).len() != device_name(c2).len());
                },
                DeviceCmd::VolumeDown => {
                    assert(pre_name(c1).len() != device_name(c2).len());
                },
                DeviceCmd::PlayPause => {
                    assert(pre_name(c1).len() != device_name(c2).len());
                },
                DeviceCmd::NextTrack => {
                    assert(pre_name(c1).len() != device_name(c2).len());
                },
                DeviceCmd::PreviousTrack => {
                    assert(pre_name(c1).len() != device_name(c2).len());
                },
            },
        }
    }
    assert(all_names()[0] == device_name(DeviceCmd::VolumeUp));
    assert(all_names()[1] == device_name(DeviceCmd::VolumeDown));
    assert(all_names()[2] == device_name(DeviceCmd::PlayPause));
    assert(all_names()[3] == device_name(DeviceCmd::NextTrack));
    assert(all_names()[4] == device_name(DeviceCmd::PreviousTrack));
    assert(all_names()[5] == pre_name(PreCmd::Help));
    assert(all_names()[6] == pre_name(PreCmd::CreateConfig));
    assert forall|i: int, j: int|
        0 <= i < j < all_names().len() implies all_names()[i] != all_names()[j] by {
        assert(all_names().len() == 7);
        assert(device_name(DeviceCmd::PlayPause)[0] != device_name(DeviceCmd::NextTrack)[0]);
    }
}

/// The help listing enumerates every registered command name exactly
/// once: one line for the name at each registry position, after the three
/// header lines, and no name stands at two positions.
pub proof fn lemma_help_enumerates_all()
    ensures
        help_lines_spec().len() == 3 + all_names().len(),
        forall|k: int|
            0 <= k < all_names().len() ==> help_lines_spec()[3 + k] == tabbed(all_names()[k]),
        forall|i: int, j: int|
            0 <= i < j < all_names().len() ==> all_names()[i] != all_names()[j],
{
    lemma_registry_names_unique();
}

} // verus!
