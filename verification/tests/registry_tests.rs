use ssc::registry::{
    device_name_of, find_device, find_pre, help_lines, pre_name_of, DeviceCmd, PreCmd,
};

#[test]
fn pre_lookup_matches_exact_names_only() {
    assert_eq!(find_pre("help"), Some(PreCmd::Help));
    assert_eq!(find_pre("create-config"), Some(PreCmd::CreateConfig));
    assert_eq!(find_pre("Help"), None);
    assert_eq!(find_pre("volume-up"), None);
    assert_eq!(find_pre(""), None);
}

#[test]
fn device_lookup_matches_exact_names_only() {
    assert_eq!(find_device("volume-up"), Some(DeviceCmd::VolumeUp));
    assert_eq!(find_device("volume-down"), Some(DeviceCmd::VolumeDown));
    assert_eq!(find_device("play-pause"), Some(DeviceCmd::PlayPause));
    assert_eq!(find_device("next-track"), Some(DeviceCmd::NextTrack));
    assert_eq!(find_device("previous-track"), Some(DeviceCmd::PreviousTrack));
    assert_eq!(find_device("volume-up "), None);
    assert_eq!(find_device("help"), None);
}

#[test]
fn registries_hold_no_duplicate_name_across_both_lists() {
    let names = [
        device_name_of(DeviceCmd::VolumeUp),
        device_name_of(DeviceCmd::VolumeDown),
        device_name_of(DeviceCmd::PlayPause),
        device_name_of(DeviceCmd::NextTrack),
        device_name_of(DeviceCmd::PreviousTrack),
        pre_name_of(PreCmd::Help),
        pre_name_of(PreCmd::CreateConfig),
    ];
    for i in 0..names.len() {
        for j in 0..names.len() {
            if i != j {
                assert_ne!(names[i], names[j]);
            }
        }
    }
}

#[test]
fn help_lines_carry_the_header_then_each_name_once() {
    let lines = help_lines();
    assert_eq!(
        lines,
        vec![
            "Version: 0.1.0".to_string(),
            "Usage: ssc [command]".to_string(),
            "Available commands: ".to_string(),
            "\tvolume-up".to_string(),
            "\tvolume-down".to_string(),
            "\tplay-pause".to_string(),
            "\tnext-track".to_string(),
            "\tprevious-track".to_string(),
            "\thelp".to_string(),
            "\tcreate-config".to_string(),
        ],
    );
}
