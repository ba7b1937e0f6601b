use ssc::error::Error;
use ssc::text::{i32_to_string, str_eq, u32_to_string};

#[test]
fn messages_render_as_reported() {
    let e = Error::UnknownCommand("frobnicate".to_string());
    assert_eq!(
        e.render(),
        "Unknown command \"frobnicate\", run \"ssc help\" to see available commands",
    );
    assert_eq!(
        Error::MissingCommand.render(),
        "Missing command, run \"ssc help\" to see available commands",
    );
    assert_eq!(Error::UnknownTransportState.render(), "Unknown transport state");
    assert_eq!(Error::Deserialization.render(), "Malformed config file");
    assert_eq!(Error::Serialization.render(), "Could not serialize the config");
}

#[test]
fn io_and_device_failures_render_their_message() {
    let io = Error::Io { not_found: false, message: "permission denied".to_string() };
    assert_eq!(io.render(), "permission denied");
    let dev = Error::Device { message: "timeout".to_string() };
    assert_eq!(dev.render(), "timeout");
}

#[test]
fn decimal_rendering_is_canonical() {
    assert_eq!(u32_to_string(0), "0");
    assert_eq!(u32_to_string(7), "7");
    assert_eq!(u32_to_string(105), "105");
    assert_eq!(u32_to_string(255), "255");
    assert_eq!(i32_to_string(-3), "-3");
    assert_eq!(i32_to_string(103), "103");
    assert_eq!(i32_to_string(0), "0");
}

#[test]
fn string_equality_is_exact() {
    assert!(str_eq("play-pause", "play-pause"));
    assert!(!str_eq("play-pause", "play-pause "));
    assert!(!str_eq("", "a"));
    assert!(str_eq("", ""));
}
