use ssc::config::{Config, IpAddress};
use ssc::error::Error;

fn default_config() -> Config {
    Config { ip: IpAddress { a: 192, b: 168, c: 1, d: 105 }, step: 1 }
}

#[test]
fn write_renders_the_default() {
    assert_eq!(Config::write(), "ip = \"192.168.1.105\"\nstep = 1\n");
}

#[test]
fn write_is_idempotent() {
    assert_eq!(Config::write(), Config::write());
}

#[test]
fn create_config_then_read_round_trips_the_default() {
    let text = Config::write();
    let read = Config::read(&text).unwrap();
    assert_eq!(read, default_config());
    assert_eq!(read.ip, IpAddress { a: 192, b: 168, c: 1, d: 105 });
    assert_eq!(read.step, 1);
}

#[test]
fn render_and_read_round_trip_other_records() {
    let c = Config { ip: IpAddress { a: 10, b: 0, c: 255, d: 7 }, step: 5 };
    let text = c.render();
    assert_eq!(text, "ip = \"10.0.255.7\"\nstep = 5\n");
    assert_eq!(Config::read(&text).unwrap(), c);
}

#[test]
fn written_text_is_valid_toml() {
    let text = Config::write();
    let table: toml::Table = toml::from_str(&text).unwrap();
    assert_eq!(table["ip"].as_str(), Some("192.168.1.105"));
    assert_eq!(table["step"].as_integer(), Some(1));
}

#[test]
fn read_rejects_malformed_text() {
    assert_eq!(Config::read(""), Err(Error::Deserialization));
    assert_eq!(Config::read("step = 1\n"), Err(Error::Deserialization));
    assert_eq!(Config::read("ip = \"192.168.1\"\nstep = 1\n"), Err(Error::Deserialization));
    assert_eq!(Config::read("ip = \"192.168.1.105\"\nstep = 1"), Err(Error::Deserialization));
    assert_eq!(Config::read("ip = \"999.168.1.105\"\nstep = 1\n"), Err(Error::Deserialization));
    assert_eq!(Config::read("ip = \"192.168.1.105\"\nstep = x\n"), Err(Error::Deserialization));
}

#[test]
fn read_rejects_a_zero_step() {
    assert_eq!(Config::read("ip = \"192.168.1.105\"\nstep = 0\n"), Err(Error::Deserialization));
}

#[test]
fn read_rejects_leading_zeros() {
    assert_eq!(Config::read("ip = \"192.168.01.105\"\nstep = 1\n"), Err(Error::Deserialization));
    assert_eq!(Config::read("ip = \"192.168.1.105\"\nstep = 01\n"), Err(Error::Deserialization));
}

#[test]
fn read_accepts_boundary_octets() {
    let text = "ip = \"0.0.0.0\"\nstep = 255\n";
    let c = Config::read(text).unwrap();
    assert_eq!(c.ip, IpAddress { a: 0, b: 0, c: 0, d: 0 });
    assert_eq!(c.step, 255);
}

#[test]
fn paths_join_the_application_directory() {
    assert_eq!(Config::dir_path("/home/u/.config"), "/home/u/.config/ssc");
    assert_eq!(Config::path("/home/u/.config"), "/home/u/.config/ssc/Config.toml");
}

#[test]
fn default_matches_the_documented_record() {
    let d: Config = Default::default();
    assert_eq!(d, default_config());
}
