use idevice_guard::cli::{parse_args, CliRequest};
use idevice_guard::discovery::{
    get_device, get_devices, is_network_connection, lookup_mode, DeviceEntry, LookupMode,
};
use idevice_guard::error::Error;

fn entry(udid: &str, network: bool, open_status: i32, handle: u64) -> DeviceEntry {
    DeviceEntry { udid: udid.to_string(), network, open_status, handle }
}

fn args(items: &[&str]) -> Vec<String> {
    items.iter().map(|s| s.to_string()).collect()
}

#[test]
fn discovery_with_zero_devices_is_empty_not_an_error() {
    let devices = get_devices(0, &vec![]).unwrap();
    assert!(devices.is_empty());
}

#[test]
fn discovery_failure_preserves_native_status() {
    let r = get_devices(-2, &vec![entry("a", false, 0, 5)]);
    assert_eq!(r.err(), Some(Error::NativeCallFailed { code: -2 }));
}

#[test]
fn discovery_skips_entries_that_fail_to_open() {
    let entries = vec![
        entry("first", false, 0, 5),
        entry("second", true, -1, 0),
        entry("third", false, 0, 6),
    ];
    let devices = get_devices(0, &entries).unwrap();
    assert_eq!(devices.len(), 2);
    assert_eq!(devices[0].udid, "first");
    assert_eq!(devices[0].checked_handle(), Ok(5));
    assert_eq!(devices[1].udid, "third");
    assert!(!devices[1].network);
    assert_eq!(devices[1].checked_handle(), Ok(6));
}

#[test]
fn get_device_returns_first_match() {
    let entries = vec![
        entry("other", false, 0, 5),
        entry("wanted", false, 0, 6),
        entry("wanted", true, 0, 7),
    ];
    let d = get_device("wanted".to_string(), 0, &entries).unwrap();
    assert_eq!(d.udid, "wanted");
    assert_eq!(d.checked_handle(), Ok(6));
}

#[test]
fn get_device_reports_not_found() {
    let entries = vec![entry("other", false, 0, 5)];
    let r = get_device("missing".to_string(), 0, &entries);
    assert_eq!(r.err(), Some(Error::NotFound));
}

#[test]
fn get_device_is_case_sensitive() {
    let entries = vec![entry("ABC", false, 0, 5)];
    let r = get_device("abc".to_string(), 0, &entries);
    assert_eq!(r.err(), Some(Error::NotFound));
}

#[test]
fn connection_kind_decides_lookup_mode() {
    assert!(!is_network_connection(1));
    assert!(is_network_connection(2));
    assert!(is_network_connection(0));
    assert_eq!(lookup_mode(false), LookupMode::Usbmux);
    assert_eq!(lookup_mode(true), LookupMode::Network);
}

#[test]
fn cli_without_udid_reports_error_and_no_lookup() {
    let r = parse_args(args(&["disk.dmg"]));
    assert_eq!(r, CliRequest::MissingUdid);
}

#[test]
fn cli_without_dmg_reports_error() {
    let r = parse_args(args(&["-u", "udid-1"]));
    assert_eq!(r, CliRequest::MissingDmg);
}

#[test]
fn cli_full_mount_request() {
    let r = parse_args(args(&["-u", "udid-1", "-t", "Recovery", "-x", "disk.dmg"]));
    assert_eq!(r, CliRequest::Mount {
        udid: "udid-1".to_string(),
        dmg_path: "disk.dmg".to_string(),
        image_type: "Recovery".to_string(),
        display_xml: true,
    });
}

#[test]
fn cli_defaults_to_developer_image() {
    let r = parse_args(args(&["--udid", "udid-1", "disk.dmg"]));
    assert_eq!(r, CliRequest::Mount {
        udid: "udid-1".to_string(),
        dmg_path: "disk.dmg".to_string(),
        image_type: "Developer".to_string(),
        display_xml: false,
    });
}

#[test]
fn cli_help_version_list_and_unknown_flag() {
    assert_eq!(parse_args(args(&["-h"])), CliRequest::Help);
    assert_eq!(parse_args(args(&["--version"])), CliRequest::Version);
    assert_eq!(parse_args(args(&["-l"])), CliRequest::ListUnsupported);
    assert_eq!(parse_args(args(&["-z"])), CliRequest::UnknownFlag("-z".to_string()));
}

#[test]
fn cli_empty_udid_value_is_still_missing() {
    let r = parse_args(args(&["-u", "", "disk.dmg"]));
    assert_eq!(r, CliRequest::MissingUdid);
}

#[test]
fn cli_last_positional_argument_wins() {
    let r = parse_args(args(&["-u", "udid-1", "first.dmg", "second.dmg"]));
    assert_eq!(r, CliRequest::Mount {
        udid: "udid-1".to_string(),
        dmg_path: "second.dmg".to_string(),
        image_type: "Developer".to_string(),
        display_xml: false,
    });
}

#[test]
fn cli_value_flag_at_the_end_is_ignored() {
    let r = parse_args(args(&["disk.dmg", "-u"]));
    assert_eq!(r, CliRequest::MissingUdid);
}
