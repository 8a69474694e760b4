use idevice_guard::command::DebugServerCommand;
use idevice_guard::device::{Device, NativeResponse, NativeSession};
use idevice_guard::error::Error;
use idevice_guard::guard::Guard;

fn ok_session(handle: u64) -> NativeSession {
    NativeSession { status: 0, handle }
}

fn failed_session(code: i32) -> NativeSession {
    NativeSession { status: code, handle: 0 }
}

#[test]
fn guard_checked_access_returns_handle() {
    let g = Guard::new(41);
    assert_eq!(g.checked_access(), Ok(41));
}

#[test]
fn guard_invalidate_then_access_fails() {
    let mut g = Guard::new(41);
    g.invalidate();
    assert_eq!(g.checked_access(), Err(Error::InvalidHandle));
}

#[test]
fn guard_invalidate_is_idempotent() {
    let mut g = Guard::new(41);
    g.invalidate();
    g.invalidate();
    g.invalidate();
    assert_eq!(g.checked_access(), Err(Error::InvalidHandle));
}

#[test]
fn device_new_starts_valid_with_no_sessions() {
    let d = Device::new("udid-1".to_string(), false, 7);
    assert_eq!(d.udid, "udid-1");
    assert!(!d.network);
    assert_eq!(d.checked_handle(), Ok(7));
    assert!(!d.debug_server_ready());
}

#[test]
fn device_destroy_releases_exactly_once() {
    let mut d = Device::new("udid-1".to_string(), false, 7);
    assert_eq!(d.destroy(), Some(7));
    assert_eq!(d.destroy(), None);
    assert_eq!(d.checked_handle(), Err(Error::InvalidHandle));
}

#[test]
fn client_access_fails_after_device_destroy() {
    let mut d = Device::new("udid-1".to_string(), false, 7);
    let client = d.new_lockdownd_client("tester".to_string(), ok_session(9)).unwrap();
    assert_eq!(client.checked_access(&d), Ok(9));
    d.destroy();
    assert_eq!(client.checked_access(&d), Err(Error::InvalidHandle));
}

#[test]
fn lockdownd_client_native_failure_keeps_code() {
    let d = Device::new("udid-1".to_string(), false, 7);
    let r = d.new_lockdownd_client("tester".to_string(), failed_session(-3));
    assert_eq!(r.err(), Some(Error::NativeCallFailed { code: -3 }));
}

#[test]
fn lockdownd_client_on_destroyed_device_fails() {
    let mut d = Device::new("udid-1".to_string(), false, 7);
    d.destroy();
    let r = d.new_lockdownd_client("tester".to_string(), ok_session(9));
    assert_eq!(r.err(), Some(Error::InvalidHandle));
}

#[test]
fn instproxy_service_start_and_failure() {
    let mut d = Device::new("udid-1".to_string(), false, 7);
    assert_eq!(d.start_instproxy_service("tester".to_string(), failed_session(4)),
        Err(Error::NativeCallFailed { code: 4 }));
    assert!(d.proxy_client.is_none());
    assert_eq!(d.start_instproxy_service("tester".to_string(), ok_session(11)), Ok(()));
    assert_eq!(d.proxy_client.as_ref().map(|c| c.client), Some(11));
}

#[test]
fn debug_server_start_retains_session() {
    let mut d = Device::new("udid-1".to_string(), false, 7);
    assert_eq!(d.start_debug_server("tester".to_string(), ok_session(13)), Ok(()));
    assert!(d.debug_server_ready());
}

#[test]
fn lazy_debug_sessions_use_the_fixed_label() {
    assert_eq!(Device::default_debug_label(), "com.apple.debugserver");
}

#[test]
fn send_command_lazily_opens_and_retains_session() {
    let mut d = Device::new("udid-1".to_string(), false, 7);
    let cmd = DebugServerCommand::new("reboot".to_string(), vec![]).unwrap();
    assert!(!d.debug_server_ready());
    let r = d.send_command(
        &cmd,
        Some(ok_session(21)),
        Some(NativeResponse { status: 0, text: "OK".to_string() }),
    );
    assert_eq!(r, Ok("OK".to_string()));
    assert!(d.debug_server_ready());
    // The session is reused: no fresh open outcome is needed any more.
    let r2 = d.send_command(&cmd, None, Some(NativeResponse { status: 0, text: "K2".to_string() }));
    assert_eq!(r2, Ok("K2".to_string()));
}

#[test]
fn send_command_surfaces_failed_lazy_open() {
    let mut d = Device::new("udid-1".to_string(), false, 7);
    let cmd = DebugServerCommand::new("reboot".to_string(), vec![]).unwrap();
    let r = d.send_command(&cmd, Some(failed_session(5)), None);
    assert_eq!(r, Err(Error::NativeCallFailed { code: 5 }));
    assert!(!d.debug_server_ready());
}

#[test]
fn send_command_surfaces_failed_send_but_keeps_session() {
    let mut d = Device::new("udid-1".to_string(), false, 7);
    let cmd = DebugServerCommand::new("reboot".to_string(), vec![]).unwrap();
    let r = d.send_command(
        &cmd,
        Some(ok_session(21)),
        Some(NativeResponse { status: 8, text: String::new() }),
    );
    assert_eq!(r, Err(Error::NativeCallFailed { code: 8 }));
    assert!(d.debug_server_ready());
}

#[test]
fn send_command_after_destroy_fails() {
    let mut d = Device::new("udid-1".to_string(), false, 7);
    let cmd = DebugServerCommand::new("reboot".to_string(), vec![]).unwrap();
    d.destroy();
    let r = d.send_command(
        &cmd,
        Some(ok_session(21)),
        Some(NativeResponse { status: 0, text: "OK".to_string() }),
    );
    assert_eq!(r, Err(Error::InvalidHandle));
}
