use idevice_guard::device::{Device, NativeSession};
use idevice_guard::error::Error;

fn ok_session(handle: u64) -> NativeSession {
    NativeSession { status: 0, handle }
}

#[test]
fn start_service_produces_dependent_service() {
    let d = Device::new("udid-1".to_string(), false, 7);
    let client = d.new_lockdownd_client("tester".to_string(), ok_session(9)).unwrap();
    let service = client.start_service(&d, "image.mount".to_string(), ok_session(15)).unwrap();
    assert_eq!(service.checked_access(&d), Ok(15));
}

#[test]
fn start_service_surfaces_native_failure() {
    let d = Device::new("udid-1".to_string(), false, 7);
    let client = d.new_lockdownd_client("tester".to_string(), ok_session(9)).unwrap();
    let r = client.start_service(&d, "image.mount".to_string(), NativeSession {
        status: 6,
        handle: 0,
    });
    assert_eq!(r.err(), Some(Error::NativeCallFailed { code: 6 }));
}

#[test]
fn client_close_releases_exactly_once() {
    let d = Device::new("udid-1".to_string(), false, 7);
    let mut client = d.new_lockdownd_client("tester".to_string(), ok_session(9)).unwrap();
    assert_eq!(client.close(), Some(9));
    assert_eq!(client.close(), None);
    assert_eq!(client.checked_access(&d), Err(Error::InvalidHandle));
}

#[test]
fn mounter_works_while_all_guards_valid() {
    let d = Device::new("udid-1".to_string(), false, 7);
    let client = d.new_lockdownd_client("tester".to_string(), ok_session(9)).unwrap();
    let service = client.start_service(&d, "image.mount".to_string(), ok_session(15)).unwrap();
    let mounter = d.new_mobile_image_mounter(&service, ok_session(23)).unwrap();
    assert_eq!(mounter.checked_access(&d, &service), Ok(23));
    assert_eq!(mounter.mount_image(&d, &service, 0), Ok(()));
    assert_eq!(mounter.mount_image(&d, &service, 9), Err(Error::NativeCallFailed { code: 9 }));
}

#[test]
fn mounter_fails_once_its_service_closes() {
    let d = Device::new("udid-1".to_string(), false, 7);
    let client = d.new_lockdownd_client("tester".to_string(), ok_session(9)).unwrap();
    let mut service = client.start_service(&d, "image.mount".to_string(), ok_session(15)).unwrap();
    let mounter = d.new_mobile_image_mounter(&service, ok_session(23)).unwrap();
    service.close();
    // The device is still alive, yet the mounter is unusable.
    assert_eq!(d.checked_handle(), Ok(7));
    assert_eq!(mounter.checked_access(&d, &service), Err(Error::InvalidHandle));
    assert_eq!(mounter.mount_image(&d, &service, 0), Err(Error::InvalidHandle));
}

#[test]
fn mounter_fails_once_device_is_destroyed() {
    let mut d = Device::new("udid-1".to_string(), false, 7);
    let client = d.new_lockdownd_client("tester".to_string(), ok_session(9)).unwrap();
    let service = client.start_service(&d, "image.mount".to_string(), ok_session(15)).unwrap();
    let mounter = d.new_mobile_image_mounter(&service, ok_session(23)).unwrap();
    d.destroy();
    assert_eq!(mounter.checked_access(&d, &service), Err(Error::InvalidHandle));
}

#[test]
fn mounter_creation_needs_valid_service() {
    let d = Device::new("udid-1".to_string(), false, 7);
    let client = d.new_lockdownd_client("tester".to_string(), ok_session(9)).unwrap();
    let mut service = client.start_service(&d, "image.mount".to_string(), ok_session(15)).unwrap();
    service.close();
    let r = d.new_mobile_image_mounter(&service, ok_session(23));
    assert_eq!(r.err(), Some(Error::InvalidHandle));
}
