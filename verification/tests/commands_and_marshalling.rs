use idevice_guard::command::DebugServerCommand;
use idevice_guard::error::Error;
use idevice_guard::instproxy::{
    instproxy_client_options_add, instproxy_client_options_free, instproxy_client_options_new,
    instproxy_client_options_set_return_attributes, instproxy_client_t, instproxy_lookup,
    plist_access_path, plist_dict_get_item, LookupOutcome, Plist,
};

#[test]
fn command_from_reboot_now_line() {
    let c = DebugServerCommand::from_line("reboot now").unwrap();
    assert_eq!(c.command, "reboot");
    assert_eq!(c.arguments, vec!["now".to_string()]);
}

#[test]
fn command_from_line_collapses_extra_whitespace() {
    let c = DebugServerCommand::from_line("  ls \t -la\n now  ").unwrap();
    assert_eq!(c.command, "ls");
    assert_eq!(c.arguments, vec!["-la".to_string(), "now".to_string()]);
}

#[test]
fn command_from_empty_line_fails() {
    assert_eq!(DebugServerCommand::from_line("").err(), Some(Error::BuildError));
    assert_eq!(DebugServerCommand::from_line("   \t ").err(), Some(Error::BuildError));
}

#[test]
fn command_with_interior_nul_fails() {
    let r = DebugServerCommand::new("re\0boot".to_string(), vec![]);
    assert_eq!(r.err(), Some(Error::BuildError));
    let r = DebugServerCommand::new("reboot".to_string(), vec!["o\0k".to_string()]);
    assert_eq!(r.err(), Some(Error::BuildError));
}

#[test]
fn command_new_keeps_parts() {
    let c = DebugServerCommand::new("run".to_string(), vec!["a".to_string(), "b".to_string()])
        .unwrap();
    assert_eq!(c.command, "run");
    assert_eq!(c.arguments, vec!["a".to_string(), "b".to_string()]);
}

#[test]
fn options_add_validates_marshalling() {
    let opts = instproxy_client_options_new(31);
    assert_eq!(opts.plist_t, 31);
    assert_eq!(instproxy_client_options_add(&opts, "k".to_string(), "v".to_string()), Ok(()));
    assert_eq!(
        instproxy_client_options_add(&opts, "k\0".to_string(), "v".to_string()),
        Err(Error::BuildError)
    );
    assert_eq!(
        instproxy_client_options_set_return_attributes(&opts, "CFBundleIdentifier".to_string()),
        Ok(())
    );
    assert_eq!(
        instproxy_client_options_set_return_attributes(&opts, "\0".to_string()),
        Err(Error::BuildError)
    );
    assert_eq!(instproxy_client_options_free(opts), 31);
}

#[test]
fn lookup_translates_native_status() {
    let client = instproxy_client_t::new(44);
    assert_eq!(client.client, 44);
    let opts = Plist { plist_t: 31 };
    let found = instproxy_lookup(&client, "com.example".to_string(), &opts, LookupOutcome {
        status: 0,
        plist: 77,
    });
    assert_eq!(found, Some(Plist { plist_t: 77 }));
    let missing = instproxy_lookup(&client, "com.example".to_string(), &opts, LookupOutcome {
        status: -4,
        plist: 0,
    });
    assert_eq!(missing, None);
}

#[test]
fn plist_lookups_carry_the_native_result() {
    let apps = Plist { plist_t: 77 };
    assert_eq!(plist_access_path(&apps, 2, "com.example".to_string(), 81).plist_t, 81);
    assert_eq!(plist_dict_get_item(&apps, "CFBundleVersion".to_string(), 82).plist_t, 82);
}
