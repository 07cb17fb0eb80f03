use qemu_display_listener::startup::{
    bus_target, find_vm, handle_local_options, version_line, vm_destination, vm_list_line,
    AppOptions, BusTarget,
};

fn names(list: &[&str]) -> Vec<String> {
    list.iter().map(|s| s.to_string()).collect()
}

#[test]
fn default_options_are_empty() {
    let o = AppOptions::default();
    assert_eq!(o.vm_name, None);
    assert_eq!(o.address, None);
    assert!(!o.list);
}

#[test]
fn version_exits_and_keeps_options() {
    let mut o = AppOptions::default();
    o.list = true;
    let r = handle_local_options(
        &mut o,
        true,
        Some(Some("unix:path=/tmp/bus".to_string())),
        false,
        Some("vm".to_string()),
    );
    assert_eq!(r, 0);
    assert!(o.list);
    assert_eq!(o.address, None);
    assert_eq!(o.vm_name, None);
}

#[test]
fn options_are_recorded() {
    let mut o = AppOptions::default();
    let r = handle_local_options(
        &mut o,
        false,
        Some(Some("unix:path=/tmp/bus".to_string())),
        true,
        Some("fedora".to_string()),
    );
    assert_eq!(r, -1);
    assert_eq!(o.address.as_deref(), Some("unix:path=/tmp/bus"));
    assert!(o.list);
    assert_eq!(o.vm_name.as_deref(), Some("fedora"));
}

#[test]
fn list_flag_is_sticky_and_absent_address_kept() {
    let mut o = AppOptions::default();
    o.list = true;
    o.address = Some("tcp:host=a".to_string());
    o.vm_name = Some("old".to_string());
    let r = handle_local_options(&mut o, false, None, false, None);
    assert_eq!(r, -1);
    assert!(o.list);
    assert_eq!(o.address.as_deref(), Some("tcp:host=a"));
    assert_eq!(o.vm_name, None);
}

#[test]
fn non_string_address_clears_address() {
    let mut o = AppOptions::default();
    o.address = Some("tcp:host=a".to_string());
    let r = handle_local_options(&mut o, false, Some(None), false, None);
    assert_eq!(r, -1);
    assert_eq!(o.address, None);
}

#[test]
fn version_line_text() {
    assert_eq!(version_line("0.1.0"), "Version: 0.1.0");
}

#[test]
fn bus_from_address_or_session() {
    let mut o = AppOptions::default();
    assert!(matches!(bus_target(&o), BusTarget::Session));
    o.address = Some("unix:abstract=x".to_string());
    match bus_target(&o) {
        BusTarget::Address(a) => assert_eq!(a, "unix:abstract=x"),
        BusTarget::Session => panic!("expected an address"),
    }
}

#[test]
fn list_line_text() {
    assert_eq!(vm_list_line("fedora", ":1.42"), "fedora (at :1.42)");
}

#[test]
fn find_vm_positions() {
    let n = names(&["a", "b", "c", "b"]);
    assert_eq!(find_vm(&n, &"b".to_string()), Some(1));
    assert_eq!(find_vm(&n, &"a".to_string()), Some(0));
    assert_eq!(find_vm(&n, &"z".to_string()), None);
    assert_eq!(find_vm(&Vec::new(), &"a".to_string()), None);
}

#[test]
fn destination_without_name_is_default() {
    let n = names(&["a"]);
    assert_eq!(vm_destination(&n, &None), Ok(None));
}

#[test]
fn destination_of_known_name() {
    let n = names(&["debian", "fedora"]);
    assert_eq!(vm_destination(&n, &Some("fedora".to_string())), Ok(Some(1)));
}

#[test]
fn destination_of_unknown_name_is_refused() {
    let n = names(&["debian"]);
    assert_eq!(
        vm_destination(&n, &Some("arch".to_string())),
        Err("Can't find VM name: arch".to_string())
    );
}
