use qemu_display_listener::console::{console_object_path, listener_step, ListenerStep};

#[test]
fn console_zero_path() {
    assert_eq!(
        console_object_path(0),
        Ok("/org/qemu/Display1/Console_0".to_string())
    );
}

#[test]
fn console_multi_digit_path() {
    assert_eq!(
        console_object_path(1234),
        Ok("/org/qemu/Display1/Console_1234".to_string())
    );
    assert_eq!(
        console_object_path(10),
        Ok("/org/qemu/Display1/Console_10".to_string())
    );
}

#[test]
fn console_max_index_path() {
    assert_eq!(
        console_object_path(u32::MAX),
        Ok("/org/qemu/Display1/Console_4294967295".to_string())
    );
}

#[test]
fn console_paths_differ() {
    let a = console_object_path(1).unwrap();
    let b = console_object_path(11).unwrap();
    assert_ne!(a, b);
}

#[test]
fn console_path_is_accepted_by_zvariant() {
    let p = console_object_path(7).unwrap();
    assert!(zvariant::ObjectPath::try_from(p.as_str()).is_ok());
}

#[test]
fn listener_continues_without_errors() {
    assert!(matches!(listener_step(None, None), ListenerStep::Continue));
}

#[test]
fn listener_stops_on_dbus_error() {
    match listener_step(Some("broken pipe".to_string()), None) {
        ListenerStep::Stop(line) => assert_eq!(line, "Listener DBus error: broken pipe"),
        ListenerStep::Continue => panic!("expected a stop"),
    }
}

#[test]
fn listener_stops_on_channel_error() {
    match listener_step(None, Some("receiver gone".to_string())) {
        ListenerStep::Stop(line) => assert_eq!(line, "Listener channel error: receiver gone"),
        ListenerStep::Continue => panic!("expected a stop"),
    }
}

#[test]
fn listener_reports_dbus_error_first() {
    match listener_step(Some("a".to_string()), Some("b".to_string())) {
        ListenerStep::Stop(line) => assert_eq!(line, "Listener DBus error: a"),
        ListenerStep::Continue => panic!("expected a stop"),
    }
}
