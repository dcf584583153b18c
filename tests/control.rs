use bluetooth_manager::control::{
    adapter_snapshot_request, connect_request, device_snapshot_request, disconnect_request,
    enumerate_request, set_powered_request, start_scan_request, stop_scan_request, CallArgs,
    MethodCall,
};
use bluetooth_manager::{Error, WireValue};

fn target(c: &MethodCall) -> (&str, &str, &str) {
    (c.path.as_str(), c.interface.as_str(), c.method.as_str())
}

#[test]
fn enumeration_asks_the_object_manager_at_the_root() {
    let c = enumerate_request();
    assert_eq!(target(&c), ("/", "org.freedesktop.DBus.ObjectManager", "GetManagedObjects"));
    assert!(matches!(c.args, CallArgs::Nothing));
}

#[test]
fn powering_sets_the_adapter_property() {
    let c = set_powered_request("/org/bluez/hci0".to_string(), true);
    assert_eq!(target(&c), ("/org/bluez/hci0", "org.freedesktop.DBus.Properties", "Set"));
    match c.args {
        CallArgs::SetProperty { interface, property, value } => {
            assert_eq!(interface, "org.bluez.Adapter1");
            assert_eq!(property, "Powered");
            assert!(matches!(value, WireValue::Bool(true)));
        }
        _ => panic!("expected a property assignment"),
    }
    let off = set_powered_request("/org/bluez/hci0".to_string(), false);
    assert!(matches!(off.args, CallArgs::SetProperty { value: WireValue::Bool(false), .. }));
}

#[test]
fn scans_and_connections_call_the_object_itself() {
    let start = start_scan_request("/org/bluez/hci0".to_string());
    assert_eq!(target(&start), ("/org/bluez/hci0", "org.bluez.Adapter1", "StartDiscovery"));
    let stop = stop_scan_request("/org/bluez/hci0".to_string());
    assert_eq!(target(&stop), ("/org/bluez/hci0", "org.bluez.Adapter1", "StopDiscovery"));
    let conn = connect_request("/org/bluez/hci0/dev_AA".to_string());
    assert_eq!(target(&conn), ("/org/bluez/hci0/dev_AA", "org.bluez.Device1", "Connect"));
    let disc = disconnect_request("/org/bluez/hci0/dev_AA".to_string());
    assert_eq!(target(&disc), ("/org/bluez/hci0/dev_AA", "org.bluez.Device1", "Disconnect"));
    for c in [start, stop, conn, disc] {
        assert!(matches!(c.args, CallArgs::Nothing));
    }
}

#[test]
fn snapshots_read_all_properties_of_one_interface() {
    let a = adapter_snapshot_request("/org/bluez/hci0".to_string());
    assert_eq!(target(&a), ("/org/bluez/hci0", "org.freedesktop.DBus.Properties", "GetAll"));
    assert!(matches!(&a.args, CallArgs::Interface(i) if i == "org.bluez.Adapter1"));
    let d = device_snapshot_request("/org/bluez/hci0/dev_AA".to_string());
    assert_eq!(target(&d), ("/org/bluez/hci0/dev_AA", "org.freedesktop.DBus.Properties", "GetAll"));
    assert!(matches!(&d.args, CallArgs::Interface(i) if i == "org.bluez.Device1"));
}

#[test]
fn error_messages_name_their_kind() {
    assert_eq!(Error::Transport("timeout".to_string()).message(), "D-Bus error: timeout");
    assert_eq!(Error::Decode("bad".to_string()).message(), "D-Bus variant error: bad");
    assert_eq!(Error::CommandError("x".to_string()).message(), "Command error: x");
    assert_eq!(Error::NotFound("/a".to_string()).message(), "Not found: /a");
}
