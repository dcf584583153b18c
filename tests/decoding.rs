use bluetooth_manager::wire::{to_text_list, to_u32};
use bluetooth_manager::{adapter_info_from_props, device_info_from_props, PropertyBag, WireValue};

fn text(s: &str) -> WireValue {
    WireValue::Str(s.to_string())
}

fn bag(entries: Vec<(&str, WireValue)>) -> PropertyBag {
    let mut b = PropertyBag::new();
    for (k, v) in entries {
        b.insert(k.to_string(), v);
    }
    b
}

#[test]
fn adapter_with_address_and_power_only() {
    let props = bag(vec![
        ("Address", text("AA:BB:CC:DD:EE:FF")),
        ("Powered", WireValue::Bool(true)),
    ]);
    let a = adapter_info_from_props("/org/bluez/hci0".to_string(), &props);
    assert_eq!(a.path, "/org/bluez/hci0");
    assert_eq!(a.address, "AA:BB:CC:DD:EE:FF");
    assert_eq!(a.name, "");
    assert_eq!(a.alias, "");
    assert!(a.powered);
    assert!(!a.discoverable);
    assert!(a.uuids.is_empty());
    assert_eq!(a.class, 0);
    assert_eq!(a.discoverable_timeout, 0);
    assert!(!a.pairable);
    assert_eq!(a.pairable_timeout, 0);
    assert!(!a.discovering);
    assert_eq!(a.modalias, None);
}

#[test]
fn adapter_with_every_field() {
    let props = bag(vec![
        ("Address", text("00:11:22:33:44:55")),
        ("Name", text("laptop")),
        ("Alias", text("my laptop")),
        ("Class", WireValue::U32(0x6c010c)),
        ("Powered", WireValue::Bool(true)),
        ("Discoverable", WireValue::Bool(true)),
        ("DiscoverableTimeout", WireValue::U32(180)),
        ("Pairable", WireValue::Bool(true)),
        ("PairableTimeout", WireValue::U32(0)),
        ("Discovering", WireValue::Bool(true)),
        ("UUIDs", WireValue::Array(vec![text("0000110e-0000-1000-8000-00805f9b34fb")])),
        ("Modalias", text("usb:v1D6Bp0246d0540")),
    ]);
    let a = adapter_info_from_props("/org/bluez/hci0".to_string(), &props);
    assert_eq!(a.name, "laptop");
    assert_eq!(a.alias, "my laptop");
    assert_eq!(a.class, 0x6c010c);
    assert!(a.discoverable);
    assert_eq!(a.discoverable_timeout, 180);
    assert!(a.pairable);
    assert!(a.discovering);
    assert_eq!(a.uuids, vec!["0000110e-0000-1000-8000-00805f9b34fb".to_string()]);
    assert_eq!(a.modalias, Some("usb:v1D6Bp0246d0540".to_string()));
}

#[test]
fn empty_bag_gives_device_defaults() {
    let d = device_info_from_props("/org/bluez/hci0/dev_1".to_string(), &PropertyBag::new());
    assert_eq!(d.path, "/org/bluez/hci0/dev_1");
    assert_eq!(d.address, "");
    assert_eq!(d.name, None);
    assert_eq!(d.alias, None);
    assert_eq!(d.class, None);
    assert_eq!(d.appearance, None);
    assert_eq!(d.icon, None);
    assert!(!d.paired);
    assert!(!d.trusted);
    assert!(!d.blocked);
    assert!(!d.legacy_pairing);
    assert_eq!(d.rssi, None);
    assert_eq!(d.tx_power, None);
    assert!(!d.connected);
    assert!(d.uuids.is_empty());
    assert_eq!(d.adapter, "");
    assert!(!d.services_resolved);
}

#[test]
fn device_with_readings_and_adapter() {
    let props = bag(vec![
        ("Address", text("11:22:33:44:55:66")),
        ("Name", text("headset")),
        ("Class", WireValue::U32(0x240404)),
        ("Appearance", WireValue::U16(0x0941)),
        ("Icon", text("audio-headset")),
        ("Paired", WireValue::Bool(true)),
        ("Trusted", WireValue::Bool(true)),
        ("RSSI", WireValue::I16(-60)),
        ("TxPower", WireValue::I16(4)),
        ("Connected", WireValue::Bool(true)),
        ("Adapter", WireValue::ObjectPath("/org/bluez/hci0".to_string())),
        ("ServicesResolved", WireValue::Bool(true)),
    ]);
    let d = device_info_from_props("/org/bluez/hci0/dev_11".to_string(), &props);
    assert_eq!(d.address, "11:22:33:44:55:66");
    assert_eq!(d.name, Some("headset".to_string()));
    assert_eq!(d.alias, None);
    assert_eq!(d.class, Some(0x240404));
    assert_eq!(d.appearance, Some(0x0941));
    assert_eq!(d.icon, Some("audio-headset".to_string()));
    assert!(d.paired);
    assert!(d.trusted);
    assert!(!d.blocked);
    assert_eq!(d.rssi, Some(-60));
    assert_eq!(d.tx_power, Some(4));
    assert!(d.connected);
    assert_eq!(d.adapter, "/org/bluez/hci0");
    assert!(d.services_resolved);
}

#[test]
fn wrong_shapes_fall_back_to_defaults() {
    let props = bag(vec![
        ("Address", WireValue::U32(7)),
        ("Name", WireValue::ObjectPath("/x".to_string())),
        ("Class", WireValue::U16(3)),
        ("Appearance", WireValue::U32(3)),
        ("Paired", WireValue::U8(1)),
        ("RSSI", WireValue::I32(-60)),
        ("Adapter", text("/org/bluez/hci0")),
        ("UUIDs", text("not a list")),
        ("Connected", WireValue::Variant(Box::new(WireValue::Bool(true)))),
    ]);
    let d = device_info_from_props("/d".to_string(), &props);
    assert_eq!(d.address, "");
    assert_eq!(d.name, None);
    assert_eq!(d.class, None);
    assert_eq!(d.appearance, None);
    assert!(!d.paired);
    assert_eq!(d.rssi, None);
    assert_eq!(d.adapter, "");
    assert!(d.uuids.is_empty());
    assert!(!d.connected);
}

#[test]
fn string_list_accepts_wrapped_elements() {
    let v = WireValue::Array(vec![
        text("a"),
        WireValue::Variant(Box::new(text("b"))),
    ]);
    assert_eq!(to_text_list(&v), Some(vec!["a".to_string(), "b".to_string()]));
    assert_eq!(to_text_list(&WireValue::Array(vec![])), Some(vec![]));
}

#[test]
fn string_list_with_a_foreign_element_is_rejected() {
    let v = WireValue::Array(vec![text("a"), WireValue::U32(1)]);
    assert_eq!(to_text_list(&v), None);
    let props = bag(vec![("UUIDs", v)]);
    let a = adapter_info_from_props("/a".to_string(), &props);
    assert!(a.uuids.is_empty());
}

#[test]
fn integer_coercion_needs_its_own_width() {
    assert_eq!(to_u32(&WireValue::U32(5)), Some(5));
    assert_eq!(to_u32(&WireValue::U64(5)), None);
    assert_eq!(to_u32(&WireValue::Other), None);
}

#[test]
fn insert_replaces_an_earlier_value() {
    let mut props = PropertyBag::new();
    props.insert("Powered".to_string(), WireValue::Bool(false));
    props.insert("Name".to_string(), text("first"));
    props.insert("Powered".to_string(), WireValue::Bool(true));
    props.insert("Name".to_string(), text("second"));
    let a = adapter_info_from_props("/a".to_string(), &props);
    assert!(a.powered);
    assert_eq!(a.name, "second");
    assert!(props.get("Alias").is_none());
    assert!(matches!(props.get("Powered"), Some(WireValue::Bool(true))));
}

#[test]
fn empty_bag_gives_adapter_defaults() {
    let a = adapter_info_from_props("/org/bluez/hci3".to_string(), &PropertyBag::new());
    assert_eq!(a.path, "/org/bluez/hci3");
    assert_eq!(a.address, "");
    assert_eq!(a.name, "");
    assert_eq!(a.alias, "");
    assert_eq!(a.class, 0);
    assert!(!a.powered);
    assert!(!a.discoverable);
    assert_eq!(a.discoverable_timeout, 0);
    assert!(!a.pairable);
    assert_eq!(a.pairable_timeout, 0);
    assert!(!a.discovering);
    assert!(a.uuids.is_empty());
    assert_eq!(a.modalias, None);
}
