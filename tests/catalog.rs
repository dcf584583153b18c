use bluetooth_manager::catalog::starts_with;
use bluetooth_manager::{
    list_adapters, list_devices, list_paired_devices, ManagedObject, PropertyBag, StrMap,
    WireValue,
};

fn bag(entries: Vec<(&str, WireValue)>) -> PropertyBag {
    let mut b = PropertyBag::new();
    for (k, v) in entries {
        b.insert(k.to_string(), v);
    }
    b
}

fn object(path: &str, interfaces: Vec<(&str, PropertyBag)>) -> ManagedObject {
    let mut m = StrMap::new();
    for (name, props) in interfaces {
        m.insert(name.to_string(), props);
    }
    ManagedObject { path: path.to_string(), interfaces: m }
}

fn device(path: &str, address: &str, paired: bool) -> ManagedObject {
    object(
        path,
        vec![(
            "org.bluez.Device1",
            bag(vec![
                ("Address", WireValue::Str(address.to_string())),
                ("Paired", WireValue::Bool(paired)),
            ]),
        )],
    )
}

fn tree() -> Vec<ManagedObject> {
    vec![
        object("/", vec![("org.freedesktop.DBus.ObjectManager", PropertyBag::new())]),
        object("/org/bluez", vec![("org.bluez.AgentManager1", PropertyBag::new())]),
        object(
            "/org/bluez/hci0",
            vec![(
                "org.bluez.Adapter1",
                bag(vec![("Address", WireValue::Str("00:00:00:00:00:01".to_string()))]),
            )],
        ),
        device("/org/bluez/hci0/dev_AA", "AA", true),
        device("/org/bluez/hci0/dev_BB", "BB", false),
        object(
            "/org/bluez/hci1",
            vec![(
                "org.bluez.Adapter1",
                bag(vec![("Address", WireValue::Str("00:00:00:00:00:02".to_string()))]),
            )],
        ),
        device("/org/bluez/hci1/dev_CC", "CC", true),
    ]
}

#[test]
fn adapters_skip_objects_without_the_adapter_interface() {
    let adapters = list_adapters(&tree());
    assert_eq!(adapters.len(), 2);
    assert_eq!(adapters[0].path, "/org/bluez/hci0");
    assert_eq!(adapters[0].address, "00:00:00:00:00:01");
    assert_eq!(adapters[1].path, "/org/bluez/hci1");
    assert_eq!(adapters[1].address, "00:00:00:00:00:02");
}

#[test]
fn devices_of_one_adapter_exclude_its_sibling() {
    let devices = list_devices(&tree(), "/org/bluez/hci0");
    let paths: Vec<&str> = devices.iter().map(|d| d.path.as_str()).collect();
    assert_eq!(paths, vec!["/org/bluez/hci0/dev_AA", "/org/bluez/hci0/dev_BB"]);
    for d in &devices {
        assert!(d.path.starts_with("/org/bluez/hci0"));
    }
    let other = list_devices(&tree(), "/org/bluez/hci1");
    assert_eq!(other.len(), 1);
    assert_eq!(other[0].address, "CC");
}

#[test]
fn devices_of_an_unknown_adapter_are_none() {
    assert!(list_devices(&tree(), "/org/bluez/hci7").is_empty());
    assert!(list_devices(&Vec::new(), "/org/bluez/hci0").is_empty());
}

#[test]
fn paired_devices_are_the_paired_part_of_the_device_list() {
    let all = list_devices(&tree(), "/org/bluez/hci0");
    let paired = list_paired_devices(&tree(), "/org/bluez/hci0");
    assert_eq!(paired.len(), 1);
    assert_eq!(paired[0].path, "/org/bluez/hci0/dev_AA");
    assert!(paired[0].paired);
    let expected: Vec<&str> = all.iter().filter(|d| d.paired).map(|d| d.path.as_str()).collect();
    let got: Vec<&str> = paired.iter().map(|d| d.path.as_str()).collect();
    assert_eq!(got, expected);
}

#[test]
fn prefix_is_literal() {
    assert!(starts_with("/org/bluez/hci0/dev_AA", "/org/bluez/hci0"));
    assert!(starts_with("/org/bluez/hci0", "/org/bluez/hci0"));
    assert!(starts_with("/org/bluez/hci0", ""));
    assert!(!starts_with("/org/bluez/hci1/dev_AA", "/org/bluez/hci0"));
    assert!(!starts_with("/org", "/org/bluez"));
    // A literal prefix: "hci1" also covers paths under "hci10".
    assert!(starts_with("/org/bluez/hci10/dev_AA", "/org/bluez/hci1"));
}
