//! Property bags to records. Every field is read on its own: a value of the
//! wrong shape, or no value at all, gives the field's default, and decoding a
//! record never fails.
use vstd::prelude::*;
use crate::models::{AdapterInfo, AdapterView, DeviceInfo, DeviceView};
use crate::wire::{
    as_bool, as_i16, as_object_path, as_text, as_text_list, as_u16, as_u32, entry_of, opt_text,
    texts, to_bool, to_i16, to_object_path, to_text, to_text_list, to_u16, to_u32, PropertyBag,
    WireValue,
};

verus! {

/// `o`'s value, or `d` when there is none.
pub open spec fn or_default<T>(o: Option<T>, d: T) -> T {
    match o {
        Some(x) => x,
        None => d,
    }
}

pub open spec fn text_in(bag: Map<Seq<char>, WireValue>, key: Seq<char>) -> Option<Seq<char>> {
    match entry_of(bag, key) {
        Some(v) => as_text(v),
        None => None,
    }
}

pub open spec fn path_in(bag: Map<Seq<char>, WireValue>, key: Seq<char>) -> Option<Seq<char>> {
    match entry_of(bag, key) {
        Some(v) => as_object_path(v),
        None => None,
    }
}

pub open spec fn flag_in(bag: Map<Seq<char>, WireValue>, key: Seq<char>) -> bool {
    match entry_of(bag, key) {
        Some(v) => or_default(as_bool(v), false),
        None => false,
    }
}

pub open spec fn u16_in(bag: Map<Seq<char>, WireValue>, key: Seq<char>) -> Option<u16> {
    match entry_of(bag, key) {
        Some(v) => as_u16(v),
        None => None,
    }
}

pub open spec fn i16_in(bag: Map<Seq<char>, WireValue>, key: Seq<char>) -> Option<i16> {
    match entry_of(bag, key) {
        Some(v) => as_i16(v),
        None => None,
    }
}

pub open spec fn u32_in(bag: Map<Seq<char>, WireValue>, key: Seq<char>) -> Option<u32> {
    match entry_of(bag, key) {
        Some(v) => as_u32(v),
        None => None,
    }
}

pub open spec fn text_list_in(bag: Map<Seq<char>, WireValue>, key: Seq<char>) -> Seq<Seq<char>> {
    match entry_of(bag, key) {
        Some(v) => or_default(as_text_list(v), Seq::empty()),
        None => Seq::empty(),
    }
}

/// The adapter record that the bag `bag` describes for the object at `path`.
pub open spec fn decode_adapter(path: Seq<char>, bag: Map<Seq<char>, WireValue>) -> AdapterView {
    AdapterView {
        path,
        address: or_default(text_in(bag, "Address"@), Seq::empty()),
        name: or_default(text_in(bag, "Name"@), Seq::empty()),
        alias: or_default(text_in(bag, "Alias"@), Seq::empty()),
        class: or_default(u32_in(bag, "Class"@), 0),
        powered: flag_in(bag, "Powered"@),
        discoverable: flag_in(bag, "Discoverable"@),
        discoverable_timeout: or_default(u32_in(bag, "DiscoverableTimeout"@), 0),
        pairable: flag_in(bag, "Pairable"@),
        pairable_timeout: or_default(u32_in(bag, "PairableTimeout"@), 0),
        discovering: flag_in(bag, "Discovering"@),
        uuids: text_list_in(bag, "UUIDs"@),
        modalias: text_in(bag, "Modalias"@),
    }
}

/// The device record that the bag `bag` describes for the object at `path`.
pub open spec fn decode_device(path: Seq<char>, bag: Map<Seq<char>, WireValue>) -> DeviceView {
    DeviceView {
        path,
        address: or_default(text_in(bag, "Address"@), Seq::empty()),
        name: text_in(bag, "Name"@),
        alias: text_in(bag, "Alias"@),
        class: u32_in(bag, "Class"@),
        appearance: u16_in(bag, "Appearance"@),
        icon: text_in(bag, "Icon"@),
        paired: flag_in(bag, "Paired"@),
        trusted: flag_in(bag, "Trusted"@),
        blocked: flag_in(bag, "Blocked"@),
        legacy_pairing: flag_in(bag, "LegacyPairing"@),
        rssi: i16_in(bag, "RSSI"@),
        tx_power: i16_in(bag, "TxPower"@),
        connected: flag_in(bag, "Connected"@),
        uuids: text_list_in(bag, "UUIDs"@),
        adapter: or_default(path_in(bag, "Adapter"@), Seq::empty()),
        services_resolved: flag_in(bag, "ServicesResolved"@),
    }
}

fn text_field(props: &PropertyBag, key: &str) -> (r: Option<String>)
    ensures
        opt_text(r) == text_in(props@, key@),
{
    match props.get(key) {
        Some(v) => to_text(v),
        None => None,
    }
}

fn text_field_or_empty(props: &PropertyBag, key: &str) -> (r: String)
    ensures
        r@ == or_default(text_in(props@, key@), Seq::empty()),
{
    match text_field(props, key) {
        Some(s) => s,
        None => String::new(),
    }
}

fn path_field_or_empty(props: &PropertyBag, key: &str) -> (r: String)
    ensures
        r@ == or_default(path_in(props@, key@), Seq::empty()),
{
    let found = match props.get(key) {
        Some(v) => to_object_path(v),
        None => None,
    };
    match found {
        Some(s) => s,
        None => String::new(),
    }
}

fn flag_field(props: &PropertyBag, key: &str) -> (r: bool)
    ensures
        r == flag_in(props@, key@),
{
    match props.get(key) {
        Some(v) => match to_bool(v) {
            Some(b) => b,
            None => false,
        },
        None => false,
    }
}

fn u16_field(props: &PropertyBag, key: &str) -> (r: Option<u16>)
    ensures
        r == u16_in(props@, key@),
{
    match props.get(key) {
        Some(v) => to_u16(v),
        None => None,
    }
}

fn i16_field(props: &PropertyBag, key: &str) -> (r: Option<i16>)
    ensures
        r == i16_in(props@, key@),
{
    match props.get(key) {
        Some(v) => to_i16(v),
        None => None,
    }
}

fn u32_field(props: &PropertyBag, key: &str) -> (r: Option<u32>)
    ensures
        r == u32_in(props@, key@),
{
    match props.get(key) {
        Some(v) => to_u32(v),
        None => None,
    }
}

fn u32_field_or_zero(props: &PropertyBag, key: &str) -> (r: u32)
    ensures
        r == or_default(u32_in(props@, key@), 0),
{
    match u32_field(props, key) {
        Some(n) => n,
        None => 0,
    }
}

fn text_list_field(props: &PropertyBag, key: &str) -> (r: Vec<String>)
    ensures
        texts(r@) == text_list_in(props@, key@),
{
    let found = match props.get(key) {
        Some(v) => to_text_list(v),
        None => None,
    };
    match found {
        Some(l) => l,
        None => {
            let empty: Vec<String> = Vec::new();
            assert(texts(empty@) =~= Seq::<Seq<char>>::empty());
            empty
        },
    }
}

/// Decodes the adapter at `path` from its property bag.
pub fn adapter_info_from_props(path: String, props: &PropertyBag) -> (r: AdapterInfo)
    ensures
        r@ == decode_adapter(path@, props@),
{
    AdapterInfo {
        path,
        address: text_field_or_empty(props, "Address"),
        name: text_field_or_empty(props, "Name"),
        alias: text_field_or_empty(props, "Alias"),
        class: u32_field_or_zero(props, "Class"),
        powered: flag_field(props, "Powered"),
        discoverable: flag_field(props, "Discoverable"),
        discoverable_timeout: u32_field_or_zero(props, "DiscoverableTimeout"),
        pairable: flag_field(props, "Pairable"),
        pairable_timeout: u32_field_or_zero(props, "PairableTimeout"),
        discovering: flag_field(props, "Discovering"),
        uuids: text_list_field(props, "UUIDs"),
        modalias: text_field(props, "Modalias"),
    }
}

/// Decodes the device at `path` from its property bag.
pub fn device_info_from_props(path: String, props: &PropertyBag) -> (r: DeviceInfo)
    ensures
        r@ == decode_device(path@, props@),
{
    DeviceInfo {
        path,
        address: text_field_or_empty(props, "Address"),
        name: text_field(props, "Name"),
        alias: text_field(props, "Alias"),
        class: u32_field(props, "Class"),
        appearance: u16_field(props, "Appearance"),
        icon: text_field(props, "Icon"),
        paired: flag_field(props, "Paired"),
        trusted: flag_field(props, "Trusted"),
        blocked: flag_field(props, "Blocked"),
        legacy_pairing: flag_field(props, "LegacyPairing"),
        rssi: i16_field(props, "RSSI"),
        tx_power: i16_field(props, "TxPower"),
        connected: flag_field(props, "Connected"),
        uuids: text_list_field(props, "UUIDs"),
        adapter: path_field_or_empty(props, "Adapter"),
        services_resolved: flag_field(props, "ServicesResolved"),
    }
}

/// Every adapter field that the bag lacks takes its default: the empty
/// string, zero, `false`, no value, or the empty list.
pub proof fn lemma_adapter_missing_fields_default(
    path: Seq<char>,
    bag: Map<Seq<char>, WireValue>,
)
    ensures
        ({
            let a = decode_adapter(path, bag);
            &&& !bag.contains_key("Address"@) ==> a.address == Seq::<char>::empty()
            &&& !bag.contains_key("Name"@) ==> a.name == Seq::<char>::empty()
            &&& !bag.contains_key("Alias"@) ==> a.alias == Seq::<char>::empty()
            &&& !bag.contains_key("Class"@) ==> a.class == 0
            &&& !bag.contains_key("Powered"@) ==> !a.powered
            &&& !bag.contains_key("Discoverable"@) ==> !a.discoverable
            &&& !bag.contains_key("DiscoverableTimeout"@) ==> a.discoverable_timeout == 0
            &&& !bag.contains_key("Pairable"@) ==> !a.pairable
            &&& !bag.contains_key("PairableTimeout"@) ==> a.pairable_timeout == 0
            &&& !bag.contains_key("Discovering"@) ==> !a.discovering
            &&& !bag.contains_key("UUIDs"@) ==> a.uuids == Seq::<Seq<char>>::empty()
            &&& !bag.contains_key("Modalias"@) ==> a.modalias is None
        }),
{
}

/// Every device field that the bag lacks takes its default: the empty
/// string, `false`, no value (an unknown reading stays unknown, not zero),
/// or the empty list.
pub proof fn lemma_device_missing_fields_default(
    path: Seq<char>,
    bag: Map<Seq<char>, WireValue>,
)
    ensures
        ({
            let d = decode_device(path, bag);
            &&& !bag.contains_key("Address"@) ==> d.address == Seq::<char>::empty()
            &&& !bag.contains_key("Name"@) ==> d.name is None
            &&& !bag.contains_key("Alias"@) ==> d.alias is None
            &&& !bag.contains_key("Class"@) ==> d.class is None
            &&& !bag.contains_key("Appearance"@) ==> d.appearance is None
            &&& !bag.contains_key("Icon"@) ==> d.icon is None
            &&& !bag.contains_key("Paired"@) ==> !d.paired
            &&& !bag.contains_key("Trusted"@) ==> !d.trusted
            &&& !bag.contains_key("Blocked"@) ==> !d.blocked
            &&& !bag.contains_key("LegacyPairing"@) ==> !d.legacy_pairing
            &&& !bag.contains_key("RSSI"@) ==> d.rssi is None
            &&& !bag.contains_key("TxPower"@) ==> d.tx_power is None
            &&& !bag.contains_key("Connected"@) ==> !d.connected
            &&& !bag.contains_key("UUIDs"@) ==> d.uuids == Seq::<Seq<char>>::empty()
            &&& !bag.contains_key("Adapter"@) ==> d.adapter == Seq::<char>::empty()
            &&& !bag.contains_key("ServicesResolved"@) ==> !d.services_resolved
        }),
{
}

} // verus!
