//! The records handed to the host: adapters, devices and the ping pair.
use vstd::prelude::*;

verus! {

#[derive(Debug)]
pub struct PingRequest {
    pub value: Option<String>,
}

#[derive(Debug, Clone, Default)]
pub struct PingResponse {
    pub value: Option<String>,
}

/// A Bluetooth adapter as the service describes it.
#[derive(Debug, Clone)]
pub struct AdapterInfo {
    /// The adapter's object path.
    pub path: String,
    /// Hardware (MAC) address.
    pub address: String,
    pub name: String,
    pub alias: String,
    /// Class-of-device bitmask.
    pub class: u32,
    pub powered: bool,
    pub discoverable: bool,
    /// Seconds.
    pub discoverable_timeout: u32,
    pub pairable: bool,
    /// Seconds.
    pub pairable_timeout: u32,
    pub discovering: bool,
    /// Service UUIDs.
    pub uuids: Vec<String>,
    pub modalias: Option<String>,
}

/// A remote Bluetooth device as the service describes it.
#[derive(Debug, Clone)]
pub struct DeviceInfo {
    /// The device's object path.
    pub path: String,
    /// Hardware (MAC) address.
    pub address: String,
    pub name: Option<String>,
    pub alias: Option<String>,
    pub class: Option<u32>,
    pub appearance: Option<u16>,
    pub icon: Option<String>,
    pub paired: bool,
    pub trusted: bool,
    pub blocked: bool,
    pub legacy_pairing: bool,
    /// Received signal strength; `None` when unknown.
    pub rssi: Option<i16>,
    /// Transmit power; `None` when unknown.
    pub tx_power: Option<i16>,
    pub connected: bool,
    /// Service UUIDs.
    pub uuids: Vec<String>,
    /// Object path of the adapter the device belongs to.
    pub adapter: String,
    pub services_resolved: bool,
}

/// The mathematical content of an `AdapterInfo`.
pub struct AdapterView {
    pub path: Seq<char>,
    pub address: Seq<char>,
    pub name: Seq<char>,
    pub alias: Seq<char>,
    pub class: u32,
    pub powered: bool,
    pub discoverable: bool,
    pub discoverable_timeout: u32,
    pub pairable: bool,
    pub pairable_timeout: u32,
    pub discovering: bool,
    pub uuids: Seq<Seq<char>>,
    pub modalias: Option<Seq<char>>,
}

/// The mathematical content of a `DeviceInfo`.
pub struct DeviceView {
    pub path: Seq<char>,
    pub address: Seq<char>,
    pub name: Option<Seq<char>>,
    pub alias: Option<Seq<char>>,
    pub class: Option<u32>,
    pub appearance: Option<u16>,
    pub icon: Option<Seq<char>>,
    pub paired: bool,
    pub trusted: bool,
    pub blocked: bool,
    pub legacy_pairing: bool,
    pub rssi: Option<i16>,
    pub tx_power: Option<i16>,
    pub connected: bool,
    pub uuids: Seq<Seq<char>>,
    pub adapter: Seq<char>,
    pub services_resolved: bool,
}

impl View for AdapterInfo {
    type V = AdapterView;

    open spec fn view(&self) -> AdapterView {
        AdapterView {
            path: self.path@,
            address: self.address@,
            name: self.name@,
            alias: self.alias@,
            class: self.class,
            powered: self.powered,
            discoverable: self.discoverable,
            discoverable_timeout: self.discoverable_timeout,
            pairable: self.pairable,
            pairable_timeout: self.pairable_timeout,
            discovering: self.discovering,
            uuids: crate::wire::texts(self.uuids@),
            modalias: crate::wire::opt_text(self.modalias),
        }
    }
}

impl View for DeviceInfo {
    type V = DeviceView;

    open spec fn view(&self) -> DeviceView {
        DeviceView {
            path: self.path@,
            address: self.address@,
            name: crate::wire::opt_text(self.name),
            alias: crate::wire::opt_text(self.alias),
            class: self.class,
            appearance: self.appearance,
            icon: crate::wire::opt_text(self.icon),
            paired: self.paired,
            trusted: self.trusted,
            blocked: self.blocked,
            legacy_pairing: self.legacy_pairing,
            rssi: self.rssi,
            tx_power: self.tx_power,
            connected: self.connected,
            uuids: crate::wire::texts(self.uuids@),
            adapter: self.adapter@,
            services_resolved: self.services_resolved,
        }
    }
}

} // verus!
