//! Typed access to a Bluetooth service that publishes adapters and devices as
//! remote objects with dynamically typed property bags.
//!
//! The library decodes property bags into records, lists adapters and devices
//! from a snapshot of the managed-object tree, describes the control calls,
//! and turns the service's notification stream into one family of change
//! events. Talking to the bus is left to the caller.
use vstd::prelude::*;

pub mod catalog;
pub mod control;
pub mod decode;
pub mod error;
pub mod events;
pub mod listener;
pub mod models;
pub mod wire;

pub use catalog::{list_adapters, list_devices, list_paired_devices, ManagedObject};
pub use decode::{adapter_info_from_props, device_info_from_props};
pub use error::Error;
pub use events::ChangeEvent;
pub use listener::{Action, Listener, Notification, SignalHeader, SignalKind};
pub use models::{AdapterInfo, DeviceInfo, PingRequest, PingResponse};
pub use wire::{PropertyBag, StrMap, WireValue};

verus! {

} // verus!
