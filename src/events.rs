//! The change events handed to the host, one family for every kind of
//! notification the service sends.
use vstd::prelude::*;
use crate::models::{AdapterInfo, AdapterView, DeviceInfo, DeviceView};

verus! {

#[derive(Debug, Clone)]
pub enum ChangeEvent {
    AdapterAdded(AdapterInfo),
    /// The path of the adapter that went away.
    AdapterRemoved(String),
    DeviceAdded(DeviceInfo),
    /// The path of the device that went away.
    DeviceRemoved(String),
    AdapterPropertyChanged(AdapterInfo),
    DevicePropertyChanged(DeviceInfo),
    DeviceConnected(DeviceInfo),
    DeviceDisconnected(DeviceInfo),
    /// A notification could not be read or resolved; the text says why.
    DecodeError(String),
    /// The notification stream broke; no event follows this one.
    TransportError(String),
}

/// The mathematical content of a `ChangeEvent`.
pub enum EventView {
    AdapterAdded(AdapterView),
    AdapterRemoved(Seq<char>),
    DeviceAdded(DeviceView),
    DeviceRemoved(Seq<char>),
    AdapterPropertyChanged(AdapterView),
    DevicePropertyChanged(DeviceView),
    DeviceConnected(DeviceView),
    DeviceDisconnected(DeviceView),
    DecodeError(Seq<char>),
    TransportError(Seq<char>),
}

impl View for ChangeEvent {
    type V = EventView;

    open spec fn view(&self) -> EventView {
        match self {
            ChangeEvent::AdapterAdded(a) => EventView::AdapterAdded(a@),
            ChangeEvent::AdapterRemoved(p) => EventView::AdapterRemoved(p@),
            ChangeEvent::DeviceAdded(d) => EventView::DeviceAdded(d@),
            ChangeEvent::DeviceRemoved(p) => EventView::DeviceRemoved(p@),
            ChangeEvent::AdapterPropertyChanged(a) => EventView::AdapterPropertyChanged(a@),
            ChangeEvent::DevicePropertyChanged(d) => EventView::DevicePropertyChanged(d@),
            ChangeEvent::DeviceConnected(d) => EventView::DeviceConnected(d@),
            ChangeEvent::DeviceDisconnected(d) => EventView::DeviceDisconnected(d@),
            ChangeEvent::DecodeError(s) => EventView::DecodeError(s@),
            ChangeEvent::TransportError(s) => EventView::TransportError(s@),
        }
    }
}

pub open spec fn event_views(s: Seq<ChangeEvent>) -> Seq<EventView> {
    s.map_values(|e: ChangeEvent| e@)
}

/// The name under which the host receives events of `e`'s kind.
pub open spec fn change_type_of(e: EventView) -> Seq<char> {
    match e {
        EventView::AdapterAdded(_) => "adapter-added"@,
        EventView::AdapterRemoved(_) => "adapter-removed"@,
        EventView::DeviceAdded(_) => "device-added"@,
        EventView::DeviceRemoved(_) => "device-removed"@,
        EventView::AdapterPropertyChanged(_) => "adapter-property-changed"@,
        EventView::DevicePropertyChanged(_) => "device-property-changed"@,
        EventView::DeviceConnected(_) => "device-connected"@,
        EventView::DeviceDisconnected(_) => "device-disconnected"@,
        EventView::DecodeError(_) => "error"@,
        EventView::TransportError(_) => "dbus-error"@,
    }
}

impl ChangeEvent {
    /// The name under which the host receives events of this kind.
    pub fn change_type(&self) -> (r: &'static str)
        ensures
            r@ == change_type_of(self@),
    {
        match self {
            ChangeEvent::AdapterAdded(_) => "adapter-added",
            ChangeEvent::AdapterRemoved(_) => "adapter-removed",
            ChangeEvent::DeviceAdded(_) => "device-added",
            ChangeEvent::DeviceRemoved(_) => "device-removed",
            ChangeEvent::AdapterPropertyChanged(_) => "adapter-property-changed",
            ChangeEvent::DevicePropertyChanged(_) => "device-property-changed",
            ChangeEvent::DeviceConnected(_) => "device-connected",
            ChangeEvent::DeviceDisconnected(_) => "device-disconnected",
            ChangeEvent::DecodeError(_) => "error",
            ChangeEvent::TransportError(_) => "dbus-error",
        }
    }
}

} // verus!
