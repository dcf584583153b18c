//! The method calls behind each request to the service. Each operation is a
//! single call to one object; nothing is kept between calls, and retries,
//! timeouts and idempotency are left to the service and the caller.
use vstd::prelude::*;
use crate::catalog::{ADAPTER_INTERFACE, DEVICE_INTERFACE};
use crate::wire::WireValue;

verus! {

/// The bus name of the Bluetooth service.
pub const SERVICE_NAME: &'static str = "org.bluez";

/// The interface that lists a service's objects.
pub const OBJECT_MANAGER_INTERFACE: &'static str = "org.freedesktop.DBus.ObjectManager";

/// The interface that reads and writes an object's properties.
pub const PROPERTIES_INTERFACE: &'static str = "org.freedesktop.DBus.Properties";

/// The arguments of a method call.
pub enum CallArgs {
    Nothing,
    /// One interface name.
    Interface(String),
    /// An interface, a property of it, and the value to give the property.
    SetProperty { interface: String, property: String, value: WireValue },
}

/// A call of `method` of `interface` on the service's object at `path`.
pub struct MethodCall {
    pub path: String,
    pub interface: String,
    pub method: String,
    pub args: CallArgs,
}

/// Whether `c` calls `method` of `interface` on the object at `path`.
pub open spec fn calls(c: MethodCall, path: Seq<char>, interface: Seq<char>, method: Seq<char>) -> bool {
    &&& c.path@ == path
    &&& c.interface@ == interface
    &&& c.method@ == method
}

fn method_call(path: String, interface: &str, method: &str, args: CallArgs) -> (r: MethodCall)
    ensures
        calls(r, path@, interface@, method@),
        r.args == args,
{
    MethodCall {
        path,
        interface: String::from_str(interface),
        method: String::from_str(method),
        args,
    }
}

/// The call that fetches the whole object tree.
pub fn enumerate_request() -> (r: MethodCall)
    ensures
        calls(r, "/"@, OBJECT_MANAGER_INTERFACE@, "GetManagedObjects"@),
        r.args is Nothing,
{
    method_call(String::from_str("/"), OBJECT_MANAGER_INTERFACE, "GetManagedObjects", CallArgs::Nothing)
}

/// The call that powers the adapter at `adapter_path` on or off.
pub fn set_powered_request(adapter_path: String, powered: bool) -> (r: MethodCall)
    ensures
        calls(r, adapter_path@, PROPERTIES_INTERFACE@, "Set"@),
        r.args matches CallArgs::SetProperty { interface, property, value } && interface@
            == ADAPTER_INTERFACE@ && property@ == "Powered"@ && value == WireValue::Bool(powered),
{
    let args = CallArgs::SetProperty {
        interface: String::from_str(ADAPTER_INTERFACE),
        property: String::from_str("Powered"),
        value: WireValue::Bool(powered),
    };
    method_call(adapter_path, PROPERTIES_INTERFACE, "Set", args)
}

/// The call that starts device discovery on the adapter at `adapter_path`.
pub fn start_scan_request(adapter_path: String) -> (r: MethodCall)
    ensures
        calls(r, adapter_path@, ADAPTER_INTERFACE@, "StartDiscovery"@),
        r.args is Nothing,
{
    method_call(adapter_path, ADAPTER_INTERFACE, "StartDiscovery", CallArgs::Nothing)
}

/// The call that stops device discovery on the adapter at `adapter_path`.
pub fn stop_scan_request(adapter_path: String) -> (r: MethodCall)
    ensures
        calls(r, adapter_path@, ADAPTER_INTERFACE@, "StopDiscovery"@),
        r.args is Nothing,
{
    method_call(adapter_path, ADAPTER_INTERFACE, "StopDiscovery", CallArgs::Nothing)
}

/// The call that connects the device at `device_path`.
pub fn connect_request(device_path: String) -> (r: MethodCall)
    ensures
        calls(r, device_path@, DEVICE_INTERFACE@, "Connect"@),
        r.args is Nothing,
{
    method_call(device_path, DEVICE_INTERFACE, "Connect", CallArgs::Nothing)
}

/// The call that disconnects the device at `device_path`.
pub fn disconnect_request(device_path: String) -> (r: MethodCall)
    ensures
        calls(r, device_path@, DEVICE_INTERFACE@, "Disconnect"@),
        r.args is Nothing,
{
    method_call(device_path, DEVICE_INTERFACE, "Disconnect", CallArgs::Nothing)
}

/// The call that fetches the property bag of the adapter at `adapter_path`.
pub fn adapter_snapshot_request(adapter_path: String) -> (r: MethodCall)
    ensures
        calls(r, adapter_path@, PROPERTIES_INTERFACE@, "GetAll"@),
        r.args matches CallArgs::Interface(i) && i@ == ADAPTER_INTERFACE@,
{
    let args = CallArgs::Interface(String::from_str(ADAPTER_INTERFACE));
    method_call(adapter_path, PROPERTIES_INTERFACE, "GetAll", args)
}

/// The call that fetches the property bag of the device at `device_path`.
pub fn device_snapshot_request(device_path: String) -> (r: MethodCall)
    ensures
        calls(r, device_path@, PROPERTIES_INTERFACE@, "GetAll"@),
        r.args matches CallArgs::Interface(i) && i@ == DEVICE_INTERFACE@,
{
    let args = CallArgs::Interface(String::from_str(DEVICE_INTERFACE));
    method_call(device_path, PROPERTIES_INTERFACE, "GetAll", args)
}

} // verus!
