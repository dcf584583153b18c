//! The managed-object tree and the listings drawn from it.
//!
//! An object takes part as an adapter when it exposes the adapter interface,
//! as a device when it exposes the device interface; an object with neither
//! is no domain entity and is skipped. A device belongs to an adapter when
//! the adapter's path is a prefix of the device's path.
use vstd::prelude::*;
use crate::decode::{adapter_info_from_props, decode_adapter, decode_device, device_info_from_props};
use crate::models::{AdapterInfo, AdapterView, DeviceInfo, DeviceView};
use crate::wire::{PropertyBag, StrMap};

verus! {

/// The interface that marks an object as an adapter.
pub const ADAPTER_INTERFACE: &'static str = "org.bluez.Adapter1";

/// The interface that marks an object as a device.
pub const DEVICE_INTERFACE: &'static str = "org.bluez.Device1";

/// One object of the tree: its path, and a property bag per interface.
pub struct ManagedObject {
    pub path: String,
    pub interfaces: StrMap<PropertyBag>,
}

pub open spec fn adapter_views(s: Seq<AdapterInfo>) -> Seq<AdapterView> {
    s.map_values(|a: AdapterInfo| a@)
}

pub open spec fn device_views(s: Seq<DeviceInfo>) -> Seq<DeviceView> {
    s.map_values(|d: DeviceInfo| d@)
}

/// The adapter record of `o`, when `o` exposes the adapter interface.
pub open spec fn adapter_of(o: ManagedObject) -> Option<AdapterView> {
    if o.interfaces@.contains_key(ADAPTER_INTERFACE@) {
        Some(decode_adapter(o.path@, o.interfaces@[ADAPTER_INTERFACE@]@))
    } else {
        None
    }
}

/// The device record of `o`, when `o` exposes the device interface.
pub open spec fn device_of(o: ManagedObject) -> Option<DeviceView> {
    if o.interfaces@.contains_key(DEVICE_INTERFACE@) {
        Some(decode_device(o.path@, o.interfaces@[DEVICE_INTERFACE@]@))
    } else {
        None
    }
}

/// The adapters of a tree, in the tree's order.
pub open spec fn adapters_in(objects: Seq<ManagedObject>) -> Seq<AdapterView>
    decreases objects.len(),
{
    if objects.len() == 0 {
        Seq::empty()
    } else {
        let rest = adapters_in(objects.drop_last());
        match adapter_of(objects.last()) {
            Some(a) => rest.push(a),
            None => rest,
        }
    }
}

/// The devices of a tree whose path starts with `adapter`, in the tree's order.
pub open spec fn devices_in(objects: Seq<ManagedObject>, adapter: Seq<char>) -> Seq<DeviceView>
    decreases objects.len(),
{
    if objects.len() == 0 {
        Seq::empty()
    } else {
        let rest = devices_in(objects.drop_last(), adapter);
        let o = objects.last();
        match device_of(o) {
            Some(d) => if adapter.is_prefix_of(o.path@) {
                rest.push(d)
            } else {
                rest
            },
            None => rest,
        }
    }
}

/// The devices of a tree whose path starts with `adapter` and that decode
/// as paired, in the tree's order.
pub open spec fn paired_devices_in(objects: Seq<ManagedObject>, adapter: Seq<char>) -> Seq<
    DeviceView,
>
    decreases objects.len(),
{
    if objects.len() == 0 {
        Seq::empty()
    } else {
        let rest = paired_devices_in(objects.drop_last(), adapter);
        let o = objects.last();
        match device_of(o) {
            Some(d) => if adapter.is_prefix_of(o.path@) && d.paired {
                rest.push(d)
            } else {
                rest
            },
            None => rest,
        }
    }
}

/// Whether `s` starts with `prefix`.
pub fn starts_with(s: &str, prefix: &str) -> (r: bool)
    ensures
        r == prefix@.is_prefix_of(s@),
{
    let n = prefix.unicode_len();
    let m = s.unicode_len();
    if n > m {
        return false;
    }
    let head = String::from_str(s.substring_char(0, n));
    let wanted = String::from_str(prefix);
    let r = head == wanted;
    assert(r == (prefix@ =~= s@.subrange(0, prefix@.len() as int)));
    r
}

/// Every adapter of the tree, decoded.
pub fn list_adapters(objects: &Vec<ManagedObject>) -> (r: Vec<AdapterInfo>)
    ensures
        adapter_views(r@) == adapters_in(objects@),
{
    let mut out: Vec<AdapterInfo> = Vec::new();
    let mut i: usize = 0;
    while i < objects.len()
        invariant
            i <= objects@.len(),
            adapter_views(out@) == adapters_in(objects@.subrange(0, i as int)),
        decreases objects@.len() - i,
    {
        let o = &objects[i];
        let ghost before = out@;
        match o.interfaces.get(ADAPTER_INTERFACE) {
            Some(bag) => {
                out.push(adapter_info_from_props(o.path.clone(), bag));
                assert(adapter_views(out@) =~= adapter_views(before).push(out@.last()@));
            },
            None => {},
        }
        assert(objects@.subrange(0, i + 1).drop_last() =~= objects@.subrange(0, i as int));
        i = i + 1;
    }
    assert(objects@.subrange(0, objects@.len() as int) =~= objects@);
    out
}

/// Every device of the tree that lies under the adapter at `adapter_path`
/// (its path starts with `adapter_path`), decoded.
pub fn list_devices(objects: &Vec<ManagedObject>, adapter_path: &str) -> (r: Vec<DeviceInfo>)
    ensures
        device_views(r@) == devices_in(objects@, adapter_path@),
{
    let mut out: Vec<DeviceInfo> = Vec::new();
    let mut i: usize = 0;
    while i < objects.len()
        invariant
            i <= objects@.len(),
            device_views(out@) == devices_in(objects@.subrange(0, i as int), adapter_path@),
        decreases objects@.len() - i,
    {
        let o = &objects[i];
        let ghost before = out@;
        if starts_with(o.path.as_str(), adapter_path) {
            match o.interfaces.get(DEVICE_INTERFACE) {
                Some(bag) => {
                    out.push(device_info_from_props(o.path.clone(), bag));
                    assert(device_views(out@) =~= device_views(before).push(out@.last()@));
                },
                None => {},
            }
        }
        assert(objects@.subrange(0, i + 1).drop_last() =~= objects@.subrange(0, i as int));
        i = i + 1;
    }
    assert(objects@.subrange(0, objects@.len() as int) =~= objects@);
    out
}

/// Every device of the tree that lies under the adapter at `adapter_path`
/// and is paired, decoded.
pub fn list_paired_devices(objects: &Vec<ManagedObject>, adapter_path: &str) -> (r: Vec<
    DeviceInfo,
>)
    ensures
        device_views(r@) == paired_devices_in(objects@, adapter_path@),
{
    let mut out: Vec<DeviceInfo> = Vec::new();
    let mut i: usize = 0;
    while i < objects.len()
        invariant
            i <= objects@.len(),
            device_views(out@) == paired_devices_in(
                objects@.subrange(0, i as int),
                adapter_path@,
            ),
        decreases objects@.len() - i,
    {
        let o = &objects[i];
        let ghost before = out@;
        if starts_with(o.path.as_str(), adapter_path) {
            match o.interfaces.get(DEVICE_INTERFACE) {
                Some(bag) => {
                    let device = device_info_from_props(o.path.clone(), bag);
                    if device.paired {
                        out.push(device);
                        assert(device_views(out@) =~= device_views(before).push(out@.last()@));
                    }
                },
                None => {},
            }
        }
        assert(objects@.subrange(0, i + 1).drop_last() =~= objects@.subrange(0, i as int));
        i = i + 1;
    }
    assert(objects@.subrange(0, objects@.len() as int) =~= objects@);
    out
}

/// A device listing for an adapter holds only devices whose path has the
/// adapter's path as a literal prefix; devices of any other adapter, whose
/// paths do not start with it, are left out.
pub proof fn lemma_listed_devices_lie_under_adapter(
    objects: Seq<ManagedObject>,
    adapter: Seq<char>,
)
    ensures
        forall|i: int|
            0 <= i < devices_in(objects, adapter).len() ==> adapter.is_prefix_of(
                #[trigger] devices_in(objects, adapter)[i].path,
            ),
    decreases objects.len(),
{
    if objects.len() > 0 {
        lemma_listed_devices_lie_under_adapter(objects.drop_last(), adapter);
    }
}

/// The paired listing for an adapter is the device listing for that adapter
/// with exactly the devices that decode as paired kept, in the same order;
/// so every paired device listed is also in the device listing.
pub proof fn lemma_paired_listing_filters_device_listing(
    objects: Seq<ManagedObject>,
    adapter: Seq<char>,
)
    ensures
        paired_devices_in(objects, adapter) == devices_in(objects, adapter).filter(
            |d: DeviceView| d.paired,
        ),
        forall|i: int|
            0 <= i < paired_devices_in(objects, adapter).len() ==> {
                &&& (#[trigger] paired_devices_in(objects, adapter)[i]).paired
                &&& devices_in(objects, adapter).contains(paired_devices_in(objects, adapter)[i])
            },
    decreases objects.len(),
{
    let pred = |d: DeviceView| d.paired;
    if objects.len() == 0 {
        reveal(Seq::filter);
    } else {
        lemma_paired_listing_filters_device_listing(objects.drop_last(), adapter);
        let rest = devices_in(objects.drop_last(), adapter);
        match device_of(objects.last()) {
            Some(d) => {
                rest.lemma_filter_push(d, pred);
            },
            None => {},
        }
    }
    let all = devices_in(objects, adapter);
    assert forall|i: int| 0 <= i < paired_devices_in(objects, adapter).len() implies {
        &&& (#[trigger] paired_devices_in(objects, adapter)[i]).paired
        &&& all.contains(paired_devices_in(objects, adapter)[i])
    } by {
        all.lemma_filter_pred(pred, i);
        all.lemma_filter_contains_rev(pred, all.filter(pred)[i]);
    }
}

} // verus!
