//! The notification listener as a state machine.
//!
//! The caller owns the message stream. For each message it asks `accept`
//! whether the message is one of the service's notifications and of which
//! kind, reads the body into a `Notification`, and hands it to `handle`.
//! An action either emits events at once or asks for one object's property
//! bag; the caller performs that call and hands the reply to `resolved`.
//! A listener takes one notification at a time: while a fetch is pending it
//! accepts no other, so notifications are resolved in stream order.
use vstd::prelude::*;
use crate::catalog::{adapter_of, device_of, ManagedObject, ADAPTER_INTERFACE, DEVICE_INTERFACE};
use crate::control::{
    adapter_snapshot_request, calls, device_snapshot_request, CallArgs, MethodCall,
    OBJECT_MANAGER_INTERFACE, PROPERTIES_INTERFACE, SERVICE_NAME,
};
use crate::decode::{adapter_info_from_props, decode_adapter, decode_device, device_info_from_props};
use crate::error::{error_text, joined, Error};
use crate::events::{event_views, ChangeEvent, EventView};
use crate::wire::{opt_text, texts, PropertyBag};

verus! {

/// The kinds of notification the listener acts on.
#[derive(Debug, Clone, Copy)]
pub enum SignalKind {
    InterfacesAdded,
    InterfacesRemoved,
    PropertiesChanged,
    DeviceConnected,
    DeviceDisconnected,
}

/// The header fields of a signal that the listener reads.
pub struct SignalHeader {
    pub sender: Option<String>,
    pub interface: Option<String>,
    pub member: Option<String>,
    pub path: Option<String>,
}

/// A notification, its body read.
pub enum Notification {
    /// An object appeared, with a full property bag per interface.
    ObjectAdded(ManagedObject),
    /// Interfaces of the object at `path` went away.
    ObjectRemoved { path: String, interfaces: Vec<String> },
    /// Properties of `interface` changed on the object at `path`.
    PropertiesChanged { path: Option<String>, interface: String },
    DeviceConnected { path: Option<String> },
    DeviceDisconnected { path: Option<String> },
    /// The body did not have the shape of its kind; `detail` says how.
    Malformed { kind: SignalKind, detail: String },
}

/// What a pending property-bag fetch is for.
#[derive(Debug, Clone, Copy)]
pub enum Purpose {
    AdapterChanged,
    DeviceChanged,
    DeviceConnected,
    DeviceDisconnected,
}

pub enum Phase {
    /// Ready for the next notification.
    Idle,
    /// Waiting for the property bag of the object at `path`.
    Resolving { path: String, purpose: Purpose },
    /// The stream broke; nothing more is processed.
    Stopped,
}

pub enum PhaseView {
    Idle,
    Resolving { path: Seq<char>, purpose: Purpose },
    Stopped,
}

impl View for Phase {
    type V = PhaseView;

    open spec fn view(&self) -> PhaseView {
        match self {
            Phase::Idle => PhaseView::Idle,
            Phase::Resolving { path, purpose } => PhaseView::Resolving {
                path: path@,
                purpose: *purpose,
            },
            Phase::Stopped => PhaseView::Stopped,
        }
    }
}

/// What the caller is to do after a notification.
pub enum Action {
    /// Deliver these events, in order.
    Emit(Vec<ChangeEvent>),
    /// Make this call and hand its reply to `Listener::resolved`.
    Fetch(MethodCall),
}

pub enum ActionView {
    Emit(Seq<EventView>),
    Fetch { path: Seq<char>, purpose: Purpose },
}

/// The interface whose property bag a fetch for `purpose` reads.
pub open spec fn fetched_interface(purpose: Purpose) -> Seq<char> {
    match purpose {
        Purpose::AdapterChanged => ADAPTER_INTERFACE@,
        _ => DEVICE_INTERFACE@,
    }
}

/// Whether the action `a` is the one that `v` describes.
pub open spec fn action_is(a: Action, v: ActionView) -> bool {
    match v {
        ActionView::Emit(events) => match a {
            Action::Emit(es) => event_views(es@) == events,
            Action::Fetch(_) => false,
        },
        ActionView::Fetch { path, purpose } => match a {
            Action::Fetch(c) => {
                &&& calls(c, path, PROPERTIES_INTERFACE@, "GetAll"@)
                &&& c.args matches CallArgs::Interface(i) && i@ == fetched_interface(purpose)
            },
            Action::Emit(_) => false,
        },
    }
}

pub struct Listener {
    /// The unique bus name that owns the service's name, when known.
    service_owner: Option<String>,
    phase: Phase,
}

pub struct ListenerView {
    pub service_owner: Option<Seq<char>>,
    pub phase: PhaseView,
}

impl View for Listener {
    type V = ListenerView;

    closed spec fn view(&self) -> ListenerView {
        ListenerView { service_owner: opt_text(self.service_owner), phase: self.phase@ }
    }
}

/// Whether a message from `sender` comes from the service: it names the
/// service itself, or the unique name that owns it.
pub open spec fn from_service(sender: Option<Seq<char>>, owner: Option<Seq<char>>) -> bool {
    sender == Some(SERVICE_NAME@) || (owner is Some && sender == owner)
}

/// The kind of a signal with this interface and member, if the listener
/// acts on it.
pub open spec fn classify_spec(interface: Option<Seq<char>>, member: Option<Seq<char>>) -> Option<
    SignalKind,
> {
    if interface == Some(OBJECT_MANAGER_INTERFACE@) && member == Some("InterfacesAdded"@) {
        Some(SignalKind::InterfacesAdded)
    } else if interface == Some(OBJECT_MANAGER_INTERFACE@) && member == Some("InterfacesRemoved"@) {
        Some(SignalKind::InterfacesRemoved)
    } else if interface == Some(PROPERTIES_INTERFACE@) && member == Some("PropertiesChanged"@) {
        Some(SignalKind::PropertiesChanged)
    } else if interface == Some(DEVICE_INTERFACE@) && member == Some("Connected"@) {
        Some(SignalKind::DeviceConnected)
    } else if interface == Some(DEVICE_INTERFACE@) && member == Some("Disconnected"@) {
        Some(SignalKind::DeviceDisconnected)
    } else {
        None
    }
}

/// The member name of signals of `kind`.
pub open spec fn kind_label(kind: SignalKind) -> Seq<char> {
    match kind {
        SignalKind::InterfacesAdded => "InterfacesAdded"@,
        SignalKind::InterfacesRemoved => "InterfacesRemoved"@,
        SignalKind::PropertiesChanged => "PropertiesChanged"@,
        SignalKind::DeviceConnected => "Connected"@,
        SignalKind::DeviceDisconnected => "Disconnected"@,
    }
}

/// The events for an object that appeared: one for its adapter interface,
/// then one for its device interface, each only when present.
pub open spec fn added_events(o: ManagedObject) -> Seq<EventView> {
    let adapter = match adapter_of(o) {
        Some(a) => seq![EventView::AdapterAdded(a)],
        None => Seq::empty(),
    };
    let device = match device_of(o) {
        Some(d) => seq![EventView::DeviceAdded(d)],
        None => Seq::empty(),
    };
    adapter + device
}

/// The events for interfaces that went away from the object at `path`: one
/// for the adapter interface, then one for the device interface, each only
/// when named. They carry the path alone.
pub open spec fn removed_events(path: Seq<char>, interfaces: Seq<Seq<char>>) -> Seq<EventView> {
    let adapter = if interfaces.contains(ADAPTER_INTERFACE@) {
        seq![EventView::AdapterRemoved(path)]
    } else {
        Seq::empty()
    };
    let device = if interfaces.contains(DEVICE_INTERFACE@) {
        seq![EventView::DeviceRemoved(path)]
    } else {
        Seq::empty()
    };
    adapter + device
}

pub open spec fn fetch_for(path: Seq<char>, purpose: Purpose) -> (PhaseView, ActionView) {
    (PhaseView::Resolving { path, purpose }, ActionView::Fetch { path, purpose })
}

pub open spec fn emit(events: Seq<EventView>) -> (PhaseView, ActionView) {
    (PhaseView::Idle, ActionView::Emit(events))
}

/// The phase that follows a notification, and the action it calls for.
pub open spec fn on_notification(n: Notification) -> (PhaseView, ActionView) {
    match n {
        Notification::ObjectAdded(o) => emit(added_events(o)),
        Notification::ObjectRemoved { path, interfaces } => emit(
            removed_events(path@, texts(interfaces@)),
        ),
        Notification::PropertiesChanged { path, interface } => match path {
            None => emit(seq![EventView::DecodeError("PropertiesChanged signal without path"@)]),
            Some(p) => if interface@ == ADAPTER_INTERFACE@ {
                fetch_for(p@, Purpose::AdapterChanged)
            } else if interface@ == DEVICE_INTERFACE@ {
                fetch_for(p@, Purpose::DeviceChanged)
            } else {
                emit(Seq::empty())
            },
        },
        Notification::DeviceConnected { path } => match path {
            Some(p) => fetch_for(p@, Purpose::DeviceConnected),
            None => emit(Seq::empty()),
        },
        Notification::DeviceDisconnected { path } => match path {
            Some(p) => fetch_for(p@, Purpose::DeviceDisconnected),
            None => emit(Seq::empty()),
        },
        Notification::Malformed { kind, detail } => emit(
            seq![EventView::DecodeError("Error decoding "@ + kind_label(kind) + ": "@ + detail@)],
        ),
    }
}

/// The events that a fetched property bag, or the failure to fetch it,
/// gives for the object at `path`. A failed fetch after a property change
/// gives one decode error; after a connection signal it gives nothing.
pub open spec fn on_snapshot(
    path: Seq<char>,
    purpose: Purpose,
    reply: Result<PropertyBag, Error>,
) -> Seq<EventView> {
    match reply {
        Ok(bag) => match purpose {
            Purpose::AdapterChanged => seq![
                EventView::AdapterPropertyChanged(decode_adapter(path, bag@)),
            ],
            Purpose::DeviceChanged => seq![
                EventView::DevicePropertyChanged(decode_device(path, bag@)),
            ],
            Purpose::DeviceConnected => seq![EventView::DeviceConnected(decode_device(path, bag@))],
            Purpose::DeviceDisconnected => seq![
                EventView::DeviceDisconnected(decode_device(path, bag@)),
            ],
        },
        Err(e) => match purpose {
            Purpose::AdapterChanged => seq![
                EventView::DecodeError("Error getting adapter state: "@ + error_text(e)),
            ],
            Purpose::DeviceChanged => seq![
                EventView::DecodeError("Error getting device info: "@ + error_text(e)),
            ],
            _ => Seq::empty(),
        },
    }
}

fn is_text(o: &Option<String>, s: &str) -> (r: bool)
    ensures
        r == (opt_text(*o) == Some(s@)),
{
    match o {
        Some(t) => *t == String::from_str(s),
        None => false,
    }
}

/// The kind of a signal with this interface and member, if the listener
/// acts on it.
pub fn classify(interface: &Option<String>, member: &Option<String>) -> (r: Option<SignalKind>)
    ensures
        r == classify_spec(opt_text(*interface), opt_text(*member)),
{
    if is_text(interface, OBJECT_MANAGER_INTERFACE) && is_text(member, "InterfacesAdded") {
        Some(SignalKind::InterfacesAdded)
    } else if is_text(interface, OBJECT_MANAGER_INTERFACE) && is_text(member, "InterfacesRemoved") {
        Some(SignalKind::InterfacesRemoved)
    } else if is_text(interface, PROPERTIES_INTERFACE) && is_text(member, "PropertiesChanged") {
        Some(SignalKind::PropertiesChanged)
    } else if is_text(interface, DEVICE_INTERFACE) && is_text(member, "Connected") {
        Some(SignalKind::DeviceConnected)
    } else if is_text(interface, DEVICE_INTERFACE) && is_text(member, "Disconnected") {
        Some(SignalKind::DeviceDisconnected)
    } else {
        None
    }
}

fn kind_name(kind: SignalKind) -> (r: &'static str)
    ensures
        r@ == kind_label(kind),
{
    match kind {
        SignalKind::InterfacesAdded => "InterfacesAdded",
        SignalKind::InterfacesRemoved => "InterfacesRemoved",
        SignalKind::PropertiesChanged => "PropertiesChanged",
        SignalKind::DeviceConnected => "Connected",
        SignalKind::DeviceDisconnected => "Disconnected",
    }
}

fn names_contain(names: &Vec<String>, name: &str) -> (r: bool)
    ensures
        r == texts(names@).contains(name@),
{
    let wanted = String::from_str(name);
    let mut i: usize = 0;
    while i < names.len()
        invariant
            wanted@ == name@,
            i <= names@.len(),
            forall|j: int| 0 <= j < i ==> names@[j]@ != name@,
        decreases names@.len() - i,
    {
        if names[i] == wanted {
            assert(texts(names@)[i as int] == name@);
            return true;
        }
        i = i + 1;
    }
    assert forall|j: int| 0 <= j < texts(names@).len() implies texts(names@)[j] != name@ by {}
    false
}

fn added_events_of(o: &ManagedObject) -> (r: Vec<ChangeEvent>)
    ensures
        event_views(r@) == added_events(*o),
{
    let mut r: Vec<ChangeEvent> = Vec::new();
    match o.interfaces.get(ADAPTER_INTERFACE) {
        Some(bag) => r.push(ChangeEvent::AdapterAdded(adapter_info_from_props(o.path.clone(), bag))),
        None => {},
    }
    let ghost first = r@;
    match o.interfaces.get(DEVICE_INTERFACE) {
        Some(bag) => r.push(ChangeEvent::DeviceAdded(device_info_from_props(o.path.clone(), bag))),
        None => {},
    }
    assert(event_views(r@) =~= added_events(*o));
    r
}

fn removed_events_of(path: String, interfaces: &Vec<String>) -> (r: Vec<ChangeEvent>)
    ensures
        event_views(r@) == removed_events(path@, texts(interfaces@)),
{
    let mut r: Vec<ChangeEvent> = Vec::new();
    if names_contain(interfaces, ADAPTER_INTERFACE) {
        r.push(ChangeEvent::AdapterRemoved(path.clone()));
    }
    if names_contain(interfaces, DEVICE_INTERFACE) {
        r.push(ChangeEvent::DeviceRemoved(path));
    }
    assert(event_views(r@) =~= removed_events(path@, texts(interfaces@)));
    r
}

fn decode_error(text: String) -> (r: Vec<ChangeEvent>)
    ensures
        event_views(r@) == seq![EventView::DecodeError(text@)],
{
    let r = vec![ChangeEvent::DecodeError(text)];
    assert(event_views(r@) =~= seq![EventView::DecodeError(text@)]);
    r
}

fn no_events() -> (r: Vec<ChangeEvent>)
    ensures
        event_views(r@) == Seq::<EventView>::empty(),
{
    let r: Vec<ChangeEvent> = Vec::new();
    assert(event_views(r@) =~= Seq::<EventView>::empty());
    r
}

impl Listener {
    /// A listener for the service whose name is owned by `service_owner`
    /// (when that could be resolved), ready for its first notification.
    pub fn new(service_owner: Option<String>) -> (r: Listener)
        ensures
            r@.service_owner == opt_text(service_owner),
            r@.phase is Idle,
    {
        Listener { service_owner, phase: Phase::Idle }
    }

    pub fn is_idle(&self) -> (r: bool)
        ensures
            r == self@.phase is Idle,
    {
        self.phase matches Phase::Idle
    }

    pub fn is_resolving(&self) -> (r: bool)
        ensures
            r == self@.phase is Resolving,
    {
        self.phase matches Phase::Resolving { .. }
    }

    pub fn is_stopped(&self) -> (r: bool)
        ensures
            r == self@.phase is Stopped,
    {
        self.phase matches Phase::Stopped
    }

    /// The kind of the signal with this header, when it comes from the
    /// service and is of a kind the listener acts on; `None` for any other
    /// traffic on the bus.
    pub fn accept(&self, header: &SignalHeader) -> (r: Option<SignalKind>)
        ensures
            r == if from_service(opt_text(header.sender), self@.service_owner) {
                classify_spec(opt_text(header.interface), opt_text(header.member))
            } else {
                None
            },
    {
        let from_name = is_text(&header.sender, SERVICE_NAME);
        let from_owner = match &self.service_owner {
            Some(owner) => match &header.sender {
                Some(sender) => *sender == *owner,
                None => false,
            },
            None => false,
        };
        if from_name || from_owner {
            classify(&header.interface, &header.member)
        } else {
            None
        }
    }

    fn start_fetch(&mut self, path: String, purpose: Purpose) -> (r: Action)
        ensures
            final(self)@.service_owner == old(self)@.service_owner,
            final(self)@.phase == fetch_for(path@, purpose).0,
            action_is(r, fetch_for(path@, purpose).1),
    {
        let call = match purpose {
            Purpose::AdapterChanged => adapter_snapshot_request(path.clone()),
            _ => device_snapshot_request(path.clone()),
        };
        self.phase = Phase::Resolving { path, purpose };
        Action::Fetch(call)
    }

    /// Processes one notification of the service.
    pub fn handle(&mut self, n: Notification) -> (r: Action)
        requires
            old(self)@.phase is Idle,
        ensures
            final(self)@.service_owner == old(self)@.service_owner,
            final(self)@.phase == on_notification(n).0,
            action_is(r, on_notification(n).1),
    {
        match n {
            Notification::ObjectAdded(o) => Action::Emit(added_events_of(&o)),
            Notification::ObjectRemoved { path, interfaces } => Action::Emit(
                removed_events_of(path, &interfaces),
            ),
            Notification::PropertiesChanged { path, interface } => match path {
                None => Action::Emit(
                    decode_error(String::from_str("PropertiesChanged signal without path")),
                ),
                Some(p) => {
                    if interface == String::from_str(ADAPTER_INTERFACE) {
                        self.start_fetch(p, Purpose::AdapterChanged)
                    } else if interface == String::from_str(DEVICE_INTERFACE) {
                        self.start_fetch(p, Purpose::DeviceChanged)
                    } else {
                        Action::Emit(no_events())
                    }
                },
            },
            Notification::DeviceConnected { path } => match path {
                Some(p) => self.start_fetch(p, Purpose::DeviceConnected),
                None => Action::Emit(no_events()),
            },
            Notification::DeviceDisconnected { path } => match path {
                Some(p) => self.start_fetch(p, Purpose::DeviceDisconnected),
                None => Action::Emit(no_events()),
            },
            Notification::Malformed { kind, detail } => {
                let mut text = joined("Error decoding ", kind_name(kind));
                text.append(": ");
                text.append(detail.as_str());
                Action::Emit(decode_error(text))
            },
        }
    }

    /// Takes the reply to the pending fetch and returns the events it
    /// gives. The listener is ready for the next notification afterwards,
    /// whatever the reply: a failed fetch is not retried.
    pub fn resolved(&mut self, reply: Result<PropertyBag, Error>) -> (r: Vec<ChangeEvent>)
        requires
            old(self)@.phase is Resolving,
        ensures
            final(self)@.service_owner == old(self)@.service_owner,
            final(self)@.phase is Idle,
            event_views(r@) == on_snapshot(
                old(self)@.phase->path,
                old(self)@.phase->purpose,
                reply,
            ),
    {
        let mut phase = Phase::Idle;
        std::mem::swap(&mut self.phase, &mut phase);
        let (path, purpose) = match phase {
            Phase::Resolving { path, purpose } => (path, purpose),
            _ => {
                assert(false);
                return no_events();
            },
        };
        match reply {
            Ok(bag) => {
                let event = match purpose {
                    Purpose::AdapterChanged => ChangeEvent::AdapterPropertyChanged(
                        adapter_info_from_props(path, &bag),
                    ),
                    Purpose::DeviceChanged => ChangeEvent::DevicePropertyChanged(
                        device_info_from_props(path, &bag),
                    ),
                    Purpose::DeviceConnected => ChangeEvent::DeviceConnected(
                        device_info_from_props(path, &bag),
                    ),
                    Purpose::DeviceDisconnected => ChangeEvent::DeviceDisconnected(
                        device_info_from_props(path, &bag),
                    ),
                };
                let r = vec![event];
                assert(event_views(r@) =~= seq![event@]);
                r
            },
            Err(e) => match purpose {
                Purpose::AdapterChanged => decode_error(
                    joined("Error getting adapter state: ", e.message().as_str()),
                ),
                Purpose::DeviceChanged => decode_error(
                    joined("Error getting device info: ", e.message().as_str()),
                ),
                _ => no_events(),
            },
        }
    }

    /// The stream broke: returns the one terminal event and stops the
    /// listener for good.
    pub fn stream_failed(&mut self, detail: &str) -> (r: ChangeEvent)
        requires
            !(old(self)@.phase is Stopped),
        ensures
            final(self)@.service_owner == old(self)@.service_owner,
            final(self)@.phase is Stopped,
            r@ == EventView::TransportError("D-Bus stream error: "@ + detail@),
    {
        self.phase = Phase::Stopped;
        ChangeEvent::TransportError(joined("D-Bus stream error: ", detail))
    }
}

/// A removal notification that names the device interface yields a
/// device-removed event carrying the object's bare path. The outcome depends
/// on the notification alone: no earlier addition is needed, and no record
/// is looked up.
pub proof fn lemma_device_removal_needs_no_record(path: String, interfaces: Vec<String>)
    requires
        texts(interfaces@).contains(DEVICE_INTERFACE@),
    ensures
        ({
            let (phase, action) = on_notification(
                Notification::ObjectRemoved { path, interfaces },
            );
            &&& phase is Idle
            &&& action matches ActionView::Emit(events) && events.contains(
                EventView::DeviceRemoved(path@),
            )
        }),
{
    let names = texts(interfaces@);
    let events = removed_events(path@, names);
    let adapter = if names.contains(ADAPTER_INTERFACE@) {
        seq![EventView::AdapterRemoved(path@)]
    } else {
        Seq::empty()
    };
    assert(events[adapter.len() as int] == EventView::DeviceRemoved(path@));
}

/// A property change for an object that can no longer be fetched yields
/// exactly one decode-error event: the change asks for a single fetch of
/// that object, and the failed fetch gives one error event (after which
/// `Listener::resolved` leaves the listener idle, with no second fetch).
pub proof fn lemma_unresolvable_change_gives_one_error(
    path: String,
    interface: String,
    failure: Error,
)
    requires
        interface@ == ADAPTER_INTERFACE@ || interface@ == DEVICE_INTERFACE@,
    ensures
        ({
            let (phase, action) = on_notification(
                Notification::PropertiesChanged { path: Some(path), interface },
            );
            &&& phase matches PhaseView::Resolving { path: p, purpose } && p == path@
            &&& action == ActionView::Fetch { path: path@, purpose: phase->purpose }
            &&& on_snapshot(path@, phase->purpose, Err(failure)).len() == 1
            &&& on_snapshot(path@, phase->purpose, Err(failure))[0] is DecodeError
        }),
{
}

} // verus!
