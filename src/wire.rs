//! Dynamically typed values as they arrive from the bus, string-keyed maps
//! of them, and the coercions that read one typed value out of a wire value.
use vstd::prelude::*;

verus! {

/// One value of the bus's self-describing encoding.
///
/// Every shape the records read has a variant of its own; the remaining
/// shapes (floating-point numbers, dictionaries, structures, descriptors)
/// are carried as `Other`, since no record field accepts them.
pub enum WireValue {
    U8(u8),
    Bool(bool),
    I16(i16),
    U16(u16),
    I32(i32),
    U32(u32),
    I64(i64),
    U64(u64),
    Str(String),
    ObjectPath(String),
    Signature(String),
    Array(Vec<WireValue>),
    /// A value wrapped once more in a variant.
    Variant(Box<WireValue>),
    Other,
}

/// The value stored under `key` in an association list: the first entry
/// whose key is `key`, or `None`.
pub open spec fn assoc_get<V>(entries: Seq<(String, V)>, key: Seq<char>) -> Option<V>
    decreases entries.len(),
{
    if entries.len() == 0 {
        None
    } else if entries[0].0@ == key {
        Some(entries[0].1)
    } else {
        assoc_get(entries.drop_first(), key)
    }
}

proof fn lemma_assoc_get_at<V>(entries: Seq<(String, V)>, key: Seq<char>, i: int)
    requires
        0 <= i < entries.len(),
        entries[i].0@ == key,
        forall|j: int| 0 <= j < i ==> entries[j].0@ != key,
    ensures
        assoc_get(entries, key) == Some(entries[i].1),
    decreases i,
{
    if i > 0 {
        lemma_assoc_get_at(entries.drop_first(), key, i - 1);
    }
}

proof fn lemma_assoc_get_absent<V>(entries: Seq<(String, V)>, key: Seq<char>)
    requires
        forall|j: int| 0 <= j < entries.len() ==> entries[j].0@ != key,
    ensures
        assoc_get(entries, key) is None,
    decreases entries.len(),
{
    if entries.len() > 0 {
        lemma_assoc_get_absent(entries.drop_first(), key);
    }
}

proof fn lemma_assoc_get_update<V>(
    entries: Seq<(String, V)>,
    i: int,
    entry: (String, V),
    key: Seq<char>,
)
    requires
        0 <= i < entries.len(),
        entries[i].0@ == entry.0@,
        forall|j: int| 0 <= j < i ==> entries[j].0@ != entry.0@,
    ensures
        assoc_get(entries.update(i, entry), key) == if key == entry.0@ {
            Some(entry.1)
        } else {
            assoc_get(entries, key)
        },
    decreases i,
{
    reveal_with_fuel(assoc_get, 2);
    if i > 0 {
        assert(entries.update(i, entry).drop_first() =~= entries.drop_first().update(i - 1, entry));
        lemma_assoc_get_update(entries.drop_first(), i - 1, entry, key);
    } else {
        assert(entries.update(i, entry).drop_first() =~= entries.drop_first());
    }
}

proof fn lemma_assoc_get_push<V>(entries: Seq<(String, V)>, entry: (String, V), key: Seq<char>)
    requires
        forall|j: int| 0 <= j < entries.len() ==> entries[j].0@ != entry.0@,
    ensures
        assoc_get(entries.push(entry), key) == if key == entry.0@ {
            Some(entry.1)
        } else {
            assoc_get(entries, key)
        },
    decreases entries.len(),
{
    reveal_with_fuel(assoc_get, 2);
    if entries.len() > 0 {
        assert(entries.push(entry).drop_first() =~= entries.drop_first().push(entry));
        lemma_assoc_get_push(entries.drop_first(), entry, key);
    } else {
        assert(entries.push(entry).drop_first() =~= Seq::<(String, V)>::empty());
    }
}

/// A map from names to values, kept as a list of entries with distinct names.
pub struct StrMap<V> {
    entries: Vec<(String, V)>,
}

/// A property bag: field name to wire value.
pub type PropertyBag = StrMap<WireValue>;

impl<V> View for StrMap<V> {
    type V = Map<Seq<char>, V>;

    closed spec fn view(&self) -> Map<Seq<char>, V> {
        Map::new(
            |k: Seq<char>| assoc_get(self.entries@, k) is Some,
            |k: Seq<char>| assoc_get(self.entries@, k)->Some_0,
        )
    }
}

/// What a map holds under `key`, as an option.
pub open spec fn entry_of<V>(m: Map<Seq<char>, V>, key: Seq<char>) -> Option<V> {
    if m.contains_key(key) {
        Some(m[key])
    } else {
        None
    }
}

impl<V> StrMap<V> {
    /// The empty map.
    pub fn new() -> (r: Self)
        ensures
            r@ == Map::<Seq<char>, V>::empty(),
    {
        let r = StrMap { entries: Vec::new() };
        assert(r@ =~= Map::<Seq<char>, V>::empty());
        r
    }

    /// The index of the entry named `key`, if any.
    fn position(&self, key: &str) -> (r: Option<usize>)
        ensures
            match r {
                Some(i) => {
                    &&& i < self.entries@.len()
                    &&& self.entries@[i as int].0@ == key@
                    &&& forall|j: int| 0 <= j < i ==> self.entries@[j].0@ != key@
                },
                None => forall|j: int|
                    0 <= j < self.entries@.len() ==> self.entries@[j].0@ != key@,
            },
    {
        let wanted = String::from_str(key);
        let mut i: usize = 0;
        while i < self.entries.len()
            invariant
                wanted@ == key@,
                i <= self.entries@.len(),
                forall|j: int| 0 <= j < i ==> self.entries@[j].0@ != key@,
            decreases self.entries@.len() - i,
        {
            if self.entries[i].0 == wanted {
                return Some(i);
            }
            i = i + 1;
        }
        None
    }

    /// The value stored under `key`.
    pub fn get(&self, key: &str) -> (r: Option<&V>)
        ensures
            r matches Some(v) ==> entry_of(self@, key@) == Some(*v),
            r is None ==> entry_of(self@, key@) is None,
    {
        match self.position(key) {
            Some(i) => {
                proof {
                    lemma_assoc_get_at(self.entries@, key@, i as int);
                }
                Some(&self.entries[i].1)
            },
            None => {
                proof {
                    lemma_assoc_get_absent(self.entries@, key@);
                }
                None
            },
        }
    }

    /// Stores `value` under `key`, replacing what was stored there.
    pub fn insert(&mut self, key: String, value: V)
        ensures
            final(self)@ == old(self)@.insert(key@, value),
    {
        let ghost k = key@;
        match self.position(key.as_str()) {
            Some(i) => {
                let ghost before = self.entries@;
                self.entries.set(i, (key, value));
                proof {
                    assert forall|q: Seq<char>|
                        #![auto]
                        assoc_get(self.entries@, q) == if q == k {
                            Some(value)
                        } else {
                            assoc_get(before, q)
                        } by {
                        lemma_assoc_get_update::<V>(before, i as int, (key, value), q);
                    }
                }
                assert(self@ =~= old(self)@.insert(k, value));
            },
            None => {
                let ghost before = self.entries@;
                self.entries.push((key, value));
                proof {
                    assert forall|q: Seq<char>|
                        #![auto]
                        assoc_get(self.entries@, q) == if q == k {
                            Some(value)
                        } else {
                            assoc_get(before, q)
                        } by {
                        lemma_assoc_get_push::<V>(before, (key, value), q);
                    }
                }
                assert(self@ =~= old(self)@.insert(k, value));
            },
        }
    }
}

// Coercions. Each reads one target type and accepts exactly the wire shape
// of that type; any other shape reads as nothing.

pub open spec fn as_bool(v: WireValue) -> Option<bool> {
    match v {
        WireValue::Bool(b) => Some(b),
        _ => None,
    }
}

pub open spec fn as_u16(v: WireValue) -> Option<u16> {
    match v {
        WireValue::U16(n) => Some(n),
        _ => None,
    }
}

pub open spec fn as_i16(v: WireValue) -> Option<i16> {
    match v {
        WireValue::I16(n) => Some(n),
        _ => None,
    }
}

pub open spec fn as_u32(v: WireValue) -> Option<u32> {
    match v {
        WireValue::U32(n) => Some(n),
        _ => None,
    }
}

pub open spec fn as_text(v: WireValue) -> Option<Seq<char>> {
    match v {
        WireValue::Str(s) => Some(s@),
        _ => None,
    }
}

pub open spec fn as_object_path(v: WireValue) -> Option<Seq<char>> {
    match v {
        WireValue::ObjectPath(s) => Some(s@),
        _ => None,
    }
}

/// An element of a string array: a string, or a string wrapped in a variant.
pub open spec fn as_text_element(v: WireValue) -> Option<Seq<char>> {
    match v {
        WireValue::Variant(inner) => as_text(*inner),
        _ => as_text(v),
    }
}

/// A string array: an array all of whose elements read as strings.
pub open spec fn as_text_list(v: WireValue) -> Option<Seq<Seq<char>>> {
    match v {
        WireValue::Array(items) => if forall|i: int|
            0 <= i < items@.len() ==> (#[trigger] as_text_element(items@[i])) is Some {
            Some(items@.map_values(|e: WireValue| as_text_element(e)->Some_0))
        } else {
            None
        },
        _ => None,
    }
}

pub fn to_bool(v: &WireValue) -> (r: Option<bool>)
    ensures
        r == as_bool(*v),
{
    match v {
        WireValue::Bool(b) => Some(*b),
        _ => None,
    }
}

pub fn to_u16(v: &WireValue) -> (r: Option<u16>)
    ensures
        r == as_u16(*v),
{
    match v {
        WireValue::U16(n) => Some(*n),
        _ => None,
    }
}

pub fn to_i16(v: &WireValue) -> (r: Option<i16>)
    ensures
        r == as_i16(*v),
{
    match v {
        WireValue::I16(n) => Some(*n),
        _ => None,
    }
}

pub fn to_u32(v: &WireValue) -> (r: Option<u32>)
    ensures
        r == as_u32(*v),
{
    match v {
        WireValue::U32(n) => Some(*n),
        _ => None,
    }
}

/// The view of an optional string.
pub open spec fn opt_text(o: Option<String>) -> Option<Seq<char>> {
    match o {
        Some(s) => Some(s@),
        None => None,
    }
}

pub fn to_text(v: &WireValue) -> (r: Option<String>)
    ensures
        opt_text(r) == as_text(*v),
{
    match v {
        WireValue::Str(s) => Some(s.clone()),
        _ => None,
    }
}

pub fn to_object_path(v: &WireValue) -> (r: Option<String>)
    ensures
        opt_text(r) == as_object_path(*v),
{
    match v {
        WireValue::ObjectPath(s) => Some(s.clone()),
        _ => None,
    }
}

fn to_text_element(v: &WireValue) -> (r: Option<String>)
    ensures
        opt_text(r) == as_text_element(*v),
{
    match v {
        WireValue::Variant(inner) => to_text(inner),
        _ => to_text(v),
    }
}

/// The views of a list of strings.
pub open spec fn texts(v: Seq<String>) -> Seq<Seq<char>> {
    v.map_values(|s: String| s@)
}

pub fn to_text_list(v: &WireValue) -> (r: Option<Vec<String>>)
    ensures
        r matches Some(l) ==> as_text_list(*v) == Some(texts(l@)),
        r is None ==> as_text_list(*v) is None,
{
    match v {
        WireValue::Array(items) => {
            let mut out: Vec<String> = Vec::new();
            let mut i: usize = 0;
            while i < items.len()
                invariant
                    *v == WireValue::Array(*items),
                    i <= items@.len(),
                    out@.len() == i,
                    forall|j: int| 0 <= j < i ==> (#[trigger] as_text_element(items@[j])) is Some,
                    forall|j: int|
                        0 <= j < i ==> out@[j]@ == (#[trigger] as_text_element(items@[j]))->Some_0,
                decreases items@.len() - i,
            {
                match to_text_element(&items[i]) {
                    Some(s) => out.push(s),
                    None => {
                        assert(as_text_element(items@[i as int]) is None);
                        return None;
                    },
                }
                i = i + 1;
            }
            assert(texts(out@) =~= items@.map_values(|e: WireValue| as_text_element(e)->Some_0));
            Some(out)
        },
        _ => None,
    }
}

} // verus!
