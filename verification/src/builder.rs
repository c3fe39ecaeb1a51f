//! Slots that take a value at most once, and the builders of graph elements
//! that collect fields in them.
use vstd::prelude::*;
use crate::convert::owned;
use crate::de::{names, DeError, DeErrorModel};
use crate::text::str_eq;
use crate::types::{map_values, type_model, BoltInteger, BoltList, BoltMap, BoltNode, BoltPath, BoltRelation, BoltString, BoltType, BoltUnboundedRelation};
use crate::model::Value;
use crate::wire::map_put;

verus! {

/// A slot that is either empty or set.
#[derive(Debug, Copy, Clone)]
pub enum SetOnce<T> {
    Empty,
    Filled(T),
}

impl<T> Default for SetOnce<T> {
    fn default() -> (r: Self)
        ensures
            r is Empty,
    {
        SetOnce::Empty
    }
}

/// The error of setting a slot that is already set.
#[derive(Debug, Clone, Copy, PartialEq, Eq, Hash)]
pub struct SetOnceError;

impl<T> SetOnce<T> {
    /// The value of the slot, set first from `value` if the slot is empty.
    pub fn get_or_insert_with(&mut self, value: impl FnOnce() -> T) -> (r: &mut T)
        requires
            *old(self) is Empty ==> value.requires(()),
        ensures
            match *old(self) {
                SetOnce::Filled(v) => *r == v,
                SetOnce::Empty => value.ensures((), *r),
            },
            *final(self) == SetOnce::Filled(*final(r)),
    {
        if let SetOnce::Empty = self {
            *self = SetOnce::Filled(value());
        }
        match self {
            SetOnce::Filled(v) => v,
            SetOnce::Empty => vstd::pervasive::unreached(),
        }
    }

    /// Sets an empty slot from `value` and answers the value; a set slot is
    /// left as it is, `value` is not called and the answer is the error.
    pub fn insert_with(&mut self, value: impl FnOnce() -> T) -> (r: Result<&mut T, SetOnceError>)
        requires
            *old(self) is Empty ==> value.requires(()),
        ensures
            *old(self) is Filled ==> r is Err && *final(self) == *old(self),
            *old(self) is Empty ==> (r matches Ok(x) && value.ensures((), *x) && *final(self) == SetOnce::Filled(*final(x))),
    {
        match self {
            SetOnce::Empty => *self = SetOnce::Filled(value()),
            SetOnce::Filled(_) => return Err(SetOnceError),
        };
        match self {
            SetOnce::Filled(v) => Ok(v),
            SetOnce::Empty => vstd::pervasive::unreached(),
        }
    }

    /// Sets an empty slot from what `value` reads and answers the value; an
    /// error of the read is passed on and leaves the slot empty; a set slot
    /// is left as it is, `value` is not called and the answer is `Ok` of the
    /// error.
    pub fn try_insert_with<E>(&mut self, value: impl FnOnce() -> Result<T, E>) -> (r: Result<Result<&mut T, SetOnceError>, E>)
        requires
            *old(self) is Empty ==> value.requires(()),
        ensures
            *old(self) is Filled ==> (r matches Ok(inner) && inner is Err) && *final(self) == *old(self),
            *old(self) is Empty ==> match r {
                Ok(Ok(x)) => value.ensures((), Ok(*x)) && *final(self) == SetOnce::Filled(*final(x)),
                Ok(Err(_)) => false,
                Err(e) => value.ensures((), Err(e)) && *final(self) is Empty,
            },
    {
        match self {
            SetOnce::Empty => {
                match value() {
                    Ok(v) => *self = SetOnce::Filled(v),
                    Err(e) => return Err(e),
                }
            },
            SetOnce::Filled(_) => return Ok(Err(SetOnceError)),
        };
        match self {
            SetOnce::Filled(v) => Ok(Ok(v)),
            SetOnce::Empty => vstd::pervasive::unreached(),
        }
    }

    /// Takes the value out of the slot, which is left empty.
    pub fn take(&mut self) -> (r: Option<T>)
        ensures
            *final(self) is Empty,
            match *old(self) {
                SetOnce::Filled(v) => r == Some(v),
                SetOnce::Empty => r is None,
            },
    {
        match self {
            SetOnce::Empty => None,
            SetOnce::Filled(_) => {
                let mut taken = SetOnce::Empty;
                std::mem::swap(self, &mut taken);
                let value = match taken {
                    SetOnce::Filled(value) => value,
                    SetOnce::Empty => vstd::pervasive::unreached(),
                };
                Some(value)
            },
        }
    }

    /// The value, or the error that `missing` makes for an empty slot.
    pub fn ok_or_else<E>(self, missing: impl FnOnce() -> E) -> (r: Result<T, E>)
        requires
            self is Empty ==> missing.requires(()),
        ensures
            match self {
                SetOnce::Filled(v) => r == Ok::<T, E>(v),
                SetOnce::Empty => r matches Err(e) && missing.ensures((), e),
            },
    {
        match self {
            SetOnce::Empty => Err(missing()),
            SetOnce::Filled(value) => Ok(value),
        }
    }

    /// The value, or what `missing` makes for an empty slot.
    pub fn or_else(self, missing: impl FnOnce() -> T) -> (r: T)
        requires
            self is Empty ==> missing.requires(()),
        ensures
            match self {
                SetOnce::Filled(v) => r == v,
                SetOnce::Empty => missing.ensures((), r),
            },
    {
        match self {
            SetOnce::Empty => missing(),
            SetOnce::Filled(value) => value,
        }
    }

    /// Whether the slot holds a value.
    pub fn is_set(&self) -> (r: bool)
        ensures
            r == (*self is Filled),
    {
        matches!(self, SetOnce::Filled(_))
    }
}

// ---------------------------------------------------------------- elements

/// Reading a field into `before`, which leaves `after` and answers `r`: a
/// set slot is kept and the repeated field refused; an empty one takes
/// what `read` reads, and a read error is passed on and leaves it empty.
pub open spec fn read_once<T, F: FnOnce() -> Result<T, DeError>>(
    before: SetOnce<T>,
    after: SetOnce<T>,
    read: F,
    r: Result<(), DeError>,
    field: Seq<char>,
) -> bool {
    &&& before is Filled ==> after == before && (r matches Err(e) && e@ == DeErrorModel::DuplicateField { field })
    &&& before is Empty ==> match r {
        Ok(_) => after matches SetOnce::Filled(v) && read.ensures((), Ok(v)),
        Err(e) => after is Empty && read.ensures((), Err(e)),
    }
}

/// Reading one property into the entries `before`, which leaves `after`
/// and answers `r`: the entry that `entry` reads is put, or its read error
/// passed on with the entries unchanged.
pub open spec fn read_entry<F: FnOnce() -> Result<(BoltString, BoltType), DeError>>(
    before: Seq<(Seq<char>, Value)>,
    after: Seq<(Seq<char>, Value)>,
    entry: F,
    r: Result<(), DeError>,
) -> bool {
    match r {
        Ok(_) => exists|k: BoltString, v: BoltType| #[trigger] entry.ensures((), Ok((k, v)))
            && after == map_put(before, k.value@, type_model(v)),
        Err(e) => entry.ensures((), Err(e)) && after == before,
    }
}

/// Reading the value of the property `key` into the entries `before`,
/// which leaves `after` and answers `r`: the value that `read_value` reads
/// is put under `key`, or its read error passed on with the entries
/// unchanged.
pub open spec fn read_value_entry<F: FnOnce() -> Result<BoltType, DeError>>(
    before: Seq<(Seq<char>, Value)>,
    after: Seq<(Seq<char>, Value)>,
    key: Seq<char>,
    read_value: F,
    r: Result<(), DeError>,
) -> bool {
    match r {
        Ok(_) => exists|v: BoltType| #[trigger] read_value.ensures((), Ok(v)) && after == map_put(before, key, type_model(v)),
        Err(e) => read_value.ensures((), Err(e)) && after == before,
    }
}

/// Reading a property (any key but the reserved ones) into the slots
/// `before`: the properties are set and take the value.
pub open spec fn property_read<F: FnOnce() -> Result<BoltType, DeError>>(
    before: ElementBuilder,
    after: ElementBuilder,
    key: Seq<char>,
    read_value: F,
    r: Result<(), DeError>,
) -> bool {
    &&& after == (ElementBuilder { properties: after.properties, ..before })
    &&& after.properties is Filled
    &&& read_value_entry(before.entries(), after.entries(), key, read_value, r)
}

/// Reading the field `key` of a node: `42.<id>` is the id, `42.<labels>`
/// the labels, any other key a property.
pub open spec fn node_field_read<FI, FL, FV>(
    before: ElementBuilder,
    after: ElementBuilder,
    key: Seq<char>,
    read_id: FI,
    read_labels: FL,
    read_value: FV,
    r: Result<(), DeError>,
) -> bool where
    FI: FnOnce() -> Result<BoltInteger, DeError>,
    FL: FnOnce() -> Result<BoltList, DeError>,
    FV: FnOnce() -> Result<BoltType, DeError>,
 {
    if key == "42.<id>"@ {
        after == (ElementBuilder { id: after.id, ..before }) && read_once(before.id, after.id, read_id, r, "id"@)
    } else if key == "42.<labels>"@ {
        after == (ElementBuilder { labels: after.labels, ..before }) && read_once(
            before.labels,
            after.labels,
            read_labels,
            r,
            "labels"@,
        )
    } else {
        property_read(before, after, key, read_value, r)
    }
}

/// Reading the field `key` of a relationship: `42.<id>`, `42.<start_node_id>`
/// and `42.<end_node_id>` are its ids, `42.<type>` its type, any other key
/// a property.
pub open spec fn relation_field_read<FI, FT, FV>(
    before: ElementBuilder,
    after: ElementBuilder,
    key: Seq<char>,
    read_id: FI,
    read_type: FT,
    read_value: FV,
    r: Result<(), DeError>,
) -> bool where
    FI: FnOnce() -> Result<BoltInteger, DeError>,
    FT: FnOnce() -> Result<BoltString, DeError>,
    FV: FnOnce() -> Result<BoltType, DeError>,
 {
    if key == "42.<id>"@ {
        after == (ElementBuilder { id: after.id, ..before }) && read_once(before.id, after.id, read_id, r, "id"@)
    } else if key == "42.<start_node_id>"@ {
        after == (ElementBuilder { start_node_id: after.start_node_id, ..before }) && read_once(
            before.start_node_id,
            after.start_node_id,
            read_id,
            r,
            "start_node_id"@,
        )
    } else if key == "42.<end_node_id>"@ {
        after == (ElementBuilder { end_node_id: after.end_node_id, ..before }) && read_once(
            before.end_node_id,
            after.end_node_id,
            read_id,
            r,
            "end_node_id"@,
        )
    } else if key == "42.<type>"@ {
        after == (ElementBuilder { typ: after.typ, ..before }) && read_once(before.typ, after.typ, read_type, r, "type"@)
    } else {
        property_read(before, after, key, read_value, r)
    }
}

/// Reading the field `key` of a relationship without its nodes: `42.<id>`
/// is its id, `42.<type>` its type, any other key a property.
pub open spec fn unbounded_field_read<FI, FT, FV>(
    before: ElementBuilder,
    after: ElementBuilder,
    key: Seq<char>,
    read_id: FI,
    read_type: FT,
    read_value: FV,
    r: Result<(), DeError>,
) -> bool where
    FI: FnOnce() -> Result<BoltInteger, DeError>,
    FT: FnOnce() -> Result<BoltString, DeError>,
    FV: FnOnce() -> Result<BoltType, DeError>,
 {
    if key == "42.<id>"@ {
        after == (ElementBuilder { id: after.id, ..before }) && read_once(before.id, after.id, read_id, r, "id"@)
    } else if key == "42.<type>"@ {
        after == (ElementBuilder { typ: after.typ, ..before }) && read_once(before.typ, after.typ, read_type, r, "type"@)
    } else {
        property_read(before, after, key, read_value, r)
    }
}

/// Reading the field `key` of a path: `nodes`, `relationships` and
/// `indices` are its lists; any other key is an unknown field.
pub open spec fn path_field_read<F: FnOnce() -> Result<BoltList, DeError>>(
    before: ElementBuilder,
    after: ElementBuilder,
    key: Seq<char>,
    read: F,
    r: Result<(), DeError>,
) -> bool {
    if key == "nodes"@ {
        after == (ElementBuilder { nodes: after.nodes, ..before }) && read_once(before.nodes, after.nodes, read, r, "nodes"@)
    } else if key == "relationships"@ {
        after == (ElementBuilder { rels: after.rels, ..before }) && read_once(before.rels, after.rels, read, r, "relations"@)
    } else if key == "indices"@ {
        after == (ElementBuilder { indices: after.indices, ..before }) && read_once(
            before.indices,
            after.indices,
            read,
            r,
            "indices"@,
        )
    } else {
        after == before && (r matches Err(e) && e@ == DeErrorModel::UnknownField {
            field: key,
            expected: seq!["nodes"@, "relationships"@, "indices"@],
        })
    }
}

/// Sets an empty slot from what `read` reads; a read error is passed on and
/// leaves the slot empty, and a second value for the field is refused.
pub(crate) fn set_once<T>(slot: &mut SetOnce<T>, read: impl FnOnce() -> Result<T, DeError>, field: &'static str) -> (r: Result<(), DeError>)
    requires
        *old(slot) is Empty ==> read.requires(()),
    ensures
        read_once(*old(slot), *final(slot), read, r, field@),
{
    match slot.try_insert_with(read) {
        Ok(Ok(_)) => Ok(()),
        Ok(Err(_)) => Err(DeError::DuplicateField { field }),
        Err(e) => Err(e),
    }
}

/// The entries of a properties slot: none while it is empty.
pub open spec fn slot_entries(slot: SetOnce<BoltMap>) -> Seq<(Seq<char>, Value)> {
    match slot {
        SetOnce::Filled(m) => map_values(m),
        SetOnce::Empty => Seq::empty(),
    }
}

/// The slots of the fields of a graph element while it is read.
#[derive(Debug, Clone)]
pub struct ElementBuilder {
    pub id: SetOnce<BoltInteger>,
    pub start_node_id: SetOnce<BoltInteger>,
    pub end_node_id: SetOnce<BoltInteger>,
    pub labels: SetOnce<BoltList>,
    pub typ: SetOnce<BoltString>,
    pub properties: SetOnce<BoltMap>,
    pub nodes: SetOnce<BoltList>,
    pub rels: SetOnce<BoltList>,
    pub indices: SetOnce<BoltList>,
}

impl Default for ElementBuilder {
    fn default() -> (r: ElementBuilder)
        ensures
            r.empty(),
    {
        ElementBuilder {
            id: SetOnce::Empty,
            start_node_id: SetOnce::Empty,
            end_node_id: SetOnce::Empty,
            labels: SetOnce::Empty,
            typ: SetOnce::Empty,
            properties: SetOnce::Empty,
            nodes: SetOnce::Empty,
            rels: SetOnce::Empty,
            indices: SetOnce::Empty,
        }
    }
}

impl ElementBuilder {
    /// No field is set.
    pub open spec fn empty(&self) -> bool {
        &&& self.id is Empty
        &&& self.start_node_id is Empty
        &&& self.end_node_id is Empty
        &&& self.labels is Empty
        &&& self.typ is Empty
        &&& self.properties is Empty
        &&& self.nodes is Empty
        &&& self.rels is Empty
        &&& self.indices is Empty
    }

    /// The properties read so far form a well-formed map.
    pub open spec fn wf(&self) -> bool {
        self.properties matches SetOnce::Filled(m) ==> m.wf()
    }

    /// The entries of the properties read so far.
    pub open spec fn entries(&self) -> Seq<(Seq<char>, Value)> {
        slot_entries(self.properties)
    }

    /// Reads the id; see `set_once`.
    fn id(&mut self, read: impl FnOnce() -> Result<BoltInteger, DeError>) -> (r: Result<(), DeError>)
        requires
            old(self).id is Empty ==> read.requires(()),
        ensures
            *final(self) == (ElementBuilder { id: final(self).id, ..*old(self) }),
            read_once(old(self).id, final(self).id, read, r, "id"@),
    {
        set_once(&mut self.id, read, "id")
    }

    /// Reads the start node id; see `set_once`.
    fn start_node_id(&mut self, read: impl FnOnce() -> Result<BoltInteger, DeError>) -> (r: Result<(), DeError>)
        requires
            old(self).start_node_id is Empty ==> read.requires(()),
        ensures
            *final(self) == (ElementBuilder { start_node_id: final(self).start_node_id, ..*old(self) }),
            read_once(old(self).start_node_id, final(self).start_node_id, read, r, "start_node_id"@),
    {
        set_once(&mut self.start_node_id, read, "start_node_id")
    }

    /// Reads the end node id; see `set_once`.
    fn end_node_id(&mut self, read: impl FnOnce() -> Result<BoltInteger, DeError>) -> (r: Result<(), DeError>)
        requires
            old(self).end_node_id is Empty ==> read.requires(()),
        ensures
            *final(self) == (ElementBuilder { end_node_id: final(self).end_node_id, ..*old(self) }),
            read_once(old(self).end_node_id, final(self).end_node_id, read, r, "end_node_id"@),
    {
        set_once(&mut self.end_node_id, read, "end_node_id")
    }

    /// Reads the type; see `set_once`.
    fn typ(&mut self, read: impl FnOnce() -> Result<BoltString, DeError>) -> (r: Result<(), DeError>)
        requires
            old(self).typ is Empty ==> read.requires(()),
        ensures
            *final(self) == (ElementBuilder { typ: final(self).typ, ..*old(self) }),
            read_once(old(self).typ, final(self).typ, read, r, "type"@),
    {
        set_once(&mut self.typ, read, "type")
    }

    /// Reads the labels; see `set_once`.
    fn labels(&mut self, read: impl FnOnce() -> Result<BoltList, DeError>) -> (r: Result<(), DeError>)
        requires
            old(self).labels is Empty ==> read.requires(()),
        ensures
            *final(self) == (ElementBuilder { labels: final(self).labels, ..*old(self) }),
            read_once(old(self).labels, final(self).labels, read, r, "labels"@),
    {
        set_once(&mut self.labels, read, "labels")
    }

    /// Reads the nodes; see `set_once`.
    fn nodes(&mut self, read: impl FnOnce() -> Result<BoltList, DeError>) -> (r: Result<(), DeError>)
        requires
            old(self).nodes is Empty ==> read.requires(()),
        ensures
            *final(self) == (ElementBuilder { nodes: final(self).nodes, ..*old(self) }),
            read_once(old(self).nodes, final(self).nodes, read, r, "nodes"@),
    {
        set_once(&mut self.nodes, read, "nodes")
    }

    /// Reads the relations; see `set_once`.
    fn relations(&mut self, read: impl FnOnce() -> Result<BoltList, DeError>) -> (r: Result<(), DeError>)
        requires
            old(self).rels is Empty ==> read.requires(()),
        ensures
            *final(self) == (ElementBuilder { rels: final(self).rels, ..*old(self) }),
            read_once(old(self).rels, final(self).rels, read, r, "relations"@),
    {
        set_once(&mut self.rels, read, "relations")
    }

    /// Reads the indices; see `set_once`.
    fn indices(&mut self, read: impl FnOnce() -> Result<BoltList, DeError>) -> (r: Result<(), DeError>)
        requires
            old(self).indices is Empty ==> read.requires(()),
        ensures
            *final(self) == (ElementBuilder { indices: final(self).indices, ..*old(self) }),
            read_once(old(self).indices, final(self).indices, read, r, "indices"@),
    {
        set_once(&mut self.indices, read, "indices")
    }

    /// Reads the properties; see `set_once`.
    fn properties(&mut self, read: impl FnOnce() -> Result<BoltMap, DeError>) -> (r: Result<(), DeError>)
        requires
            old(self).properties is Empty ==> read.requires(()),
            forall|m: BoltMap| #[trigger] read.ensures((), Ok(m)) ==> m.wf(),
            old(self).wf(),
        ensures
            final(self).wf(),
            *final(self) == (ElementBuilder { properties: final(self).properties, ..*old(self) }),
            read_once(old(self).properties, final(self).properties, read, r, "properties"@),
    {
        set_once(&mut self.properties, read, "properties")
    }

    /// Reads one property and puts it into the properties, which are set to
    /// an empty map first if they are not set yet; an error of the read is
    /// passed on.
    fn insert(&mut self, entry: impl FnOnce() -> Result<(BoltString, BoltType), DeError>) -> (r: Result<(), DeError>)
        requires
            entry.requires(()),
            old(self).wf(),
        ensures
            final(self).wf(),
            *final(self) == (ElementBuilder { properties: final(self).properties, ..*old(self) }),
            final(self).properties is Filled,
            read_entry(old(self).entries(), final(self).entries(), entry, r),
    {
        let props = self.properties.get_or_insert_with(BoltMap::new);
        proof {
            assert(map_values(*props) == old(self).entries());
        }
        let (key, value) = match entry() {
            Ok(kv) => kv,
            Err(e) => return Err(e),
        };
        props.put(key, value);
        Ok(())
    }

    /// Reads the value of the property `key` and puts it into the
    /// properties, which are set to an empty map first if they are not set
    /// yet; an error of the read is passed on.
    fn insert_value(&mut self, key: &str, read_value: impl FnOnce() -> Result<BoltType, DeError>) -> (r: Result<(), DeError>)
        requires
            read_value.requires(()),
            old(self).wf(),
        ensures
            final(self).wf(),
            *final(self) == (ElementBuilder { properties: final(self).properties, ..*old(self) }),
            final(self).properties is Filled,
            read_value_entry(old(self).entries(), final(self).entries(), key@, read_value, r),
    {
        let props = self.properties.get_or_insert_with(BoltMap::new);
        proof {
            assert(map_values(*props) == old(self).entries());
        }
        let value = match read_value() {
            Ok(v) => v,
            Err(e) => return Err(e),
        };
        props.put(BoltString::new(key), value);
        Ok(())
    }
}

/// Collects the fields of a graph node as they are read.
#[derive(Debug, Clone)]
pub struct BoltNodeBuilder {
    inner: ElementBuilder,
}

impl Default for BoltNodeBuilder {
    fn default() -> (r: BoltNodeBuilder)
        ensures
            r.slots().empty(),
    {
        BoltNodeBuilder { inner: ElementBuilder::default() }
    }
}

impl BoltNodeBuilder {
    /// The fields read so far.
    pub closed spec fn slots(&self) -> ElementBuilder {
        self.inner
    }

    /// Reads the id: a read error is passed on, a repeated field refused.
    pub fn id(&mut self, read: impl FnOnce() -> Result<BoltInteger, DeError>) -> (r: Result<(), DeError>)
        requires
            old(self).slots().id is Empty ==> read.requires(()),
            old(self).slots().wf(),
        ensures
            final(self).slots().wf(),
            final(self).slots() == (ElementBuilder { id: final(self).slots().id, ..old(self).slots() }),
            read_once(old(self).slots().id, final(self).slots().id, read, r, "id"@),
    {
        self.inner.id(read)
    }

    /// Reads the labels: a read error is passed on, a repeated field refused.
    pub fn labels(&mut self, read: impl FnOnce() -> Result<BoltList, DeError>) -> (r: Result<(), DeError>)
        requires
            old(self).slots().labels is Empty ==> read.requires(()),
            old(self).slots().wf(),
        ensures
            final(self).slots().wf(),
            final(self).slots() == (ElementBuilder { labels: final(self).slots().labels, ..old(self).slots() }),
            read_once(old(self).slots().labels, final(self).slots().labels, read, r, "labels"@),
    {
        self.inner.labels(read)
    }

    /// Reads the properties, a well-formed map: a read error is passed on,
    /// a repeated field refused.
    pub fn properties(&mut self, read: impl FnOnce() -> Result<BoltMap, DeError>) -> (r: Result<(), DeError>)
        requires
            old(self).slots().properties is Empty ==> read.requires(()),
            forall|m: BoltMap| #[trigger] read.ensures((), Ok(m)) ==> m.wf(),
            old(self).slots().wf(),
        ensures
            final(self).slots().wf(),
            final(self).slots() == (ElementBuilder { properties: final(self).slots().properties, ..old(self).slots() }),
            read_once(old(self).slots().properties, final(self).slots().properties, read, r, "properties"@),
    {
        self.inner.properties(read)
    }

    /// Reads one property and puts it into the properties.
    pub fn insert(&mut self, entry: impl FnOnce() -> Result<(BoltString, BoltType), DeError>) -> (r: Result<(), DeError>)
        requires
            entry.requires(()),
            old(self).slots().wf(),
        ensures
            final(self).slots().wf(),
            final(self).slots() == (ElementBuilder { properties: final(self).slots().properties, ..old(self).slots() }),
            final(self).slots().properties is Filled,
            read_entry(old(self).slots().entries(), final(self).slots().entries(), entry, r),
    {
        self.inner.insert(entry)
    }

    /// Reads the field `key`; see `node_field_read`.
    pub fn read_field(
        &mut self,
        key: &str,
        read_id: impl FnOnce() -> Result<BoltInteger, DeError>,
        read_labels: impl FnOnce() -> Result<BoltList, DeError>,
        read_value: impl FnOnce() -> Result<BoltType, DeError>,
    ) -> (r: Result<(), DeError>)
        requires
            read_id.requires(()),
            read_labels.requires(()),
            read_value.requires(()),
            old(self).slots().wf(),
        ensures
            final(self).slots().wf(),
            node_field_read(old(self).slots(), final(self).slots(), key@, read_id, read_labels, read_value, r),
    {
        proof {
            reveal_strlit("42.<id>");
            reveal_strlit("42.<labels>");
        }
        if str_eq(key, "42.<id>") {
            self.inner.id(read_id)
        } else if str_eq(key, "42.<labels>") {
            self.inner.labels(read_labels)
        } else {
            self.inner.insert_value(key, read_value)
        }
    }

    /// The graph node, or the error of the first required field that is missing; absent properties are empty.
    pub fn build(self) -> (r: Result<BoltNode, DeError>)
        requires
            self.slots().wf(),
        ensures
            self.slots().id is Empty ==> (r matches Err(e) && e@ == DeErrorModel::MissingField { field: "id"@ }),
            self.slots().id is Filled && self.slots().labels is Empty ==> (r matches Err(e) && e@ == DeErrorModel::MissingField { field: "labels"@ }),
            self.slots().id is Filled && self.slots().labels is Filled ==> (r matches Ok(x)
                && SetOnce::Filled(x.id) == self.slots().id
                && SetOnce::Filled(x.labels) == self.slots().labels
                && x.properties.wf()
                && map_values(x.properties) == self.slots().entries()
                && (self.slots().properties matches SetOnce::Filled(m) ==> x.properties == m)),
    {
        let id = match self.inner.id {
            SetOnce::Filled(v) => v,
            SetOnce::Empty => return Err(DeError::MissingField { field: "id" }),
        };
        let labels = match self.inner.labels {
            SetOnce::Filled(v) => v,
            SetOnce::Empty => return Err(DeError::MissingField { field: "labels" }),
        };
        let properties = self.inner.properties.or_else(BoltMap::new);
        Ok(BoltNode { id, labels, properties })
    }
}

/// Collects the fields of a relationship as they are read.
#[derive(Debug, Clone)]
pub struct BoltRelationBuilder {
    inner: ElementBuilder,
}

impl Default for BoltRelationBuilder {
    fn default() -> (r: BoltRelationBuilder)
        ensures
            r.slots().empty(),
    {
        BoltRelationBuilder { inner: ElementBuilder::default() }
    }
}

impl BoltRelationBuilder {
    /// The fields read so far.
    pub closed spec fn slots(&self) -> ElementBuilder {
        self.inner
    }

    /// Reads the id: a read error is passed on, a repeated field refused.
    pub fn id(&mut self, read: impl FnOnce() -> Result<BoltInteger, DeError>) -> (r: Result<(), DeError>)
        requires
            old(self).slots().id is Empty ==> read.requires(()),
            old(self).slots().wf(),
        ensures
            final(self).slots().wf(),
            final(self).slots() == (ElementBuilder { id: final(self).slots().id, ..old(self).slots() }),
            read_once(old(self).slots().id, final(self).slots().id, read, r, "id"@),
    {
        self.inner.id(read)
    }

    /// Reads the start node id: a read error is passed on, a repeated field refused.
    pub fn start_node_id(&mut self, read: impl FnOnce() -> Result<BoltInteger, DeError>) -> (r: Result<(), DeError>)
        requires
            old(self).slots().start_node_id is Empty ==> read.requires(()),
            old(self).slots().wf(),
        ensures
            final(self).slots().wf(),
            final(self).slots() == (ElementBuilder { start_node_id: final(self).slots().start_node_id, ..old(self).slots() }),
            read_once(old(self).slots().start_node_id, final(self).slots().start_node_id, read, r, "start_node_id"@),
    {
        self.inner.start_node_id(read)
    }

    /// Reads the end node id: a read error is passed on, a repeated field refused.
    pub fn end_node_id(&mut self, read: impl FnOnce() -> Result<BoltInteger, DeError>) -> (r: Result<(), DeError>)
        requires
            old(self).slots().end_node_id is Empty ==> read.requires(()),
            old(self).slots().wf(),
        ensures
            final(self).slots().wf(),
            final(self).slots() == (ElementBuilder { end_node_id: final(self).slots().end_node_id, ..old(self).slots() }),
            read_once(old(self).slots().end_node_id, final(self).slots().end_node_id, read, r, "end_node_id"@),
    {
        self.inner.end_node_id(read)
    }

    /// Reads the type: a read error is passed on, a repeated field refused.
    pub fn typ(&mut self, read: impl FnOnce() -> Result<BoltString, DeError>) -> (r: Result<(), DeError>)
        requires
            old(self).slots().typ is Empty ==> read.requires(()),
            old(self).slots().wf(),
        ensures
            final(self).slots().wf(),
            final(self).slots() == (ElementBuilder { typ: final(self).slots().typ, ..old(self).slots() }),
            read_once(old(self).slots().typ, final(self).slots().typ, read, r, "type"@),
    {
        self.inner.typ(read)
    }

    /// Reads the properties, a well-formed map: a read error is passed on,
    /// a repeated field refused.
    pub fn properties(&mut self, read: impl FnOnce() -> Result<BoltMap, DeError>) -> (r: Result<(), DeError>)
        requires
            old(self).slots().properties is Empty ==> read.requires(()),
            forall|m: BoltMap| #[trigger] read.ensures((), Ok(m)) ==> m.wf(),
            old(self).slots().wf(),
        ensures
            final(self).slots().wf(),
            final(self).slots() == (ElementBuilder { properties: final(self).slots().properties, ..old(self).slots() }),
            read_once(old(self).slots().properties, final(self).slots().properties, read, r, "properties"@),
    {
        self.inner.properties(read)
    }

    /// Reads one property and puts it into the properties.
    pub fn insert(&mut self, entry: impl FnOnce() -> Result<(BoltString, BoltType), DeError>) -> (r: Result<(), DeError>)
        requires
            entry.requires(()),
            old(self).slots().wf(),
        ensures
            final(self).slots().wf(),
            final(self).slots() == (ElementBuilder { properties: final(self).slots().properties, ..old(self).slots() }),
            final(self).slots().properties is Filled,
            read_entry(old(self).slots().entries(), final(self).slots().entries(), entry, r),
    {
        self.inner.insert(entry)
    }

    /// Reads the field `key`; see `relation_field_read`.
    pub fn read_field(
        &mut self,
        key: &str,
        read_id: impl FnOnce() -> Result<BoltInteger, DeError>,
        read_type: impl FnOnce() -> Result<BoltString, DeError>,
        read_value: impl FnOnce() -> Result<BoltType, DeError>,
    ) -> (r: Result<(), DeError>)
        requires
            read_id.requires(()),
            read_type.requires(()),
            read_value.requires(()),
            old(self).slots().wf(),
        ensures
            final(self).slots().wf(),
            relation_field_read(old(self).slots(), final(self).slots(), key@, read_id, read_type, read_value, r),
    {
        if str_eq(key, "42.<id>") {
            self.inner.id(read_id)
        } else if str_eq(key, "42.<start_node_id>") {
            self.inner.start_node_id(read_id)
        } else if str_eq(key, "42.<end_node_id>") {
            self.inner.end_node_id(read_id)
        } else if str_eq(key, "42.<type>") {
            self.inner.typ(read_type)
        } else {
            self.inner.insert_value(key, read_value)
        }
    }

    /// The relationship, or the error of the first required field that is missing; absent properties are empty.
    pub fn build(self) -> (r: Result<BoltRelation, DeError>)
        requires
            self.slots().wf(),
        ensures
            self.slots().id is Empty ==> (r matches Err(e) && e@ == DeErrorModel::MissingField { field: "id"@ }),
            self.slots().id is Filled && self.slots().start_node_id is Empty ==> (r matches Err(e) && e@ == DeErrorModel::MissingField { field: "start_node_id"@ }),
            self.slots().id is Filled && self.slots().start_node_id is Filled && self.slots().end_node_id is Empty ==> (r matches Err(e) && e@ == DeErrorModel::MissingField { field: "end_node_id"@ }),
            self.slots().id is Filled && self.slots().start_node_id is Filled && self.slots().end_node_id is Filled && self.slots().typ is Empty ==> (r matches Err(e) && e@ == DeErrorModel::MissingField { field: "type"@ }),
            self.slots().id is Filled && self.slots().start_node_id is Filled && self.slots().end_node_id is Filled && self.slots().typ is Filled ==> (r matches Ok(x)
                && SetOnce::Filled(x.id) == self.slots().id
                && SetOnce::Filled(x.start_node_id) == self.slots().start_node_id
                && SetOnce::Filled(x.end_node_id) == self.slots().end_node_id
                && SetOnce::Filled(x.typ) == self.slots().typ
                && x.properties.wf()
                && map_values(x.properties) == self.slots().entries()
                && (self.slots().properties matches SetOnce::Filled(m) ==> x.properties == m)),
    {
        let id = match self.inner.id {
            SetOnce::Filled(v) => v,
            SetOnce::Empty => return Err(DeError::MissingField { field: "id" }),
        };
        let start_node_id = match self.inner.start_node_id {
            SetOnce::Filled(v) => v,
            SetOnce::Empty => return Err(DeError::MissingField { field: "start_node_id" }),
        };
        let end_node_id = match self.inner.end_node_id {
            SetOnce::Filled(v) => v,
            SetOnce::Empty => return Err(DeError::MissingField { field: "end_node_id" }),
        };
        let typ = match self.inner.typ {
            SetOnce::Filled(v) => v,
            SetOnce::Empty => return Err(DeError::MissingField { field: "type" }),
        };
        let properties = self.inner.properties.or_else(BoltMap::new);
        Ok(BoltRelation { id, start_node_id, end_node_id, typ, properties })
    }
}

/// Collects the fields of a relationship without its nodes as they are read.
#[derive(Debug, Clone)]
pub struct BoltUnboundedRelationBuilder {
    inner: ElementBuilder,
}

impl Default for BoltUnboundedRelationBuilder {
    fn default() -> (r: BoltUnboundedRelationBuilder)
        ensures
            r.slots().empty(),
    {
        BoltUnboundedRelationBuilder { inner: ElementBuilder::default() }
    }
}

impl BoltUnboundedRelationBuilder {
    /// The fields read so far.
    pub closed spec fn slots(&self) -> ElementBuilder {
        self.inner
    }

    /// Reads the id: a read error is passed on, a repeated field refused.
    pub fn id(&mut self, read: impl FnOnce() -> Result<BoltInteger, DeError>) -> (r: Result<(), DeError>)
        requires
            old(self).slots().id is Empty ==> read.requires(()),
            old(self).slots().wf(),
        ensures
            final(self).slots().wf(),
            final(self).slots() == (ElementBuilder { id: final(self).slots().id, ..old(self).slots() }),
            read_once(old(self).slots().id, final(self).slots().id, read, r, "id"@),
    {
        self.inner.id(read)
    }

    /// Reads the type: a read error is passed on, a repeated field refused.
    pub fn typ(&mut self, read: impl FnOnce() -> Result<BoltString, DeError>) -> (r: Result<(), DeError>)
        requires
            old(self).slots().typ is Empty ==> read.requires(()),
            old(self).slots().wf(),
        ensures
            final(self).slots().wf(),
            final(self).slots() == (ElementBuilder { typ: final(self).slots().typ, ..old(self).slots() }),
            read_once(old(self).slots().typ, final(self).slots().typ, read, r, "type"@),
    {
        self.inner.typ(read)
    }

    /// Reads the properties, a well-formed map: a read error is passed on,
    /// a repeated field refused.
    pub fn properties(&mut self, read: impl FnOnce() -> Result<BoltMap, DeError>) -> (r: Result<(), DeError>)
        requires
            old(self).slots().properties is Empty ==> read.requires(()),
            forall|m: BoltMap| #[trigger] read.ensures((), Ok(m)) ==> m.wf(),
            old(self).slots().wf(),
        ensures
            final(self).slots().wf(),
            final(self).slots() == (ElementBuilder { properties: final(self).slots().properties, ..old(self).slots() }),
            read_once(old(self).slots().properties, final(self).slots().properties, read, r, "properties"@),
    {
        self.inner.properties(read)
    }

    /// Reads one property and puts it into the properties.
    pub fn insert(&mut self, entry: impl FnOnce() -> Result<(BoltString, BoltType), DeError>) -> (r: Result<(), DeError>)
        requires
            entry.requires(()),
            old(self).slots().wf(),
        ensures
            final(self).slots().wf(),
            final(self).slots() == (ElementBuilder { properties: final(self).slots().properties, ..old(self).slots() }),
            final(self).slots().properties is Filled,
            read_entry(old(self).slots().entries(), final(self).slots().entries(), entry, r),
    {
        self.inner.insert(entry)
    }

    /// Reads the field `key`; see `unbounded_field_read`.
    pub fn read_field(
        &mut self,
        key: &str,
        read_id: impl FnOnce() -> Result<BoltInteger, DeError>,
        read_type: impl FnOnce() -> Result<BoltString, DeError>,
        read_value: impl FnOnce() -> Result<BoltType, DeError>,
    ) -> (r: Result<(), DeError>)
        requires
            read_id.requires(()),
            read_type.requires(()),
            read_value.requires(()),
            old(self).slots().wf(),
        ensures
            final(self).slots().wf(),
            unbounded_field_read(old(self).slots(), final(self).slots(), key@, read_id, read_type, read_value, r),
    {
        if str_eq(key, "42.<id>") {
            self.inner.id(read_id)
        } else if str_eq(key, "42.<type>") {
            self.inner.typ(read_type)
        } else {
            self.inner.insert_value(key, read_value)
        }
    }

    /// The relationship without its nodes, or the error of the first required field that is missing; absent properties are empty.
    pub fn build(self) -> (r: Result<BoltUnboundedRelation, DeError>)
        requires
            self.slots().wf(),
        ensures
            self.slots().id is Empty ==> (r matches Err(e) && e@ == DeErrorModel::MissingField { field: "id"@ }),
            self.slots().id is Filled && self.slots().typ is Empty ==> (r matches Err(e) && e@ == DeErrorModel::MissingField { field: "type"@ }),
            self.slots().id is Filled && self.slots().typ is Filled ==> (r matches Ok(x)
                && SetOnce::Filled(x.id) == self.slots().id
                && SetOnce::Filled(x.typ) == self.slots().typ
                && x.properties.wf()
                && map_values(x.properties) == self.slots().entries()
                && (self.slots().properties matches SetOnce::Filled(m) ==> x.properties == m)),
    {
        let id = match self.inner.id {
            SetOnce::Filled(v) => v,
            SetOnce::Empty => return Err(DeError::MissingField { field: "id" }),
        };
        let typ = match self.inner.typ {
            SetOnce::Filled(v) => v,
            SetOnce::Empty => return Err(DeError::MissingField { field: "type" }),
        };
        let properties = self.inner.properties.or_else(BoltMap::new);
        Ok(BoltUnboundedRelation { id, typ, properties })
    }
}

/// Collects the fields of a path as they are read.
#[derive(Debug, Clone)]
pub struct BoltPathBuilder {
    inner: ElementBuilder,
}

impl Default for BoltPathBuilder {
    fn default() -> (r: BoltPathBuilder)
        ensures
            r.slots().empty(),
    {
        BoltPathBuilder { inner: ElementBuilder::default() }
    }
}

impl BoltPathBuilder {
    /// The fields read so far.
    pub closed spec fn slots(&self) -> ElementBuilder {
        self.inner
    }

    /// Reads the nodes: a read error is passed on, a repeated field refused.
    pub fn nodes(&mut self, read: impl FnOnce() -> Result<BoltList, DeError>) -> (r: Result<(), DeError>)
        requires
            old(self).slots().nodes is Empty ==> read.requires(()),
            old(self).slots().wf(),
        ensures
            final(self).slots().wf(),
            final(self).slots() == (ElementBuilder { nodes: final(self).slots().nodes, ..old(self).slots() }),
            read_once(old(self).slots().nodes, final(self).slots().nodes, read, r, "nodes"@),
    {
        self.inner.nodes(read)
    }

    /// Reads the relations: a read error is passed on, a repeated field refused.
    pub fn relations(&mut self, read: impl FnOnce() -> Result<BoltList, DeError>) -> (r: Result<(), DeError>)
        requires
            old(self).slots().rels is Empty ==> read.requires(()),
            old(self).slots().wf(),
        ensures
            final(self).slots().wf(),
            final(self).slots() == (ElementBuilder { rels: final(self).slots().rels, ..old(self).slots() }),
            read_once(old(self).slots().rels, final(self).slots().rels, read, r, "relations"@),
    {
        self.inner.relations(read)
    }

    /// Reads the indices: a read error is passed on, a repeated field refused.
    pub fn indices(&mut self, read: impl FnOnce() -> Result<BoltList, DeError>) -> (r: Result<(), DeError>)
        requires
            old(self).slots().indices is Empty ==> read.requires(()),
            old(self).slots().wf(),
        ensures
            final(self).slots().wf(),
            final(self).slots() == (ElementBuilder { indices: final(self).slots().indices, ..old(self).slots() }),
            read_once(old(self).slots().indices, final(self).slots().indices, read, r, "indices"@),
    {
        self.inner.indices(read)
    }

    /// Reads the field `key`; see `path_field_read`.
    pub fn read_field(&mut self, key: &str, read: impl FnOnce() -> Result<BoltList, DeError>) -> (r: Result<(), DeError>)
        requires
            read.requires(()),
        ensures
            final(self).slots().wf() == old(self).slots().wf(),
            path_field_read(old(self).slots(), final(self).slots(), key@, read, r),
    {
        if str_eq(key, "nodes") {
            self.inner.nodes(read)
        } else if str_eq(key, "relationships") {
            self.inner.relations(read)
        } else if str_eq(key, "indices") {
            self.inner.indices(read)
        } else {
            let e = DeError::UnknownField { field: owned(key), expected: &["nodes", "relationships", "indices"] };
            assert(names(e->expected) =~= seq!["nodes"@, "relationships"@, "indices"@]);
            Err(e)
        }
    }

    /// The path, or the error of the first required field that is missing.
    pub fn build(self) -> (r: Result<BoltPath, DeError>)
        ensures
            self.slots().nodes is Empty ==> (r matches Err(e) && e@ == DeErrorModel::MissingField { field: "nodes"@ }),
            self.slots().nodes is Filled && self.slots().rels is Empty ==> (r matches Err(e) && e@ == DeErrorModel::MissingField { field: "relations"@ }),
            self.slots().nodes is Filled && self.slots().rels is Filled && self.slots().indices is Empty ==> (r matches Err(e) && e@ == DeErrorModel::MissingField { field: "indices"@ }),
            self.slots().nodes is Filled && self.slots().rels is Filled && self.slots().indices is Filled ==> (r matches Ok(x)
                && SetOnce::Filled(x.nodes) == self.slots().nodes
                && SetOnce::Filled(x.rels) == self.slots().rels
                && SetOnce::Filled(x.ids) == self.slots().indices),
    {
        let nodes = match self.inner.nodes {
            SetOnce::Filled(v) => v,
            SetOnce::Empty => return Err(DeError::MissingField { field: "nodes" }),
        };
        let rels = match self.inner.rels {
            SetOnce::Filled(v) => v,
            SetOnce::Empty => return Err(DeError::MissingField { field: "relations" }),
        };
        let indices = match self.inner.indices {
            SetOnce::Filled(v) => v,
            SetOnce::Empty => return Err(DeError::MissingField { field: "indices" }),
        };
        Ok(BoltPath { nodes, rels, ids: indices })
    }
}

} // verus!
