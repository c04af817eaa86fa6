//! The representation of a query: vertices, edges and folds grouped into
//! components, and the lookup tables built over them.
use crate::value::FieldValue;
use std::sync::Arc;
use vstd::prelude::*;

verus! {

/// Identifies a vertex of a query. Vertices are numbered in query order, so
/// a smaller number belongs to an earlier scope.
#[derive(Clone, Copy, Debug, PartialEq, Eq, PartialOrd, Ord, Hash, Structural)]
pub struct Vid(pub usize);

/// Identifies an edge of a query, folded or not.
#[derive(Clone, Copy, Debug, PartialEq, Eq, PartialOrd, Ord, Hash, Structural)]
pub struct Eid(pub usize);

/// The type of a field, as far as the interpreter reads it.
#[derive(Clone, Debug, PartialEq, Eq)]
pub struct FieldType {
    pub base: String,
    pub nullable: bool,
}

/// A field of the vertex on which a filter stands.
#[derive(Clone, Debug, PartialEq, Eq)]
pub struct LocalField {
    pub field_name: String,
    pub field_type: FieldType,
}

/// A field of a vertex bound somewhere in the query.
#[derive(Clone, Debug, PartialEq, Eq)]
pub struct ContextField {
    pub vertex_id: Vid,
    pub field_name: String,
    pub field_type: FieldType,
}

/// What a fold can say of itself.
#[derive(Clone, Copy, Debug, PartialEq, Eq, Structural)]
pub enum FoldSpecificFieldKind {
    Count,
}

/// A value that belongs to a fold as a whole, such as its number of items.
#[derive(Clone, Copy, Debug, PartialEq, Eq, Structural)]
pub struct FoldSpecificField {
    pub fold_eid: Eid,
    pub fold_root_vid: Vid,
    pub kind: FoldSpecificFieldKind,
}

/// What a tag refers to.
#[derive(Clone, Debug, PartialEq, Eq)]
pub enum FieldRef {
    ContextField(ContextField),
    FoldSpecificField(FoldSpecificField),
}

/// A variable of the query, given a value by the query's arguments.
#[derive(Clone, Debug, PartialEq, Eq)]
pub struct VariableRef {
    pub variable_name: String,
    pub variable_type: FieldType,
}

/// The right-hand side of a filter.
#[derive(Clone, Debug, PartialEq, Eq)]
pub enum Argument {
    Tag(FieldRef),
    Variable(VariableRef),
}

/// A filter on a field of a vertex.
#[derive(Clone, Debug, PartialEq, Eq)]
pub enum Operation {
    IsNull(LocalField),
    IsNotNull(LocalField),
    Equals(LocalField, Argument),
    NotEquals(LocalField, Argument),
    LessThan(LocalField, Argument),
    LessThanOrEqual(LocalField, Argument),
    GreaterThan(LocalField, Argument),
    GreaterThanOrEqual(LocalField, Argument),
    Contains(LocalField, Argument),
    NotContains(LocalField, Argument),
    OneOf(LocalField, Argument),
    NotOneOf(LocalField, Argument),
    HasPrefix(LocalField, Argument),
    NotHasPrefix(LocalField, Argument),
    HasSuffix(LocalField, Argument),
    NotHasSuffix(LocalField, Argument),
    HasSubstring(LocalField, Argument),
    NotHasSubstring(LocalField, Argument),
    RegexMatches(LocalField, Argument),
    NotRegexMatches(LocalField, Argument),
}

/// A vertex of a query.
#[derive(Clone, Debug, PartialEq, Eq)]
pub struct IRVertex {
    pub vid: Vid,
    pub vertex_type: String,
    /// The type that the vertex had before it was narrowed to `vertex_type`.
    pub coerced_from_type: Option<String>,
    pub filters: Vec<Operation>,
}

/// How far an edge is followed again from its own destination.
#[derive(Clone, Debug, PartialEq, Eq)]
pub struct Recursive {
    pub depth: usize,
    pub coerce_to: Option<String>,
}

/// The parameters of an edge: names with their values, in order.
pub type EdgeParameters = Vec<(String, FieldValue)>;

/// An edge between two vertices of one component.
#[derive(Clone, Debug, PartialEq, Eq)]
pub struct IREdge {
    pub eid: Eid,
    pub from_vid: Vid,
    pub to_vid: Vid,
    pub edge_name: String,
    pub parameters: EdgeParameters,
    pub optional: bool,
    pub recursive: Option<Recursive>,
}

/// A folded edge: it leads from a vertex of one component to the root of a
/// component of its own, whose results are gathered per outer row.
#[derive(Clone, Debug, PartialEq, Eq)]
pub struct IRFold {
    pub eid: Eid,
    pub from_vid: Vid,
    pub to_vid: Vid,
    pub edge_name: String,
    pub parameters: EdgeParameters,
    pub component: Arc<IRQueryComponent>,
}

/// Vertices linked by edges that are not folded. Vertices, edges and folds
/// stand in the order in which the query introduced them.
#[derive(Clone, Debug, PartialEq, Eq)]
pub struct IRQueryComponent {
    pub root: Vid,
    pub vertices: Vec<IRVertex>,
    pub edges: Vec<Arc<IREdge>>,
    pub folds: Vec<Arc<IRFold>>,
    /// The outputs of the component: names with the fields they show.
    pub outputs: Vec<(String, ContextField)>,
}

/// A whole query: the edge that yields its starting vertices, and the
/// component that starts there.
#[derive(Clone, Debug, PartialEq, Eq)]
pub struct IRQuery {
    pub root_name: String,
    pub root_parameters: EdgeParameters,
    pub root_component: Arc<IRQueryComponent>,
}

/// An edge of either kind.
#[derive(Clone, Debug, PartialEq, Eq)]
pub enum EdgeKind {
    Regular(Arc<IREdge>),
    Fold(Arc<IRFold>),
}

/// A query with its lookup tables: for each vertex the component that holds
/// it, and for each edge the edge itself.
#[derive(Clone, Debug, PartialEq, Eq)]
pub struct IndexedQuery {
    pub ir_query: IRQuery,
    pub vids: Vec<(Vid, Arc<IRQueryComponent>)>,
    pub eids: Vec<(Eid, EdgeKind)>,
}

/// The values of the variables of a query: names with their values.
pub type Arguments = Vec<(String, FieldValue)>;

/// A query ready to run: the indexed query and its arguments, both shared.
#[derive(Clone, Debug)]
pub struct InterpretedQuery {
    pub indexed_query: Arc<IndexedQuery>,
    pub arguments: Arc<Arguments>,
}

/// Calls `Arc::clone`: a second handle to the same shared value.
#[verifier::external_body]
pub(crate) fn share<T>(handle: &Arc<T>) -> (r: Arc<T>)
    ensures
        r == *handle,
{
    Arc::clone(handle)
}

/// Whether no key stands twice among `keys`.
pub open spec fn distinct_keys<K>(keys: Seq<K>) -> bool {
    forall|i: int, j: int|
        #![trigger keys[i], keys[j]] 0 <= i < j < keys.len() ==> keys[i] != keys[j]
}

/// Whether `key` stands at position `i` of `keys` and nowhere before it.
pub open spec fn is_first_key<K>(keys: Seq<K>, key: K, i: int) -> bool {
    &&& 0 <= i < keys.len()
    &&& keys[i] == key
    &&& forall|j: int| 0 <= j < i ==> #[trigger] keys[j] != key
}

/// The first position of `key` among `keys`, if it is there at all. Tables
/// are read by it: of two entries under one key, the earlier one counts.
pub open spec fn first_key<K>(keys: Seq<K>, key: K) -> Option<int> {
    if exists|i: int| is_first_key(keys, key, i) {
        Some(choose|i: int| is_first_key(keys, key, i))
    } else {
        None
    }
}

/// A position that holds `key`, with none before it, is the first.
pub proof fn lemma_first_key<K>(keys: Seq<K>, key: K, i: int)
    requires
        is_first_key(keys, key, i),
    ensures
        first_key(keys, key) == Some(i),
{
    let k = choose|k: int| is_first_key(keys, key, k);
    if k < i {
        assert(keys[k] != key);
    } else if i < k {
        assert(keys[i] != key);
    }
}

/// Where no position holds `key`, there is no first.
pub proof fn lemma_no_key<K>(keys: Seq<K>, key: K)
    requires
        forall|j: int| 0 <= j < keys.len() ==> #[trigger] keys[j] != key,
    ensures
        first_key(keys, key) is None,
{
}

/// Where some position holds `key`, there is a first.
pub proof fn lemma_some_key<K>(keys: Seq<K>, key: K, at: int)
    requires
        0 <= at < keys.len(),
        keys[at] == key,
    ensures
        first_key(keys, key) is Some,
    decreases at,
{
    if forall|j: int| 0 <= j < at ==> #[trigger] keys[j] != key {
        assert(is_first_key(keys, key, at));
    } else {
        let j = choose|j: int| 0 <= j < at && #[trigger] keys[j] == key;
        lemma_some_key(keys, key, j);
    }
}

/// A first position lies within the keys and holds the key.
pub proof fn lemma_first_key_found<K>(keys: Seq<K>, key: K)
    requires
        first_key(keys, key) is Some,
    ensures
        is_first_key(keys, key, first_key(keys, key).unwrap()),
{
}

/// Whether each of the first `count` keys stands at its own first position.
pub open spec fn each_key_first<K>(keys: Seq<K>, count: int) -> bool {
    forall|i: int| 0 <= i < count ==> first_key(keys, #[trigger] keys[i]) == Some(i)
}

/// No key stands twice exactly when each key stands at its own first
/// position.
pub proof fn lemma_distinct_by_position<K>(keys: Seq<K>)
    ensures
        distinct_keys(keys) <==> each_key_first(keys, keys.len() as int),
{
    if distinct_keys(keys) {
        assert forall|i: int| 0 <= i < keys.len() implies first_key(keys, #[trigger] keys[i])
            == Some(i) by {
            lemma_first_key(keys, keys[i], i);
        }
    }
    if each_key_first(keys, keys.len() as int) {
        assert forall|i: int, j: int|
            #![trigger keys[i], keys[j]]
            0 <= i < j < keys.len() implies keys[i] != keys[j] by {
            lemma_first_key_found(keys, keys[j]);
        }
    }
}

impl EdgeKind {
    /// The vertex to which the edge leads.
    pub open spec fn spec_to_vid(&self) -> Vid {
        match self {
            EdgeKind::Regular(edge) => edge.to_vid,
            EdgeKind::Fold(fold) => fold.to_vid,
        }
    }

    /// The vertex to which the edge leads.
    pub fn to_vid(&self) -> (r: Vid)
        ensures
            r == self.spec_to_vid(),
    {
        match self {
            EdgeKind::Regular(edge) => edge.to_vid,
            EdgeKind::Fold(fold) => fold.to_vid,
        }
    }
}

impl IRQueryComponent {
    /// The component keeps what a map by number would: its vertices stand
    /// in ascending order of their numbers, so do its edges and so do its
    /// folds, none twice, and no edge has the number of a fold.
    pub open spec fn well_formed(&self) -> bool {
        &&& forall|i: int, j: int|
            0 <= i < j < self.vertices.len() ==> (#[trigger] self.vertices[i]).vid.0 < (
            #[trigger] self.vertices[j]).vid.0
        &&& forall|i: int, j: int|
            0 <= i < j < self.edges.len() ==> (#[trigger] self.edges[i]).eid.0 < (
            #[trigger] self.edges[j]).eid.0
        &&& forall|i: int, j: int|
            0 <= i < j < self.folds.len() ==> (#[trigger] self.folds[i]).eid.0 < (
            #[trigger] self.folds[j]).eid.0
        &&& forall|i: int, j: int|
            0 <= i < self.edges.len() && 0 <= j < self.folds.len() ==> (
            #[trigger] self.edges[i]).eid != (#[trigger] self.folds[j]).eid
    }

    /// Whether the component keeps its order; see
    /// [`IRQueryComponent::well_formed`].
    pub fn is_well_formed(&self) -> (r: bool)
        ensures
            r == self.well_formed(),
    {
        let mut i: usize = 1;
        while i < self.vertices.len()
            invariant
                1 <= i,
                forall|a: int, b: int|
                    0 <= a < b < i && b < self.vertices.len() ==> (#[trigger] self.vertices[a]).vid.0
                        < (#[trigger] self.vertices[b]).vid.0,
            decreases self.vertices.len() - i,
        {
            if self.vertices[i - 1].vid.0 >= self.vertices[i].vid.0 {
                return false;
            }
            i += 1;
        }
        let mut i: usize = 1;
        while i < self.edges.len()
            invariant
                1 <= i,
                forall|a: int, b: int|
                    0 <= a < b < i && b < self.edges.len() ==> (#[trigger] self.edges[a]).eid.0 < (
                    #[trigger] self.edges[b]).eid.0,
            decreases self.edges.len() - i,
        {
            if self.edges[i - 1].eid.0 >= self.edges[i].eid.0 {
                return false;
            }
            i += 1;
        }
        let mut i: usize = 1;
        while i < self.folds.len()
            invariant
                1 <= i,
                forall|a: int, b: int|
                    0 <= a < b < i && b < self.folds.len() ==> (#[trigger] self.folds[a]).eid.0 < (
                    #[trigger] self.folds[b]).eid.0,
            decreases self.folds.len() - i,
        {
            if self.folds[i - 1].eid.0 >= self.folds[i].eid.0 {
                return false;
            }
            i += 1;
        }
        let mut i: usize = 0;
        while i < self.edges.len()
            invariant
                i <= self.edges.len(),
                forall|a: int, b: int|
                    0 <= a < i && 0 <= b < self.folds.len() ==> (#[trigger] self.edges[a]).eid != (
                    #[trigger] self.folds[b]).eid,
            decreases self.edges.len() - i,
        {
            let mut j: usize = 0;
            while j < self.folds.len()
                invariant
                    i < self.edges.len(),
                    j <= self.folds.len(),
                    forall|b: int|
                        0 <= b < j ==> self.edges[i as int].eid != (#[trigger] self.folds[b]).eid,
                decreases self.folds.len() - j,
            {
                if self.edges[i].eid.0 == self.folds[j].eid.0 {
                    return false;
                }
                j += 1;
            }
            i += 1;
        }
        true
    }

    /// The numbers of the component's vertices, in order.
    pub open spec fn vertex_keys(&self) -> Seq<Vid> {
        self.vertices@.map_values(|v: IRVertex| v.vid)
    }

    /// The position of the vertex `vid` among the component's vertices.
    pub open spec fn vertex_position(&self, vid: Vid) -> Option<int> {
        first_key(self.vertex_keys(), vid)
    }

    /// The vertex `vid` of the component, if it has one.
    pub fn vertex(&self, vid: Vid) -> (r: Option<&IRVertex>)
        ensures
            match self.vertex_position(vid) {
                Some(i) => 0 <= i < self.vertices.len() && r == Some(&self.vertices[i]),
                None => r is None,
            },
    {
        let mut i: usize = 0;
        while i < self.vertices.len()
            invariant
                i <= self.vertices.len(),
                forall|j: int| 0 <= j < i ==> #[trigger] self.vertex_keys()[j] != vid,
            decreases self.vertices.len() - i,
        {
            if self.vertices[i].vid.0 == vid.0 {
                proof {
                    lemma_first_key(self.vertex_keys(), vid, i as int);
                }
                return Some(&self.vertices[i]);
            }
            i += 1;
        }
        proof {
            lemma_no_key(self.vertex_keys(), vid);
        }
        None
    }
}

impl IndexedQuery {
    /// The vertices that the table lists, in order.
    pub open spec fn vid_keys(&self) -> Seq<Vid> {
        self.vids@.map_values(|entry: (Vid, Arc<IRQueryComponent>)| entry.0)
    }

    /// The edges that the table lists, in order.
    pub open spec fn eid_keys(&self) -> Seq<Eid> {
        self.eids@.map_values(|entry: (Eid, EdgeKind)| entry.0)
    }

    /// The position of the entry for the vertex `vid`.
    pub open spec fn vid_position(&self, vid: Vid) -> Option<int> {
        first_key(self.vid_keys(), vid)
    }

    /// The position of the entry for the edge `eid`.
    pub open spec fn eid_position(&self, eid: Eid) -> Option<int> {
        first_key(self.eid_keys(), eid)
    }

    /// Whether the query has the vertex `vid`, in a component that holds it.
    pub open spec fn has_vertex(&self, vid: Vid) -> bool {
        self.vid_position(vid) matches Some(i) && self.vids[i].1.vertex_position(vid) is Some
    }

    /// The component of the vertex `vid`.
    pub open spec fn component_of(&self, vid: Vid) -> Arc<IRQueryComponent> {
        self.vids[self.vid_position(vid).unwrap()].1
    }

    /// The vertex `vid`.
    pub open spec fn vertex_of(&self, vid: Vid) -> IRVertex {
        let component = self.component_of(vid);
        component.vertices[component.vertex_position(vid).unwrap()]
    }

    /// The edge `eid`.
    pub open spec fn edge_of(&self, eid: Eid) -> EdgeKind {
        self.eids[self.eid_position(eid).unwrap()].1
    }

    /// The tables are those of a mapping: no vertex and no edge is listed
    /// twice, and every listed component keeps its own order.
    pub open spec fn ordered(&self) -> bool {
        &&& distinct_keys(self.vid_keys())
        &&& distinct_keys(self.eid_keys())
        &&& forall|i: int| 0 <= i < self.vids.len() ==> (#[trigger] self.vids[i]).1.well_formed()
    }

    /// The tables hold what they promise: they are ordered, each vertex
    /// entry names a component that holds the vertex, and every edge,
    /// listed by number or found in a listed component, leads to a vertex of
    /// the query.
    pub open spec fn well_formed(&self) -> bool {
        &&& self.ordered()
        &&& forall|i: int|
            0 <= i < self.vids.len() ==> (#[trigger] self.vids[i]).1.vertex_position(
                self.vids[i].0,
            ) is Some
        &&& forall|i: int, j: int|
            0 <= i < self.vids.len() && 0 <= j < self.vids[i].1.edges.len() ==> self.has_vertex(
                (#[trigger] self.vids[i].1.edges[j]).to_vid,
            )
        &&& forall|i: int, j: int|
            0 <= i < self.vids.len() && 0 <= j < self.vids[i].1.folds.len() ==> self.has_vertex(
                (#[trigger] self.vids[i].1.folds[j]).to_vid,
            )
        &&& forall|i: int|
            0 <= i < self.eids.len() ==> self.has_vertex(
                (#[trigger] self.eids[i]).1.spec_to_vid(),
            )
    }

    /// The component that holds the vertex `vid`, if the query has it.
    pub fn component(&self, vid: Vid) -> (r: Option<&Arc<IRQueryComponent>>)
        ensures
            match self.vid_position(vid) {
                Some(i) => 0 <= i < self.vids.len() && r == Some(&self.vids[i].1),
                None => r is None,
            },
    {
        let mut i: usize = 0;
        while i < self.vids.len()
            invariant
                i <= self.vids.len(),
                forall|j: int| 0 <= j < i ==> #[trigger] self.vid_keys()[j] != vid,
            decreases self.vids.len() - i,
        {
            if self.vids[i].0.0 == vid.0 {
                proof {
                    lemma_first_key(self.vid_keys(), vid, i as int);
                }
                return Some(&self.vids[i].1);
            }
            i += 1;
        }
        proof {
            lemma_no_key(self.vid_keys(), vid);
        }
        None
    }

    /// The edge `eid`, if the query has it.
    pub fn edge(&self, eid: Eid) -> (r: Option<&EdgeKind>)
        ensures
            match self.eid_position(eid) {
                Some(i) => 0 <= i < self.eids.len() && r == Some(&self.eids[i].1),
                None => r is None,
            },
    {
        let mut i: usize = 0;
        while i < self.eids.len()
            invariant
                i <= self.eids.len(),
                forall|j: int| 0 <= j < i ==> #[trigger] self.eid_keys()[j] != eid,
            decreases self.eids.len() - i,
        {
            if self.eids[i].0.0 == eid.0 {
                proof {
                    lemma_first_key(self.eid_keys(), eid, i as int);
                }
                return Some(&self.eids[i].1);
            }
            i += 1;
        }
        proof {
            lemma_no_key(self.eid_keys(), eid);
        }
        None
    }

    /// Whether the query has the vertex `vid`, in a component that holds it.
    pub fn holds_vertex(&self, vid: Vid) -> (r: bool)
        ensures
            r == self.has_vertex(vid),
    {
        match self.component(vid) {
            Some(component) => component.vertex(vid).is_some(),
            None => false,
        }
    }
}

} // verus!
