//! The state of one row on its way through the query.
use crate::ir::{
    distinct_keys, each_key_first, first_key, lemma_distinct_by_position, lemma_first_key,
    lemma_first_key_found, lemma_no_key, Eid, FieldRef, FieldType, FoldSpecificField, Vid,
};
use crate::value::FieldValue;
use vstd::prelude::*;
use vstd::std_specs::cmp::PartialEqSpec;

verus! {

/// The state of one row: the vertex in focus, every vertex bound so far,
/// and the values gathered on the way.
///
/// A vertex that is `None` stands for an optional scope that had no match.
#[derive(Debug)]
pub struct DataContext<V> {
    /// The vertex in focus.
    pub active_vertex: Option<V>,
    /// Every vertex bound so far, under its number.
    pub vertices: Vec<(Vid, Option<V>)>,
    /// The values of the outputs found so far, a stack.
    pub values: Vec<FieldValue>,
    /// The vertices to come back to, a stack.
    pub suspended_vertices: Vec<Option<V>>,
    /// For each fold that was run, the rows it gave.
    pub folded_contexts: Vec<(Eid, Vec<DataContext<V>>)>,
    /// The outputs of the folds: under the fold and the output's name, the
    /// list of the values of its rows.
    pub folded_values: Vec<((Eid, String), FieldValue)>,
    /// Rows that ride along with this one, to rejoin the stream later.
    pub piggyback: Option<Vec<DataContext<V>>>,
    /// The values of the tags that this row can see.
    pub imported_tags: Vec<(FieldRef, FieldValue)>,
}

/// Whether two vertices that may be missing are equal, by the vertex type's
/// own equality.
pub open spec fn same_vertex<V: PartialEq>(a: Option<V>, b: Option<V>) -> bool {
    match (a, b) {
        (Some(x), Some(y)) => x.eq_spec(&y),
        (None, None) => true,
        _ => false,
    }
}

/// Whether two field types are the same.
pub open spec fn same_type(a: FieldType, b: FieldType) -> bool {
    a.base@ == b.base@ && a.nullable == b.nullable
}

/// Whether two tag targets are the same.
pub open spec fn same_field_ref(a: FieldRef, b: FieldRef) -> bool {
    match (a, b) {
        (FieldRef::ContextField(x), FieldRef::ContextField(y)) => x.vertex_id == y.vertex_id
            && x.field_name@ == y.field_name@ && same_type(x.field_type, y.field_type),
        (FieldRef::FoldSpecificField(x), FieldRef::FoldSpecificField(y)) => x == y,
        _ => false,
    }
}

/// Whether two lists of values are equal item by item.
pub open spec fn same_values(a: Seq<FieldValue>, b: Seq<FieldValue>) -> bool {
    a.len() == b.len() && forall|i: int| 0 <= i < a.len() ==> (#[trigger] a[i])@.equals(b[i]@)
}

/// Whether two lists of vertices are equal item by item.
pub open spec fn same_vertices<V: PartialEq>(a: Seq<Option<V>>, b: Seq<Option<V>>) -> bool {
    a.len() == b.len() && forall|i: int| 0 <= i < a.len() ==> same_vertex(#[trigger] a[i], b[i])
}

/// What identifies a tag target.
pub enum FieldRefView {
    ContextField(Vid, Seq<char>, Seq<char>, bool),
    FoldSpecificField(FoldSpecificField),
}

/// What identifies a tag target: two targets are the same exactly when
/// this is equal.
pub open spec fn field_ref_view(target: FieldRef) -> FieldRefView {
    match target {
        FieldRef::ContextField(field) => FieldRefView::ContextField(
            field.vertex_id,
            field.field_name@,
            field.field_type.base@,
            field.field_type.nullable,
        ),
        FieldRef::FoldSpecificField(field) => FieldRefView::FoldSpecificField(field),
    }
}

/// The keys of bound vertices, in order.
pub open spec fn binding_keys<V>(entries: Seq<(Vid, Option<V>)>) -> Seq<Vid> {
    entries.map_values(|entry: (Vid, Option<V>)| entry.0)
}

/// Whether two tables of bound vertices agree under one key: both have the key
/// with equal values, or neither has it. Of two entries under one key the
/// earlier one counts.
pub open spec fn binding_agrees<V: PartialEq>(
    a: Seq<(Vid, Option<V>)>,
    b: Seq<(Vid, Option<V>)>,
    key: Vid,
) -> bool {
    match (first_key(binding_keys(a), key), first_key(binding_keys(b), key)) {
        (Some(i), Some(j)) => same_vertex(a[i].1, b[j].1),
        (None, None) => true,
        _ => false,
    }
}

/// The position of the first entry under a key.
fn binding_position<V>(entries: &Vec<(Vid, Option<V>)>, key: Vid) -> (r: Option<usize>)
    ensures
        match first_key(binding_keys(entries@), key) {
            Some(i) => r == Some(i as usize) && 0 <= i < entries.len(),
            None => r is None,
        },
{
    let mut i: usize = 0;
    while i < entries.len()
        invariant
            i <= entries.len(),
            forall|j: int| 0 <= j < i ==> #[trigger] binding_keys(entries@)[j] != key,
        decreases entries.len() - i,
    {
        if entries[i].0.0 == key.0 {
            proof {
                lemma_first_key(binding_keys(entries@), key, i as int);
            }
            return Some(i);
        }
        i += 1;
    }
    proof {
        lemma_no_key(binding_keys(entries@), key);
    }
    None
}

/// Whether two tables agree under one key.
fn binding_matches<V: PartialEq>(
    a: &Vec<(Vid, Option<V>)>,
    b: &Vec<(Vid, Option<V>)>,
    key: Vid,
) -> (r: bool)
    ensures
        V::obeys_eq_spec() ==> r == binding_agrees(a@, b@, key),
{
    match (binding_position(a, key), binding_position(b, key)) {
        (Some(i), Some(j)) => vertices_match(&a[i].1, &b[j].1),
        (None, None) => true,
        _ => false,
    }
}

/// Whether two tables are equal as mappings.
fn binding_tables_match<V: PartialEq>(
    a: &Vec<(Vid, Option<V>)>,
    b: &Vec<(Vid, Option<V>)>,
) -> (r: bool)
    ensures
        V::obeys_eq_spec() ==> r == (forall|key: Vid| #[trigger] binding_agrees(a@, b@, key)),
{
    let mut i: usize = 0;
    while i < a.len()
        invariant
            i <= a.len(),
            V::obeys_eq_spec() ==> forall|k: int|
                0 <= k < i ==> binding_agrees(a@, b@, #[trigger] binding_keys(a@)[k]),
        decreases a.len() - i,
    {
        if !binding_matches(a, b, a[i].0) {
            assert(V::obeys_eq_spec() ==> !binding_agrees(a@, b@, binding_keys(a@)[i as int]));
            return false;
        }
        i += 1;
    }
    let mut j: usize = 0;
    while j < b.len()
        invariant
            j <= b.len(),
            V::obeys_eq_spec() ==> forall|k: int|
                0 <= k < a.len() ==> binding_agrees(a@, b@, #[trigger] binding_keys(a@)[k]),
            V::obeys_eq_spec() ==> forall|k: int|
                0 <= k < j ==> binding_agrees(a@, b@, #[trigger] binding_keys(b@)[k]),
        decreases b.len() - j,
    {
        if !binding_matches(a, b, b[j].0) {
            assert(V::obeys_eq_spec() ==> !binding_agrees(a@, b@, binding_keys(b@)[j as int]));
            return false;
        }
        j += 1;
    }
    assert(V::obeys_eq_spec() ==> forall|key: Vid| #[trigger] binding_agrees(a@, b@, key)) by {
        if V::obeys_eq_spec() {
            assert forall|key: Vid| #[trigger] binding_agrees(a@, b@, key) by {
                let in_a = first_key(binding_keys(a@), key);
                let in_b = first_key(binding_keys(b@), key);
                if in_a is Some {
                    lemma_first_key_found(binding_keys(a@), key);
                    assert(binding_keys(a@)[in_a->Some_0] == key);
                } else if in_b is Some {
                    lemma_first_key_found(binding_keys(b@), key);
                    assert(binding_keys(b@)[in_b->Some_0] == key);
                }
            }
        }
    }
    true
}

/// The keys of fold outputs, in order.
pub open spec fn fold_value_keys(
    entries: Seq<((Eid, String), FieldValue)>,
) -> Seq<(Eid, Seq<char>)> {
    entries.map_values(|entry: ((Eid, String), FieldValue)| (entry.0.0, entry.0.1@))
}

/// Whether two tables of fold outputs agree under one key: both have the key
/// with equal values, or neither has it. Of two entries under one key the
/// earlier one counts.
pub open spec fn fold_value_agrees(
    a: Seq<((Eid, String), FieldValue)>,
    b: Seq<((Eid, String), FieldValue)>,
    key: (Eid, Seq<char>),
) -> bool {
    match (first_key(fold_value_keys(a), key), first_key(fold_value_keys(b), key)) {
        (Some(i), Some(j)) => a[i].1@.equals(b[j].1@),
        (None, None) => true,
        _ => false,
    }
}

/// The position of the first entry under a key.
fn fold_value_position(
    entries: &Vec<((Eid, String), FieldValue)>,
    key: (Eid, &String),
) -> (r: Option<usize>)
    ensures
        match first_key(fold_value_keys(entries@), (key.0, key.1@)) {
            Some(i) => r == Some(i as usize) && 0 <= i < entries.len(),
            None => r is None,
        },
{
    let mut i: usize = 0;
    while i < entries.len()
        invariant
            i <= entries.len(),
            forall|j: int|
                0 <= j < i ==> #[trigger] fold_value_keys(entries@)[j] != (key.0, key.1@),
        decreases entries.len() - i,
    {
        if entries[i].0.0.0 == key.0.0 && entries[i].0.1 == *key.1 {
            proof {
                lemma_first_key(fold_value_keys(entries@), (key.0, key.1@), i as int);
            }
            return Some(i);
        }
        i += 1;
    }
    proof {
        lemma_no_key(fold_value_keys(entries@), (key.0, key.1@));
    }
    None
}

/// Whether two tables agree under one key.
fn fold_value_matches(
    a: &Vec<((Eid, String), FieldValue)>,
    b: &Vec<((Eid, String), FieldValue)>,
    key: (Eid, &String),
) -> (r: bool)
    ensures
        r == fold_value_agrees(a@, b@, (key.0, key.1@)),
{
    match (fold_value_position(a, key), fold_value_position(b, key)) {
        (Some(i), Some(j)) => a[i].1.equals(&b[j].1),
        (None, None) => true,
        _ => false,
    }
}

/// Whether two tables are equal as mappings.
fn fold_value_tables_match(
    a: &Vec<((Eid, String), FieldValue)>,
    b: &Vec<((Eid, String), FieldValue)>,
) -> (r: bool)
    ensures
        r == (forall|key: (Eid, Seq<char>)| #[trigger] fold_value_agrees(a@, b@, key)),
{
    let mut i: usize = 0;
    while i < a.len()
        invariant
            i <= a.len(),
            forall|k: int|
                0 <= k < i ==> fold_value_agrees(a@, b@, #[trigger] fold_value_keys(a@)[k]),
        decreases a.len() - i,
    {
        if !fold_value_matches(a, b, (a[i].0.0, &a[i].0.1)) {
            assert(!fold_value_agrees(a@, b@, fold_value_keys(a@)[i as int]));
            return false;
        }
        i += 1;
    }
    let mut j: usize = 0;
    while j < b.len()
        invariant
            j <= b.len(),
            forall|k: int|
                0 <= k < a.len() ==> fold_value_agrees(a@, b@, #[trigger] fold_value_keys(a@)[k]),
            forall|k: int|
                0 <= k < j ==> fold_value_agrees(a@, b@, #[trigger] fold_value_keys(b@)[k]),
        decreases b.len() - j,
    {
        if !fold_value_matches(a, b, (b[j].0.0, &b[j].0.1)) {
            assert(!fold_value_agrees(a@, b@, fold_value_keys(b@)[j as int]));
            return false;
        }
        j += 1;
    }
    assert forall|key: (Eid, Seq<char>)| #[trigger] fold_value_agrees(a@, b@, key) by {
        let in_a = first_key(fold_value_keys(a@), key);
        let in_b = first_key(fold_value_keys(b@), key);
        if in_a is Some {
            lemma_first_key_found(fold_value_keys(a@), key);
            assert(fold_value_keys(a@)[in_a->Some_0] == key);
        } else if in_b is Some {
            lemma_first_key_found(fold_value_keys(b@), key);
            assert(fold_value_keys(b@)[in_b->Some_0] == key);
        }
    }
    true
}

/// The keys of tag values, in order.
pub open spec fn tag_keys(entries: Seq<(FieldRef, FieldValue)>) -> Seq<FieldRefView> {
    entries.map_values(|entry: (FieldRef, FieldValue)| field_ref_view(entry.0))
}

/// Whether two tables of tag values agree under one key: both have the key
/// with equal values, or neither has it. Of two entries under one key the
/// earlier one counts.
pub open spec fn tag_agrees(
    a: Seq<(FieldRef, FieldValue)>,
    b: Seq<(FieldRef, FieldValue)>,
    key: FieldRefView,
) -> bool {
    match (first_key(tag_keys(a), key), first_key(tag_keys(b), key)) {
        (Some(i), Some(j)) => a[i].1@.equals(b[j].1@),
        (None, None) => true,
        _ => false,
    }
}

/// The position of the first entry under a key.
fn tag_position(entries: &Vec<(FieldRef, FieldValue)>, key: &FieldRef) -> (r: Option<usize>)
    ensures
        match first_key(tag_keys(entries@), field_ref_view(*key)) {
            Some(i) => r == Some(i as usize) && 0 <= i < entries.len(),
            None => r is None,
        },
{
    let mut i: usize = 0;
    while i < entries.len()
        invariant
            i <= entries.len(),
            forall|j: int| 0 <= j < i ==> #[trigger] tag_keys(entries@)[j] != field_ref_view(*key),
        decreases entries.len() - i,
    {
        if field_refs_match(&entries[i].0, key) {
            proof {
                lemma_first_key(tag_keys(entries@), field_ref_view(*key), i as int);
            }
            return Some(i);
        }
        i += 1;
    }
    proof {
        lemma_no_key(tag_keys(entries@), field_ref_view(*key));
    }
    None
}

/// Whether two tables agree under one key.
fn tag_matches(
    a: &Vec<(FieldRef, FieldValue)>,
    b: &Vec<(FieldRef, FieldValue)>,
    key: &FieldRef,
) -> (r: bool)
    ensures
        r == tag_agrees(a@, b@, field_ref_view(*key)),
{
    match (tag_position(a, key), tag_position(b, key)) {
        (Some(i), Some(j)) => a[i].1.equals(&b[j].1),
        (None, None) => true,
        _ => false,
    }
}

/// Whether two tables are equal as mappings.
fn tag_tables_match(a: &Vec<(FieldRef, FieldValue)>, b: &Vec<(FieldRef, FieldValue)>) -> (r: bool)
    ensures
        r == (forall|key: FieldRefView| #[trigger] tag_agrees(a@, b@, key)),
{
    let mut i: usize = 0;
    while i < a.len()
        invariant
            i <= a.len(),
            forall|k: int| 0 <= k < i ==> tag_agrees(a@, b@, #[trigger] tag_keys(a@)[k]),
        decreases a.len() - i,
    {
        if !tag_matches(a, b, &a[i].0) {
            assert(!tag_agrees(a@, b@, tag_keys(a@)[i as int]));
            return false;
        }
        i += 1;
    }
    let mut j: usize = 0;
    while j < b.len()
        invariant
            j <= b.len(),
            forall|k: int| 0 <= k < a.len() ==> tag_agrees(a@, b@, #[trigger] tag_keys(a@)[k]),
            forall|k: int| 0 <= k < j ==> tag_agrees(a@, b@, #[trigger] tag_keys(b@)[k]),
        decreases b.len() - j,
    {
        if !tag_matches(a, b, &b[j].0) {
            assert(!tag_agrees(a@, b@, tag_keys(b@)[j as int]));
            return false;
        }
        j += 1;
    }
    assert forall|key: FieldRefView| #[trigger] tag_agrees(a@, b@, key) by {
        let in_a = first_key(tag_keys(a@), key);
        let in_b = first_key(tag_keys(b@), key);
        if in_a is Some {
            lemma_first_key_found(tag_keys(a@), key);
            assert(tag_keys(a@)[in_a->Some_0] == key);
        } else if in_b is Some {
            lemma_first_key_found(tag_keys(b@), key);
            assert(tag_keys(b@)[in_b->Some_0] == key);
        }
    }
    true
}

/// Whether two tables of bound vertices are the same mapping.
pub open spec fn same_bindings<V: PartialEq>(
    a: Seq<(Vid, Option<V>)>,
    b: Seq<(Vid, Option<V>)>,
) -> bool {
    forall|key: Vid| #[trigger] binding_agrees(a, b, key)
}

/// Whether two tables of fold outputs are the same mapping.
pub open spec fn same_folded_values(
    a: Seq<((Eid, String), FieldValue)>,
    b: Seq<((Eid, String), FieldValue)>,
) -> bool {
    forall|key: (Eid, Seq<char>)| #[trigger] fold_value_agrees(a, b, key)
}

/// Whether two tables of tag values are the same mapping.
pub open spec fn same_tags(a: Seq<(FieldRef, FieldValue)>, b: Seq<(FieldRef, FieldValue)>) -> bool {
    forall|key: FieldRefView| #[trigger] tag_agrees(a, b, key)
}

/// The folds of a table of fold rows, in order.
pub open spec fn folded_keys<V>(entries: Seq<(Eid, Vec<DataContext<V>>)>) -> Seq<Eid> {
    entries.map_values(|entry: (Eid, Vec<DataContext<V>>)| entry.0)
}

/// The position of the first entry of a fold.
pub fn fold_position<V>(entries: &Vec<(Eid, Vec<DataContext<V>>)>, eid: Eid) -> (r: Option<usize>)
    ensures
        match first_key(folded_keys(entries@), eid) {
            Some(i) => r == Some(i as usize) && 0 <= i < entries.len(),
            None => r is None,
        },
{
    let mut i: usize = 0;
    while i < entries.len()
        invariant
            i <= entries.len(),
            forall|j: int| 0 <= j < i ==> #[trigger] folded_keys(entries@)[j] != eid,
        decreases entries.len() - i,
    {
        if entries[i].0.0 == eid.0 {
            proof {
                lemma_first_key(folded_keys(entries@), eid, i as int);
            }
            return Some(i);
        }
        i += 1;
    }
    proof {
        lemma_no_key(folded_keys(entries@), eid);
    }
    None
}

impl<V: PartialEq> DataContext<V> {
    /// Structural equality of two rows: field by field, lists item by item
    /// and tables as mappings, whatever the order of their entries;
    /// vertices by the vertex type's own equality and values by theirs.
    pub open spec fn same(self, other: DataContext<V>) -> bool
        decreases self,
    {
        &&& same_vertex(self.active_vertex, other.active_vertex)
        &&& same_bindings(self.vertices@, other.vertices@)
        &&& same_values(self.values@, other.values@)
        &&& same_vertices(self.suspended_vertices@, other.suspended_vertices@)
        &&& forall|eid: Eid|
            #![trigger first_key(folded_keys(self.folded_contexts@), eid)]
            match (
                first_key(folded_keys(self.folded_contexts@), eid),
                first_key(folded_keys(other.folded_contexts@), eid),
            ) {
                (Some(i), Some(j)) => 0 <= i < self.folded_contexts.len()
                    && self.folded_contexts[i].1.len() == other.folded_contexts[j].1.len()
                    && forall|k: int|
                    0 <= k < self.folded_contexts[i].1.len() ==> (
                    #[trigger] self.folded_contexts[i].1[k]).same(other.folded_contexts[j].1[k]),
                (None, None) => true,
                _ => false,
            }
        &&& same_folded_values(self.folded_values@, other.folded_values@)
        &&& match (self.piggyback, other.piggyback) {
            (Some(a), Some(b)) => a.len() == b.len() && forall|j: int|
                0 <= j < a.len() ==> (#[trigger] a[j]).same(b[j]),
            (None, None) => true,
            _ => false,
        }
        &&& same_tags(self.imported_tags@, other.imported_tags@)
    }
}

/// Whether two lists of rows are equal row by row.
pub open spec fn same_rows<V: PartialEq>(a: Seq<DataContext<V>>, b: Seq<DataContext<V>>) -> bool {
    a.len() == b.len() && forall|j: int| 0 <= j < a.len() ==> (#[trigger] a[j]).same(b[j])
}

/// Whether two vertices that may be missing are equal.
pub fn vertices_match<V: PartialEq>(a: &Option<V>, b: &Option<V>) -> (r: bool)
    ensures
        V::obeys_eq_spec() ==> r == same_vertex(*a, *b),
{
    match (a, b) {
        (Some(x), Some(y)) => *x == *y,
        (None, None) => true,
        _ => false,
    }
}

/// Whether two field types are the same.
pub fn types_match(a: &FieldType, b: &FieldType) -> (r: bool)
    ensures
        r == same_type(*a, *b),
{
    a.base == b.base && a.nullable == b.nullable
}

/// Whether two tag targets are the same.
pub fn field_refs_match(a: &FieldRef, b: &FieldRef) -> (r: bool)
    ensures
        r == same_field_ref(*a, *b),
        r == (field_ref_view(*a) == field_ref_view(*b)),
{
    match (a, b) {
        (FieldRef::ContextField(x), FieldRef::ContextField(y)) => x.vertex_id.0 == y.vertex_id.0
            && x.field_name == y.field_name && types_match(&x.field_type, &y.field_type),
        (FieldRef::FoldSpecificField(x), FieldRef::FoldSpecificField(y)) => x.fold_eid.0
            == y.fold_eid.0 && x.fold_root_vid.0 == y.fold_root_vid.0,
        _ => false,
    }
}

/// Whether two lists of values are equal item by item.
pub fn values_match(a: &Vec<FieldValue>, b: &Vec<FieldValue>) -> (r: bool)
    ensures
        r == same_values(a@, b@),
{
    if a.len() != b.len() {
        return false;
    }
    let mut i: usize = 0;
    while i < a.len()
        invariant
            i <= a.len(),
            a.len() == b.len(),
            forall|k: int| 0 <= k < i ==> (#[trigger] a[k])@.equals(b[k]@),
        decreases a.len() - i,
    {
        if !a[i].equals(&b[i]) {
            return false;
        }
        i += 1;
    }
    true
}

fn suspended_match<V: PartialEq>(a: &Vec<Option<V>>, b: &Vec<Option<V>>) -> (r: bool)
    ensures
        V::obeys_eq_spec() ==> r == same_vertices(a@, b@),
{
    if a.len() != b.len() {
        return false;
    }
    let mut i: usize = 0;
    while i < a.len()
        invariant
            i <= a.len(),
            a.len() == b.len(),
            V::obeys_eq_spec() ==> forall|k: int| 0 <= k < i ==> same_vertex(#[trigger] a[k], b[k]),
        decreases a.len() - i,
    {
        if !vertices_match(&a[i], &b[i]) {
            return false;
        }
        i += 1;
    }
    true
}

fn bindings_match<V: PartialEq>(a: &Vec<(Vid, Option<V>)>, b: &Vec<(Vid, Option<V>)>) -> (r: bool)
    ensures
        V::obeys_eq_spec() ==> r == same_bindings(a@, b@),
{
    binding_tables_match(a, b)
}

fn folded_values_match(
    a: &Vec<((Eid, String), FieldValue)>,
    b: &Vec<((Eid, String), FieldValue)>,
) -> (r: bool)
    ensures
        r == same_folded_values(a@, b@),
{
    fold_value_tables_match(a, b)
}

fn tags_match(a: &Vec<(FieldRef, FieldValue)>, b: &Vec<(FieldRef, FieldValue)>) -> (r: bool)
    ensures
        r == same_tags(a@, b@),
{
    tag_tables_match(a, b)
}

/// Whether two lists of rows are equal row by row.
pub fn rows_match<V: PartialEq>(a: &Vec<DataContext<V>>, b: &Vec<DataContext<V>>) -> (r: bool)
    ensures
        V::obeys_eq_spec() ==> r == same_rows(a@, b@),
    decreases *a,
{
    if a.len() != b.len() {
        return false;
    }
    let mut i: usize = 0;
    while i < a.len()
        invariant
            i <= a.len(),
            a.len() == b.len(),
            V::obeys_eq_spec() ==> forall|k: int| 0 <= k < i ==> (#[trigger] a[k]).same(b[k]),
        decreases a.len() - i,
    {
        if !a[i].same_as(&b[i]) {
            return false;
        }
        i += 1;
    }
    true
}

impl<V: PartialEq> DataContext<V> {
    /// Whether two rows agree on the fold `eid`: both hold its rows, and
    /// these are equal row by row, or neither holds them.
    pub open spec fn folds_agree(self, other: DataContext<V>, eid: Eid) -> bool {
        match (
            first_key(folded_keys(self.folded_contexts@), eid),
            first_key(folded_keys(other.folded_contexts@), eid),
        ) {
            (Some(i), Some(j)) => same_rows(
                self.folded_contexts[i].1@,
                other.folded_contexts[j].1@,
            ),
            (None, None) => true,
            _ => false,
        }
    }

    /// Whether the fold tables of two rows are the same mapping.
    pub open spec fn same_folds(self, other: DataContext<V>) -> bool {
        forall|eid: Eid| #[trigger] self.folds_agree(other, eid)
    }

    /// Whether the rows that ride along with two rows are equal.
    pub open spec fn same_piggyback(self, other: DataContext<V>) -> bool {
        match (self.piggyback, other.piggyback) {
            (Some(a), Some(b)) => same_rows(a@, b@),
            (None, None) => true,
            _ => false,
        }
    }

    /// Structural equality, field by field.
    pub proof fn lemma_same_by_fields(self, other: DataContext<V>)
        ensures
            self.same(other) <==> {
                &&& same_vertex(self.active_vertex, other.active_vertex)
                &&& same_bindings(self.vertices@, other.vertices@)
                &&& same_values(self.values@, other.values@)
                &&& same_vertices(self.suspended_vertices@, other.suspended_vertices@)
                &&& self.same_folds(other)
                &&& same_folded_values(self.folded_values@, other.folded_values@)
                &&& self.same_piggyback(other)
                &&& same_tags(self.imported_tags@, other.imported_tags@)
            },
    {
        let mine = folded_keys(self.folded_contexts@);
        let theirs = folded_keys(other.folded_contexts@);
        if self.same(other) {
            assert forall|eid: Eid| #[trigger] self.folds_agree(other, eid) by {
                let at = (first_key(mine, eid), first_key(theirs, eid));
                if let (Some(i), Some(j)) = at {
                    assert forall|k: int| 0 <= k < self.folded_contexts[i].1@.len() implies (
                    #[trigger] self.folded_contexts[i].1@[k]).same(
                        other.folded_contexts[j].1@[k],
                    ) by {
                        assert(self.folded_contexts[i].1[k].same(other.folded_contexts[j].1[k]));
                    }
                }
            }
        }
        if self.same_folds(other) {
            assert forall|eid: Eid| #![trigger first_key(mine, eid)] match (
                first_key(mine, eid),
                first_key(theirs, eid),
            ) {
                (Some(i), Some(j)) => 0 <= i < self.folded_contexts.len()
                    && self.folded_contexts[i].1.len() == other.folded_contexts[j].1.len()
                    && forall|k: int|
                    0 <= k < self.folded_contexts[i].1.len() ==> (
                    #[trigger] self.folded_contexts[i].1[k]).same(other.folded_contexts[j].1[k]),
                (None, None) => true,
                _ => false,
            } by {
                assert(self.folds_agree(other, eid));
                if let (Some(i), Some(j)) = (first_key(mine, eid), first_key(theirs, eid)) {
                    lemma_first_key_found(mine, eid);
                    assert(same_rows(self.folded_contexts[i].1@, other.folded_contexts[j].1@));
                    assert forall|k: int| 0 <= k < self.folded_contexts[i].1.len() implies (
                    #[trigger] self.folded_contexts[i].1[k]).same(
                        other.folded_contexts[j].1[k],
                    ) by {
                        assert(self.folded_contexts[i].1@[k].same(other.folded_contexts[j].1@[k]));
                    }
                }
            }
        }
    }

    /// Whether two rows agree on the fold `eid`.
    fn fold_matches(&self, other: &DataContext<V>, eid: Eid) -> (r: bool)
        ensures
            V::obeys_eq_spec() ==> r == self.folds_agree(*other, eid),
        decreases *self, 0nat,
    {
        match (fold_position(&self.folded_contexts, eid), fold_position(&other.folded_contexts, eid)) {
            (Some(i), Some(j)) => {
                assert(decreases_to!(*self => self.folded_contexts));
                assert(decreases_to!(self.folded_contexts => self.folded_contexts[i as int]));
                assert(decreases_to!(self.folded_contexts[i as int] => self.folded_contexts[i as int].1));
                rows_match(&self.folded_contexts[i].1, &other.folded_contexts[j].1)
            },
            (None, None) => true,
            _ => false,
        }
    }

    fn folds_match(&self, other: &DataContext<V>) -> (r: bool)
        ensures
            V::obeys_eq_spec() ==> r == self.same_folds(*other),
        decreases *self, 1nat,
    {
        let ghost mine = folded_keys(self.folded_contexts@);
        let ghost theirs = folded_keys(other.folded_contexts@);
        let mut i: usize = 0;
        while i < self.folded_contexts.len()
            invariant
                i <= self.folded_contexts.len(),
                mine == folded_keys(self.folded_contexts@),
                V::obeys_eq_spec() ==> forall|k: int|
                    0 <= k < i ==> self.folds_agree(*other, #[trigger] mine[k]),
            decreases self.folded_contexts.len() - i,
        {
            if !self.fold_matches(other, self.folded_contexts[i].0) {
                assert(V::obeys_eq_spec() ==> !self.folds_agree(*other, mine[i as int]));
                return false;
            }
            i += 1;
        }
        let mut j: usize = 0;
        while j < other.folded_contexts.len()
            invariant
                j <= other.folded_contexts.len(),
                mine == folded_keys(self.folded_contexts@),
                theirs == folded_keys(other.folded_contexts@),
                V::obeys_eq_spec() ==> forall|k: int|
                    0 <= k < self.folded_contexts.len() ==> self.folds_agree(
                        *other,
                        #[trigger] mine[k],
                    ),
                V::obeys_eq_spec() ==> forall|k: int|
                    0 <= k < j ==> self.folds_agree(*other, #[trigger] theirs[k]),
            decreases other.folded_contexts.len() - j,
        {
            if !self.fold_matches(other, other.folded_contexts[j].0) {
                assert(V::obeys_eq_spec() ==> !self.folds_agree(*other, theirs[j as int]));
                return false;
            }
            j += 1;
        }
        proof {
            if V::obeys_eq_spec() {
                assert forall|eid: Eid| #[trigger] self.folds_agree(*other, eid) by {
                    let in_mine = first_key(mine, eid);
                    let in_theirs = first_key(theirs, eid);
                    if in_mine is Some {
                        lemma_first_key_found(mine, eid);
                        assert(mine[in_mine->Some_0] == eid);
                    } else if in_theirs is Some {
                        lemma_first_key_found(theirs, eid);
                        assert(theirs[in_theirs->Some_0] == eid);
                    }
                }
            }
        }
        true
    }

    /// Whether two rows are equal; see [`DataContext::same`].
    pub fn same_as(&self, other: &DataContext<V>) -> (r: bool)
        ensures
            V::obeys_eq_spec() ==> r == self.same(*other),
        decreases *self, 2nat,
    {
        proof {
            self.lemma_same_by_fields(*other);
        }
        if !vertices_match(&self.active_vertex, &other.active_vertex) {
            return false;
        }
        if !bindings_match(&self.vertices, &other.vertices) {
            return false;
        }
        if !values_match(&self.values, &other.values) {
            return false;
        }
        if !suspended_match(&self.suspended_vertices, &other.suspended_vertices) {
            return false;
        }
        if !self.folds_match(other) {
            return false;
        }
        if !folded_values_match(&self.folded_values, &other.folded_values) {
            return false;
        }
        let piggyback = match (&self.piggyback, &other.piggyback) {
            (Some(a), Some(b)) => {
                assert(decreases_to!(*self => self.piggyback));
                assert(decreases_to!(self.piggyback => *a));
                rows_match(a, b)
            },
            (None, None) => true,
            _ => false,
        };
        if !piggyback {
            return false;
        }
        tags_match(&self.imported_tags, &other.imported_tags)
    }

    /// The position of the vertex `vid` among the bound vertices.
    pub open spec fn binding_position(self, vid: Vid) -> Option<int> {
        first_key(binding_keys(self.vertices@), vid)
    }

    /// What the vertex `vid` is bound to, if it is bound at all. A vertex
    /// bound to `None` belongs to an optional scope that had no match.
    pub fn binding(&self, vid: Vid) -> (r: Option<&Option<V>>)
        ensures
            match self.binding_position(vid) {
                Some(i) => 0 <= i < self.vertices.len() && r == Some(&self.vertices[i].1),
                None => r is None,
            },
    {
        match binding_position(&self.vertices, vid) {
            Some(i) => Some(&self.vertices[i].1),
            None => None,
        }
    }
}

/// Whether no key stands twice among the bound vertices.
fn bindings_stand_once<V>(entries: &Vec<(Vid, Option<V>)>) -> (r: bool)
    ensures
        r == distinct_keys(binding_keys(entries@)),
{
    let mut i: usize = 0;
    while i < entries.len()
        invariant
            i <= entries.len(),
            each_key_first(binding_keys(entries@), i as int),
        decreases entries.len() - i,
    {
        let found = binding_position(entries, entries[i].0);
        assert(found == Some(i) <==> first_key(
            binding_keys(entries@),
            binding_keys(entries@)[i as int],
        )
            == Some(i as int));
        if found != Some(i) {
            proof {
                lemma_distinct_by_position(binding_keys(entries@));
            }
            return false;
        }
        i += 1;
    }
    proof {
        lemma_distinct_by_position(binding_keys(entries@));
    }
    true
}

/// Whether no key stands twice among the folds.
fn folds_stand_once<V>(entries: &Vec<(Eid, Vec<DataContext<V>>)>) -> (r: bool)
    ensures
        r == distinct_keys(folded_keys(entries@)),
{
    let mut i: usize = 0;
    while i < entries.len()
        invariant
            i <= entries.len(),
            each_key_first(folded_keys(entries@), i as int),
        decreases entries.len() - i,
    {
        let found = fold_position(entries, entries[i].0);
        assert(found == Some(i) <==> first_key(
            folded_keys(entries@),
            folded_keys(entries@)[i as int],
        )
            == Some(i as int));
        if found != Some(i) {
            proof {
                lemma_distinct_by_position(folded_keys(entries@));
            }
            return false;
        }
        i += 1;
    }
    proof {
        lemma_distinct_by_position(folded_keys(entries@));
    }
    true
}

/// Whether no key stands twice among the fold outputs.
fn fold_values_stand_once(entries: &Vec<((Eid, String), FieldValue)>) -> (r: bool)
    ensures
        r == distinct_keys(fold_value_keys(entries@)),
{
    let mut i: usize = 0;
    while i < entries.len()
        invariant
            i <= entries.len(),
            each_key_first(fold_value_keys(entries@), i as int),
        decreases entries.len() - i,
    {
        let found = fold_value_position(entries, (entries[i].0.0, &entries[i].0.1));
        assert(found == Some(i) <==> first_key(
            fold_value_keys(entries@),
            fold_value_keys(entries@)[i as int],
        )
            == Some(i as int));
        if found != Some(i) {
            proof {
                lemma_distinct_by_position(fold_value_keys(entries@));
            }
            return false;
        }
        i += 1;
    }
    proof {
        lemma_distinct_by_position(fold_value_keys(entries@));
    }
    true
}

/// Whether no key stands twice among the tags.
fn tags_stand_once(entries: &Vec<(FieldRef, FieldValue)>) -> (r: bool)
    ensures
        r == distinct_keys(tag_keys(entries@)),
{
    let mut i: usize = 0;
    while i < entries.len()
        invariant
            i <= entries.len(),
            each_key_first(tag_keys(entries@), i as int),
        decreases entries.len() - i,
    {
        let found = tag_position(entries, &entries[i].0);
        assert(found == Some(i) <==> first_key(tag_keys(entries@), tag_keys(entries@)[i as int])
            == Some(i as int));
        if found != Some(i) {
            proof {
                lemma_distinct_by_position(tag_keys(entries@));
            }
            return false;
        }
        i += 1;
    }
    proof {
        lemma_distinct_by_position(tag_keys(entries@));
    }
    true
}

impl<V> DataContext<V> {
    /// The tables of the row are mappings: no key stands twice among the
    /// bound vertices, the folds, the fold outputs or the tags.
    pub open spec fn keeps_each_key_once(&self) -> bool {
        &&& distinct_keys(binding_keys(self.vertices@))
        &&& distinct_keys(folded_keys(self.folded_contexts@))
        &&& distinct_keys(fold_value_keys(self.folded_values@))
        &&& distinct_keys(tag_keys(self.imported_tags@))
    }

    /// Whether the tables of the row are mappings; see
    /// [`DataContext::keeps_each_key_once`].
    pub fn has_each_key_once(&self) -> (r: bool)
        ensures
            r == self.keeps_each_key_once(),
    {
        bindings_stand_once(&self.vertices) && folds_stand_once(&self.folded_contexts)
            && fold_values_stand_once(&self.folded_values) && tags_stand_once(
            &self.imported_tags,
        )
    }
}

impl<V: PartialEq> PartialEq for DataContext<V> {
    fn eq(&self, other: &DataContext<V>) -> (r: bool) {
        self.same_as(other)
    }
}

impl<V: PartialEq> vstd::std_specs::cmp::PartialEqSpecImpl for DataContext<V> {
    open spec fn obeys_eq_spec() -> bool {
        V::obeys_eq_spec()
    }

    open spec fn eq_spec(&self, other: &DataContext<V>) -> bool {
        self.same(*other)
    }
}

} // verus!
