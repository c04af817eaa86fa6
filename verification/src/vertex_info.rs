//! What an adapter can ask about a vertex of the query: its type, the values
//! that its filters leave to a field, and the edges that leave it.
use crate::candidates::{CandidateValue, RangeBoundKind};
use crate::dynamic_hints::DynamicallyResolvedValue;
use crate::hints::{copy_recursive, EdgeInfo, LocalQueryInfo, NeighboringQueryInfo, QueryInfo};
use crate::ir::{
    first_key, is_first_key, lemma_first_key, lemma_first_key_found, lemma_no_key, lemma_some_key,
    share, Argument, Arguments, ContextField, Eid, FieldRef, FieldType, IREdge, IRFold,
    IRQueryComponent, IRVertex, Operation, Recursive, Vid,
};
use crate::static_hints::{
    asks_not_null, asks_null, candidate_view, concerns, concerns_field, range_view, serves_all,
    static_candidate, static_field_range_of, static_field_value_of, static_range,
};
use std::sync::Arc;
use vstd::prelude::*;

verus! {

/// The tag that a filter compares its field with, and whether it asks for
/// membership in the tagged value: an equality or a membership with a tag
/// of a field of a vertex. Tags of what belongs to a fold count for nothing.
pub open spec fn tag_of(op: Operation) -> Option<(ContextField, bool)> {
    match op {
        Operation::Equals(_, Argument::Tag(FieldRef::ContextField(field))) => Some((field, false)),
        Operation::OneOf(_, Argument::Tag(FieldRef::ContextField(field))) => Some((field, true)),
        _ => None,
    }
}

/// Whether a filter compares the field `name` with a tag that is known at
/// the vertex `limit`: it stands on that field, its right-hand side is a
/// tag, and the tag's vertex is `limit` or comes before it in query order.
/// Without a limit every tag is known.
pub open spec fn tag_is_known(op: Operation, limit: Option<Vid>, name: Seq<char>) -> bool {
    &&& concerns(op, name)
    &&& tag_of(op) matches Some((field, _)) && (limit matches Some(vid) ==> field.vertex_id.0
        <= vid.0)
}

/// For each filter, whether it compares the field `name` with a tag that
/// is known at `limit`.
pub open spec fn known_tags(filters: Seq<Operation>, limit: Option<Vid>, name: Seq<char>) -> Seq<
    bool,
> {
    filters.map_values(|op: Operation| tag_is_known(op, limit, name))
}

/// Whether an edge leaves the vertex `vid` under the name `name`; with
/// `required`, whether it also is neither optional nor recursive.
pub open spec fn edge_fits(edge: IREdge, vid: Vid, name: Seq<char>, required: bool) -> bool {
    &&& edge.from_vid == vid
    &&& edge.edge_name@ == name
    &&& required ==> !edge.optional && edge.recursive is None
}

/// For each edge, whether it fits.
pub open spec fn fitting_edges(
    edges: Seq<Arc<IREdge>>,
    vid: Vid,
    name: Seq<char>,
    required: bool,
) -> Seq<bool> {
    edges.map_values(|edge: Arc<IREdge>| edge_fits(*edge, vid, name, required))
}

/// Whether a fold leaves the vertex `vid` under the name `name`.
pub open spec fn fold_fits(fold: IRFold, vid: Vid, name: Seq<char>) -> bool {
    fold.from_vid == vid && fold.edge_name@ == name
}

/// For each fold, whether it fits.
pub open spec fn fitting_folds(folds: Seq<Arc<IRFold>>, vid: Vid, name: Seq<char>) -> Seq<bool> {
    folds.map_values(|fold: Arc<IRFold>| fold_fits(*fold, vid, name))
}

/// Whether `info` shows the edge with these properties, as seen by an
/// adapter that stands at `starting` and has come along `path`.
pub open spec fn shows(
    info: EdgeInfo,
    query: QueryInfo,
    starting: Vid,
    path: Seq<Eid>,
    eid: Eid,
    to_vid: Vid,
    optional: bool,
    recursive: Option<Recursive>,
    folded: bool,
) -> bool {
    &&& info.eid == eid
    &&& info.optional == optional
    &&& info.recursive == recursive
    &&& info.folded == folded
    &&& info.destination.query == query
    &&& info.destination.starting_vertex == starting
    &&& info.destination.neighbor_vertex == to_vid
    &&& info.destination.neighbor_path@ == path.push(eid)
}

/// Whether `info` shows the edge `edge`, which is not folded.
pub open spec fn shows_edge(
    info: EdgeInfo,
    query: QueryInfo,
    starting: Vid,
    path: Seq<Eid>,
    edge: IREdge,
) -> bool {
    shows(
        info,
        query,
        starting,
        path,
        edge.eid,
        edge.to_vid,
        edge.optional,
        edge.recursive,
        false,
    )
}

/// Whether `info` shows the fold `fold`: a fold may find nothing, so it
/// counts as optional, and it is never recursive.
pub open spec fn shows_fold(
    info: EdgeInfo,
    query: QueryInfo,
    starting: Vid,
    path: Seq<Eid>,
    fold: IRFold,
) -> bool {
    shows(info, query, starting, path, fold.eid, fold.to_vid, true, None, true)
}

/// Whether the number `eid` is the least among the edges of the component
/// that fit, and the folds that fit where folds count too.
pub open spec fn is_least_fitting(
    component: IRQueryComponent,
    vid: Vid,
    name: Seq<char>,
    required: bool,
    eid: Eid,
) -> bool {
    &&& forall|i: int|
        0 <= i < component.edges.len() && edge_fits(
            *#[trigger] component.edges[i],
            vid,
            name,
            required,
        ) ==> eid.0 <= component.edges[i].eid.0
    &&& !required ==> forall|j: int|
        0 <= j < component.folds.len() && fold_fits(*#[trigger] component.folds[j], vid, name)
            ==> eid.0 <= component.folds[j].eid.0
}

/// What is found by the name of an edge: of the first edge of the component
/// that fits and, where folds count too, the first fold that fits, the one
/// with the lesser number. In a component that keeps its order this is the
/// one with the least number of all that fit; see [`found_edge_is_least`].
pub open spec fn found_edge(
    r: Option<EdgeInfo>,
    query: QueryInfo,
    component: IRQueryComponent,
    vid: Vid,
    starting: Vid,
    path: Seq<Eid>,
    name: Seq<char>,
    required: bool,
) -> bool {
    let edge = first_key(fitting_edges(component.edges@, vid, name, required), true);
    let fold = if required {
        None
    } else {
        first_key(fitting_folds(component.folds@, vid, name), true)
    };
    match (edge, fold) {
        (Some(i), Some(j)) => r matches Some(info) && if component.edges[i].eid.0
            < component.folds[j].eid.0 {
            shows_edge(info, query, starting, path, *component.edges[i])
        } else {
            shows_fold(info, query, starting, path, *component.folds[j])
        },
        (Some(i), None) => r matches Some(info) && shows_edge(
            info,
            query,
            starting,
            path,
            *component.edges[i],
        ),
        (None, Some(j)) => r matches Some(info) && shows_fold(
            info,
            query,
            starting,
            path,
            *component.folds[j],
        ),
        (None, None) => r is None,
    }
}

/// In a component that keeps its order, the edge that is found by a name is
/// the one with the least number among all edges and folds that fit, and
/// none is found only where none fits.
pub proof fn found_edge_is_least(
    r: Option<EdgeInfo>,
    query: QueryInfo,
    component: Arc<IRQueryComponent>,
    vid: Vid,
    starting: Vid,
    path: Seq<Eid>,
    name: Seq<char>,
    required: bool,
)
    requires
        component.well_formed(),
        found_edge(r, query, *component, vid, starting, path, name, required),
    ensures
        r matches Some(info) ==> is_least_fitting(*component, vid, name, required, info.eid),
        r is None ==> forall|i: int|
            0 <= i < component.edges.len() ==> !edge_fits(
                *#[trigger] component.edges[i],
                vid,
                name,
                required,
            ),
        r is None && !required ==> forall|j: int|
            0 <= j < component.folds.len() ==> !fold_fits(*#[trigger] component.folds[j], vid, name),
{
    let edge_flags = fitting_edges(component.edges@, vid, name, required);
    let fold_flags = fitting_folds(component.folds@, vid, name);
    let edge = first_key(edge_flags, true);
    let fold = first_key(fold_flags, true);
    if edge is Some {
        lemma_first_key_found(edge_flags, true);
    }
    if fold is Some {
        lemma_first_key_found(fold_flags, true);
    }
    assert forall|i: int|
        0 <= i < component.edges.len() && edge_fits(
            *#[trigger] component.edges[i],
            vid,
            name,
            required,
        ) implies edge matches Some(k) && component.edges[k].eid.0 <= component.edges[i].eid.0 by {
        assert(edge_flags[i] == true);
        if edge is None {
            assert(!is_first_key(edge_flags, true, i));
            lemma_some_key(edge_flags, true, i);
        } else {
            let k = edge->Some_0;
            if i < k {
                assert(edge_flags[i] != true);
            }
        }
    }
    assert forall|j: int|
        0 <= j < component.folds.len() && fold_fits(
            *#[trigger] component.folds[j],
            vid,
            name,
        ) implies fold matches Some(k) && component.folds[k].eid.0 <= component.folds[j].eid.0 by {
        assert(fold_flags[j] == true);
        if fold is None {
            lemma_some_key(fold_flags, true, j);
        } else {
            let k = fold->Some_0;
            if j < k {
                assert(fold_flags[j] != true);
            }
        }
    }
}

/// What is found for a filter against a tag: the hint for the first filter
/// of the vertex that compares the field `name` with a tag known at
/// `limit`, in the order of the filters.
pub open spec fn found_tag(
    r: Option<DynamicallyResolvedValue>,
    query: QueryInfo,
    vid: Vid,
    starting: Vid,
    limit: Option<Vid>,
    name: Seq<char>,
) -> bool {
    let filters = query.query.indexed_query.vertex_of(vid).filters@;
    match first_key(known_tags(filters, limit, name), true) {
        Some(i) => r matches Some(hint) && hint.query == query && hint.vid == vid
            && hint.resolve_on_component == query.query.indexed_query.component_of(starting)
            && tag_of(filters[i]) == Some((hint.context_field, hint.is_multiple)),
        None => r is None,
    }
}

/// The component of the vertex `vid`.
fn component_in_view(query: &QueryInfo, vid: Vid) -> (r: &Arc<IRQueryComponent>)
    requires
        query.query.indexed_query.has_vertex(vid),
    ensures
        *r == query.query.indexed_query.component_of(vid),
{
    query.query.indexed_query.component(vid).unwrap()
}

/// The vertex `vid`.
fn vertex_in_view(query: &QueryInfo, vid: Vid) -> (r: &IRVertex)
    requires
        query.query.indexed_query.has_vertex(vid),
    ensures
        *r == query.query.indexed_query.vertex_of(vid),
        r.vid == vid,
{
    let component = component_in_view(query, vid);
    proof {
        lemma_first_key_found(component.vertex_keys(), vid);
    }
    component.vertex(vid).unwrap()
}

/// A copy of a field type.
fn copy_type(field_type: &FieldType) -> (r: FieldType)
    ensures
        r == *field_type,
{
    FieldType { base: field_type.base.clone(), nullable: field_type.nullable }
}

/// A copy of a field of a vertex.
fn copy_field(field: &ContextField) -> (r: ContextField)
    ensures
        r == *field,
{
    ContextField {
        vertex_id: field.vertex_id,
        field_name: field.field_name.clone(),
        field_type: copy_type(&field.field_type),
    }
}

/// The tag that a filter compares the field `name` with, if it is known
/// at `limit`.
fn known_tag<'a>(op: &'a Operation, limit: Option<Vid>, name: &String) -> (r: Option<
    (&'a ContextField, bool),
>)
    ensures
        r is Some == tag_is_known(*op, limit, name@),
        r matches Some(pair) ==> tag_of(*op) == Some((*pair.0, pair.1)),
{
    if !concerns_field(op, name) {
        return None;
    }
    let tag = match op {
        Operation::Equals(_, Argument::Tag(FieldRef::ContextField(field))) => Some((field, false)),
        Operation::OneOf(_, Argument::Tag(FieldRef::ContextField(field))) => Some((field, true)),
        _ => None,
    };
    match tag {
        Some((field, is_multiple)) => {
            let known = match limit {
                Some(vid) => field.vertex_id.0 <= vid.0,
                None => true,
            };
            if known {
                Some((field, is_multiple))
            } else {
                None
            }
        },
        None => None,
    }
}

/// The hint for the first filter of the vertex `vid` that compares the
/// field `field_name` with a known tag.
fn dynamic_hint(
    query: &QueryInfo,
    vid: Vid,
    starting: Vid,
    limit: Option<Vid>,
    field_name: &str,
) -> (r: Option<DynamicallyResolvedValue>)
    requires
        query.query.indexed_query.has_vertex(vid),
        query.query.indexed_query.has_vertex(starting),
    ensures
        found_tag(r, *query, vid, starting, limit, field_name@),
{
    let name = field_name.to_owned();
    let vertex = vertex_in_view(query, vid);
    let ghost flags = known_tags(vertex.filters@, limit, field_name@);
    let mut i: usize = 0;
    while i < vertex.filters.len()
        invariant
            i <= vertex.filters.len(),
            name@ == field_name@,
            flags == known_tags(vertex.filters@, limit, field_name@),
            query.query.indexed_query.has_vertex(starting),
            *vertex == query.query.indexed_query.vertex_of(vid),
            forall|j: int| 0 <= j < i ==> #[trigger] flags[j] != true,
        decreases vertex.filters.len() - i,
    {
        match known_tag(&vertex.filters[i], limit, &name) {
            Some((field, is_multiple)) => {
                proof {
                    lemma_first_key(flags, true, i as int);
                }
                return Some(
                    DynamicallyResolvedValue {
                        query: query.duplicate(),
                        vid,
                        resolve_on_component: share(component_in_view(query, starting)),
                        context_field: copy_field(field),
                        is_multiple,
                    },
                );
            },
            None => {},
        }
        i += 1;
    }
    proof {
        lemma_no_key(flags, true);
    }
    None
}

/// What an adapter that stands at `starting` and has come along `path`
/// sees of an edge with these properties.
fn edge_info(
    query: &QueryInfo,
    starting: Vid,
    path: &Vec<Eid>,
    eid: Eid,
    to_vid: Vid,
    optional: bool,
    recursive: Option<Recursive>,
    folded: bool,
) -> (r: EdgeInfo)
    ensures
        shows(r, *query, starting, path@, eid, to_vid, optional, recursive, folded),
{
    let mut neighbor_path: Vec<Eid> = Vec::new();
    let mut i: usize = 0;
    while i < path.len()
        invariant
            i <= path.len(),
            neighbor_path@ == path@.take(i as int),
        decreases path.len() - i,
    {
        neighbor_path.push(path[i]);
        assert(path@.take(i + 1) =~= path@.take(i as int).push(path@[i as int]));
        i += 1;
    }
    assert(path@.take(path.len() as int) =~= path@);
    neighbor_path.push(eid);
    EdgeInfo {
        eid,
        optional,
        recursive,
        folded,
        destination: NeighboringQueryInfo {
            query: query.duplicate(),
            starting_vertex: starting,
            neighbor_vertex: to_vid,
            neighbor_path,
        },
    }
}

/// The first edge of the component that fits, if any.
fn find_edge(component: &IRQueryComponent, vid: Vid, name: &String, required: bool) -> (r: Option<
    usize,
>)
    ensures
        match first_key(fitting_edges(component.edges@, vid, name@, required), true) {
            Some(i) => r == Some(i as usize) && 0 <= i < component.edges.len(),
            None => r is None,
        },
{
    let ghost flags = fitting_edges(component.edges@, vid, name@, required);
    let mut i: usize = 0;
    while i < component.edges.len()
        invariant
            i <= component.edges.len(),
            flags == fitting_edges(component.edges@, vid, name@, required),
            forall|j: int| 0 <= j < i ==> #[trigger] flags[j] != true,
        decreases component.edges.len() - i,
    {
        let edge = &component.edges[i];
        if edge.from_vid.0 == vid.0 && edge.edge_name == *name && (!required || (!edge.optional
            && edge.recursive.is_none())) {
            proof {
                lemma_first_key(flags, true, i as int);
            }
            return Some(i);
        }
        i += 1;
    }
    proof {
        lemma_no_key(flags, true);
    }
    None
}

/// The first fold of the component that fits, if any.
fn find_fold(component: &IRQueryComponent, vid: Vid, name: &String) -> (r: Option<usize>)
    ensures
        match first_key(fitting_folds(component.folds@, vid, name@), true) {
            Some(i) => r == Some(i as usize) && 0 <= i < component.folds.len(),
            None => r is None,
        },
{
    let ghost flags = fitting_folds(component.folds@, vid, name@);
    let mut i: usize = 0;
    while i < component.folds.len()
        invariant
            i <= component.folds.len(),
            flags == fitting_folds(component.folds@, vid, name@),
            forall|j: int| 0 <= j < i ==> #[trigger] flags[j] != true,
        decreases component.folds.len() - i,
    {
        let fold = &component.folds[i];
        if fold.from_vid.0 == vid.0 && fold.edge_name == *name {
            proof {
                lemma_first_key(flags, true, i as int);
            }
            return Some(i);
        }
        i += 1;
    }
    proof {
        lemma_no_key(flags, true);
    }
    None
}

/// The first edge named `edge_name` that leaves the vertex `vid`.
fn first_edge_named(
    query: &QueryInfo,
    vid: Vid,
    starting: Vid,
    path: &Vec<Eid>,
    edge_name: &str,
    required: bool,
) -> (r: Option<EdgeInfo>)
    requires
        query.well_formed(),
        query.query.indexed_query.has_vertex(vid),
        query.query.indexed_query.has_vertex(starting),
    ensures
        found_edge(
            r,
            *query,
            *query.query.indexed_query.component_of(vid),
            vid,
            starting,
            path@,
            edge_name@,
            required,
        ),
        r matches Some(info) ==> info.destination.well_formed(),
        r matches Some(info) ==> is_least_fitting(
            *query.query.indexed_query.component_of(vid),
            vid,
            edge_name@,
            required,
            info.eid,
        ),
{
    let component = component_in_view(query, vid);
    let name = edge_name.to_owned();
    let ghost at = query.query.indexed_query.vid_position(vid).unwrap();
    proof {
        lemma_first_key_found(query.query.indexed_query.vid_keys(), vid);
    }
    let edge = find_edge(component, vid, &name, required);
    let fold = if required {
        None
    } else {
        find_fold(component, vid, &name)
    };
    let take_edge = match (edge, fold) {
        (Some(i), Some(j)) => component.edges[i].eid.0 < component.folds[j].eid.0,
        (Some(_), None) => true,
        _ => false,
    };
    let r = if take_edge {
        match edge {
            Some(i) => {
                let found = &component.edges[i];
                proof {
                    assert(query.query.indexed_query.has_vertex(
                        query.query.indexed_query.vids[at].1.edges[i as int].to_vid,
                    ));
                }
                Some(
                    edge_info(
                        query,
                        starting,
                        path,
                        found.eid,
                        found.to_vid,
                        found.optional,
                        copy_recursive(&found.recursive),
                        false,
                    ),
                )
            },
            None => None,
        }
    } else {
        match fold {
            Some(j) => {
                let found = &component.folds[j];
                proof {
                    assert(query.query.indexed_query.has_vertex(
                        query.query.indexed_query.vids[at].1.folds[j as int].to_vid,
                    ));
                }
                Some(edge_info(query, starting, path, found.eid, found.to_vid, true, None, true))
            },
            None => None,
        }
    };
    let ghost found = r;
    let ghost place = *query;
    let ghost held = query.query.indexed_query.component_of(vid);
    proof {
        assert(query.query.indexed_query.vids[at].1.well_formed());
        found_edge_is_least(found, place, held, vid, starting, path@, edge_name@, required);
    }
    r
}

/// What an adapter can ask about the vertex that a view of the query shows.
pub trait VertexInfo {
    /// Whether the view is one of its query.
    spec fn valid(&self) -> bool;

    /// The place of the adapter's operation in the query.
    spec fn place(&self) -> QueryInfo;

    /// The vertex in view.
    spec fn vid(&self) -> Vid;

    /// The vertex at which the adapter stands.
    spec fn starting(&self) -> Vid;

    /// The edges from the vertex at which the adapter stands to the vertex
    /// in view, in order.
    spec fn path(&self) -> Seq<Eid>;

    /// The last vertex whose tags are known yet, in query order; `None`
    /// where every tag is known.
    spec fn tag_limit(&self) -> Option<Vid>;

    /// The component of the vertex in view.
    fn current_component(&self) -> (r: &IRQueryComponent)
        requires
            self.valid(),
        ensures
            *r == *self.place().query.indexed_query.component_of(self.vid()),
    ;

    /// The vertex in view.
    fn current_vertex(&self) -> (r: &IRVertex)
        requires
            self.valid(),
        ensures
            *r == self.place().query.indexed_query.vertex_of(self.vid()),
            r.vid == self.vid(),
    ;

    /// The values of the query's variables.
    fn query_arguments(&self) -> (r: &Arguments)
        ensures
            *r == *self.place().query.arguments,
    ;

    /// The type to which the vertex in view was narrowed, if it was.
    fn coerced_to_type(&self) -> (r: Option<&String>)
        requires
            self.valid(),
        ensures
            match self.place().query.indexed_query.vertex_of(self.vid()).coerced_from_type {
                Some(_) => r == Some(
                    &self.place().query.indexed_query.vertex_of(self.vid()).vertex_type,
                ),
                None => r is None,
            },
    ;

    /// The values that the filters of the vertex in view leave to the
    /// field `field_name`, as far as they compare it with variables or with
    /// null; see [`static_candidate`]. The arguments must serve the filters
    /// on that field, unless these contradict each other on null.
    fn static_field_value(&self, field_name: &str) -> (r: Option<CandidateValue>)
        requires
            self.valid(),
            asks_null(
                self.place().query.indexed_query.vertex_of(self.vid()).filters@,
                field_name@,
            ) && asks_not_null(
                self.place().query.indexed_query.vertex_of(self.vid()).filters@,
                field_name@,
            ) || serves_all(
                self.place().query.arguments@,
                self.place().query.indexed_query.vertex_of(self.vid()).filters@,
                field_name@,
            ),
        ensures
            candidate_view(r) == static_candidate(
                self.place().query.indexed_query.vertex_of(self.vid()).filters@,
                self.place().query.arguments@,
                field_name@,
            ),
    ;

    /// The range that the comparisons of the field `field_name` of the
    /// vertex in view with variables leave to it; see [`static_range`].
    fn static_field_range(&self, field_name: &str) -> (r: Option<RangeBoundKind>)
        requires
            self.valid(),
        ensures
            range_view(r) == static_range(
                self.place().query.indexed_query.vertex_of(self.vid()).filters@,
                self.place().query.arguments@,
                field_name@,
            ),
    ;

    /// The hint for the first filter of the vertex in view that compares
    /// the field `field_name` with a tag whose value is known where the
    /// adapter stands; see [`found_tag`].
    fn dynamic_field_value(&self, field_name: &str) -> (r: Option<DynamicallyResolvedValue>)
        requires
            self.valid(),
        ensures
            found_tag(
                r,
                self.place(),
                self.vid(),
                self.starting(),
                self.tag_limit(),
                field_name@,
            ),
    ;

    /// The edge with the least number among the edges of that name that
    /// leave the vertex in view and are neither optional, nor recursive, nor
    /// folded; see [`found_edge`].
    fn first_required_edge(&self, edge_name: &str) -> (r: Option<EdgeInfo>)
        requires
            self.valid(),
        ensures
            found_edge(
                r,
                self.place(),
                *self.place().query.indexed_query.component_of(self.vid()),
                self.vid(),
                self.starting(),
                self.path(),
                edge_name@,
                true,
            ),
            r matches Some(info) ==> info.destination.well_formed(),
            r matches Some(info) ==> is_least_fitting(
                *self.place().query.indexed_query.component_of(self.vid()),
                self.vid(),
                edge_name@,
                true,
                info.eid,
            ),
    ;

    /// The edge or fold with the least number among the edges and folds of
    /// that name that leave the vertex in view; see [`found_edge`].
    fn first_edge(&self, edge_name: &str) -> (r: Option<EdgeInfo>)
        requires
            self.valid(),
        ensures
            found_edge(
                r,
                self.place(),
                *self.place().query.indexed_query.component_of(self.vid()),
                self.vid(),
                self.starting(),
                self.path(),
                edge_name@,
                false,
            ),
            r matches Some(info) ==> info.destination.well_formed(),
            r matches Some(info) ==> is_least_fitting(
                *self.place().query.indexed_query.component_of(self.vid()),
                self.vid(),
                edge_name@,
                false,
                info.eid,
            ),
    ;
}

impl LocalQueryInfo {
    /// What the adapter sees of an edge that leaves the vertex in view.
    pub fn make_non_folded_edge_info(&self, edge: &IREdge) -> (r: EdgeInfo)
        ensures
            shows_edge(r, self.query, self.current_vertex, Seq::empty(), *edge),
    {
        let path: Vec<Eid> = Vec::new();
        edge_info(
            &self.query,
            self.current_vertex,
            &path,
            edge.eid,
            edge.to_vid,
            edge.optional,
            copy_recursive(&edge.recursive),
            false,
        )
    }

    /// What the adapter sees of a fold that leaves the vertex in view.
    pub fn make_folded_edge_info(&self, fold: &IRFold) -> (r: EdgeInfo)
        ensures
            shows_fold(r, self.query, self.current_vertex, Seq::empty(), *fold),
    {
        let path: Vec<Eid> = Vec::new();
        edge_info(&self.query, self.current_vertex, &path, fold.eid, fold.to_vid, true, None, true)
    }
}

impl NeighboringQueryInfo {
    /// What the adapter sees of an edge that leaves the vertex in view.
    pub fn make_non_folded_edge_info(&self, edge: &IREdge) -> (r: EdgeInfo)
        ensures
            shows_edge(r, self.query, self.starting_vertex, self.neighbor_path@, *edge),
    {
        edge_info(
            &self.query,
            self.starting_vertex,
            &self.neighbor_path,
            edge.eid,
            edge.to_vid,
            edge.optional,
            copy_recursive(&edge.recursive),
            false,
        )
    }

    /// What the adapter sees of a fold that leaves the vertex in view.
    pub fn make_folded_edge_info(&self, fold: &IRFold) -> (r: EdgeInfo)
        ensures
            shows_fold(r, self.query, self.starting_vertex, self.neighbor_path@, *fold),
    {
        edge_info(
            &self.query,
            self.starting_vertex,
            &self.neighbor_path,
            fold.eid,
            fold.to_vid,
            true,
            None,
            true,
        )
    }
}

impl VertexInfo for LocalQueryInfo {
    open spec fn valid(&self) -> bool {
        self.well_formed()
    }

    open spec fn place(&self) -> QueryInfo {
        self.query
    }

    open spec fn vid(&self) -> Vid {
        self.current_vertex
    }

    open spec fn starting(&self) -> Vid {
        self.current_vertex
    }

    open spec fn path(&self) -> Seq<Eid> {
        Seq::empty()
    }

    open spec fn tag_limit(&self) -> Option<Vid> {
        None
    }

    fn current_component(&self) -> (r: &IRQueryComponent) {
        component_in_view(&self.query, self.current_vertex)
    }

    fn current_vertex(&self) -> (r: &IRVertex) {
        vertex_in_view(&self.query, self.current_vertex)
    }

    fn query_arguments(&self) -> (r: &Arguments) {
        self.query.arguments()
    }

    fn coerced_to_type(&self) -> (r: Option<&String>) {
        let vertex = vertex_in_view(&self.query, self.current_vertex);
        if vertex.coerced_from_type.is_some() {
            Some(&vertex.vertex_type)
        } else {
            None
        }
    }

    fn static_field_value(&self, field_name: &str) -> (r: Option<CandidateValue>) {
        static_field_value_of(
            vertex_in_view(&self.query, self.current_vertex),
            self.query.arguments(),
            field_name,
        )
    }

    fn static_field_range(&self, field_name: &str) -> (r: Option<RangeBoundKind>) {
        static_field_range_of(
            vertex_in_view(&self.query, self.current_vertex),
            self.query.arguments(),
            field_name,
        )
    }

    fn dynamic_field_value(&self, field_name: &str) -> (r: Option<DynamicallyResolvedValue>) {
        dynamic_hint(&self.query, self.current_vertex, self.current_vertex, None, field_name)
    }

    fn first_required_edge(&self, edge_name: &str) -> (r: Option<EdgeInfo>) {
        let path: Vec<Eid> = Vec::new();
        first_edge_named(
            &self.query,
            self.current_vertex,
            self.current_vertex,
            &path,
            edge_name,
            true,
        )
    }

    fn first_edge(&self, edge_name: &str) -> (r: Option<EdgeInfo>) {
        let path: Vec<Eid> = Vec::new();
        first_edge_named(
            &self.query,
            self.current_vertex,
            self.current_vertex,
            &path,
            edge_name,
            false,
        )
    }
}

impl VertexInfo for NeighboringQueryInfo {
    open spec fn valid(&self) -> bool {
        self.well_formed()
    }

    open spec fn place(&self) -> QueryInfo {
        self.query
    }

    open spec fn vid(&self) -> Vid {
        self.neighbor_vertex
    }

    open spec fn starting(&self) -> Vid {
        self.starting_vertex
    }

    open spec fn path(&self) -> Seq<Eid> {
        self.neighbor_path@
    }

    open spec fn tag_limit(&self) -> Option<Vid> {
        Some(self.starting_vertex)
    }

    fn current_component(&self) -> (r: &IRQueryComponent) {
        component_in_view(&self.query, self.neighbor_vertex)
    }

    fn current_vertex(&self) -> (r: &IRVertex) {
        vertex_in_view(&self.query, self.neighbor_vertex)
    }

    fn query_arguments(&self) -> (r: &Arguments) {
        self.query.arguments()
    }

    fn coerced_to_type(&self) -> (r: Option<&String>) {
        let vertex = vertex_in_view(&self.query, self.neighbor_vertex);
        if vertex.coerced_from_type.is_some() {
            Some(&vertex.vertex_type)
        } else {
            None
        }
    }

    fn static_field_value(&self, field_name: &str) -> (r: Option<CandidateValue>) {
        static_field_value_of(
            vertex_in_view(&self.query, self.neighbor_vertex),
            self.query.arguments(),
            field_name,
        )
    }

    fn static_field_range(&self, field_name: &str) -> (r: Option<RangeBoundKind>) {
        static_field_range_of(
            vertex_in_view(&self.query, self.neighbor_vertex),
            self.query.arguments(),
            field_name,
        )
    }

    fn dynamic_field_value(&self, field_name: &str) -> (r: Option<DynamicallyResolvedValue>) {
        dynamic_hint(
            &self.query,
            self.neighbor_vertex,
            self.starting_vertex,
            Some(self.starting_vertex),
            field_name,
        )
    }

    fn first_required_edge(&self, edge_name: &str) -> (r: Option<EdgeInfo>) {
        first_edge_named(
            &self.query,
            self.neighbor_vertex,
            self.starting_vertex,
            &self.neighbor_path,
            edge_name,
            true,
        )
    }

    fn first_edge(&self, edge_name: &str) -> (r: Option<EdgeInfo>) {
        first_edge_named(
            &self.query,
            self.neighbor_vertex,
            self.starting_vertex,
            &self.neighbor_path,
            edge_name,
            false,
        )
    }
}

} // verus!
