//! Builds the lookup tables of a query.
use crate::ir::{share, EdgeKind, Eid, IRQuery, IRQueryComponent, IndexedQuery, Vid};
use std::sync::Arc;
use vstd::prelude::*;

verus! {

/// Why a query cannot be indexed.
#[derive(Clone, Copy, Debug, PartialEq, Eq, Structural)]
pub enum InvalidIRQueryError {
    /// A vertex or an edge stands twice in the query, or a component does
    /// not hold its vertices, edges and folds in ascending order.
    Unordered,
    /// An edge or a fold of the query leads to a vertex that no component
    /// of the query holds.
    DanglingEdge,
}

/// The entries of the vertices of a component itself, in order.
pub open spec fn own_vids(component: Arc<IRQueryComponent>) -> Seq<(Vid, Arc<IRQueryComponent>)> {
    Seq::new(component.vertices.len() as nat, |i: int| (component.vertices[i].vid, component))
}

/// The entries of the edges of a component itself, in order.
pub open spec fn own_edges(component: Arc<IRQueryComponent>) -> Seq<(Eid, EdgeKind)> {
    Seq::new(
        component.edges.len() as nat,
        |i: int| (component.edges[i].eid, EdgeKind::Regular(component.edges[i])),
    )
}

/// The entries of the vertices of a component and of the components that
/// its first `folds` folds lead to: the component's own vertices first,
/// then fold by fold what lies beyond.
pub open spec fn vids_through(component: Arc<IRQueryComponent>, folds: int) -> Seq<
    (Vid, Arc<IRQueryComponent>),
>
    decreases component, folds,
{
    if folds <= 0 || folds > component.folds.len() {
        own_vids(component)
    } else {
        vids_through(component, folds - 1) + vids_through(
            component.folds[folds - 1].component,
            component.folds[folds - 1].component.folds.len() as int,
        )
    }
}

/// The entries of the edges of a component and of the components that its
/// first `folds` folds lead to: the component's own edges first, then fold
/// by fold the fold itself and what lies beyond.
pub open spec fn eids_through(component: Arc<IRQueryComponent>, folds: int) -> Seq<(Eid, EdgeKind)>
    decreases component, folds,
{
    if folds <= 0 || folds > component.folds.len() {
        own_edges(component)
    } else {
        eids_through(component, folds - 1).push(
            (component.folds[folds - 1].eid, EdgeKind::Fold(component.folds[folds - 1])),
        ) + eids_through(
            component.folds[folds - 1].component,
            component.folds[folds - 1].component.folds.len() as int,
        )
    }
}

/// Every vertex entry of a whole component.
pub open spec fn all_vids(component: Arc<IRQueryComponent>) -> Seq<(Vid, Arc<IRQueryComponent>)> {
    vids_through(component, component.folds.len() as int)
}

/// Every edge entry of a whole component.
pub open spec fn all_eids(component: Arc<IRQueryComponent>) -> Seq<(Eid, EdgeKind)> {
    eids_through(component, component.folds.len() as int)
}

/// Adds the entries of a whole component to the tables.
fn index_component(
    component: &Arc<IRQueryComponent>,
    vids: &mut Vec<(Vid, Arc<IRQueryComponent>)>,
    eids: &mut Vec<(Eid, EdgeKind)>,
)
    ensures
        final(vids)@ == old(vids)@ + all_vids(*component),
        final(eids)@ == old(eids)@ + all_eids(*component),
    decreases *component,
{
    let mut i: usize = 0;
    while i < component.vertices.len()
        invariant
            i <= component.vertices.len(),
            vids@ == old(vids)@ + own_vids(*component).take(i as int),
            eids@ == old(eids)@,
        decreases component.vertices.len() - i,
    {
        vids.push((component.vertices[i].vid, share(component)));
        assert(own_vids(*component).take(i + 1) =~= own_vids(*component).take(i as int).push(
            own_vids(*component)[i as int],
        ));
        assert(vids@ =~= old(vids)@ + own_vids(*component).take(i + 1));
        i += 1;
    }
    assert(own_vids(*component).take(component.vertices.len() as int) =~= own_vids(*component));
    let mut i: usize = 0;
    while i < component.edges.len()
        invariant
            i <= component.edges.len(),
            vids@ == old(vids)@ + own_vids(*component),
            eids@ == old(eids)@ + own_edges(*component).take(i as int),
        decreases component.edges.len() - i,
    {
        eids.push((component.edges[i].eid, EdgeKind::Regular(share(&component.edges[i]))));
        assert(own_edges(*component).take(i + 1) =~= own_edges(*component).take(i as int).push(
            own_edges(*component)[i as int],
        ));
        assert(eids@ =~= old(eids)@ + own_edges(*component).take(i + 1));
        i += 1;
    }
    assert(own_edges(*component).take(component.edges.len() as int) =~= own_edges(*component));
    let mut i: usize = 0;
    while i < component.folds.len()
        invariant
            i <= component.folds.len(),
            vids@ == old(vids)@ + vids_through(*component, i as int),
            eids@ == old(eids)@ + eids_through(*component, i as int),
        decreases component.folds.len() - i,
    {
        let fold = &component.folds[i];
        let ghost vids_before = vids@;
        let ghost eids_before = eids@;
        eids.push((fold.eid, EdgeKind::Fold(share(fold))));
        assert(decreases_to!(*component => component.folds));
        assert(decreases_to!(component.folds => component.folds[i as int]));
        assert(decreases_to!(component.folds[i as int] => component.folds[i as int].component));
        index_component(&fold.component, vids, eids);
        assert(vids@ =~= old(vids)@ + vids_through(*component, i + 1));
        assert(eids@ =~= old(eids)@ + eids_through(*component, i + 1));
        i += 1;
    }
}

impl IndexedQuery {
    /// The tables of a query, before they are checked: every vertex of
    /// every component with its component, and every edge and fold, each in
    /// the order in which the query holds them.
    pub fn index(ir_query: IRQuery) -> (r: IndexedQuery)
        ensures
            r.ir_query == ir_query,
            r.vids@ == all_vids(ir_query.root_component),
            r.eids@ == all_eids(ir_query.root_component),
    {
        let mut vids: Vec<(Vid, Arc<IRQueryComponent>)> = Vec::new();
        let mut eids: Vec<(Eid, EdgeKind)> = Vec::new();
        index_component(&ir_query.root_component, &mut vids, &mut eids);
        assert(vids@ =~= all_vids(ir_query.root_component));
        assert(eids@ =~= all_eids(ir_query.root_component));
        IndexedQuery { ir_query, vids, eids }
    }
}

impl TryFrom<IRQuery> for IndexedQuery {
    type Error = InvalidIRQueryError;

    /// Indexes a query, and rejects it where its tables are not sound: the
    /// tables of an indexed query are well formed. A query whose tables are
    /// not those of a mapping is unordered; any other fault is a dangling
    /// edge.
    fn try_from(ir_query: IRQuery) -> (r: Result<IndexedQuery, InvalidIRQueryError>)
        ensures
            match r {
                Ok(indexed) => indexed.well_formed() && indexed.ir_query == ir_query
                    && indexed.vids@ == all_vids(ir_query.root_component) && indexed.eids@
                    == all_eids(ir_query.root_component),
                Err(e) => exists|indexed: IndexedQuery|
                    #![trigger indexed.well_formed()]
                    indexed.vids@ == all_vids(ir_query.root_component) && indexed.eids@
                        == all_eids(ir_query.root_component) && !indexed.well_formed() && (e
                        == InvalidIRQueryError::Unordered <==> !indexed.ordered()) && (e
                        == InvalidIRQueryError::DanglingEdge <==> indexed.ordered()),
            },
    {
        let indexed = IndexedQuery::index(ir_query);
        if !indexed.is_ordered() {
            assert(!indexed.well_formed());
            Err(InvalidIRQueryError::Unordered)
        } else if indexed.is_well_formed() {
            Ok(indexed)
        } else {
            assert(!indexed.well_formed());
            Err(InvalidIRQueryError::DanglingEdge)
        }
    }
}

/// The indexed query is pinned by its tables alone, so the conversion
/// states its result on `try_from` and not through `try_from_spec`.
impl vstd::std_specs::convert::TryFromSpecImpl<IRQuery> for IndexedQuery {
    open spec fn obeys_try_from_spec() -> bool {
        false
    }

    open spec fn try_from_spec(v: IRQuery) -> Result<IndexedQuery, InvalidIRQueryError> {
        Err(InvalidIRQueryError::DanglingEdge)
    }
}

} // verus!
