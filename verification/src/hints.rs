//! What the interpreter tells an adapter about the query around the place
//! where it stands, so that the adapter may narrow what it looks up.
use crate::ir::{
    distinct_keys, share, Arguments, Eid, IRQuery, InterpretedQuery, Recursive, Vid,
};
use crate::static_hints::argument_names;
use std::sync::Arc;
use vstd::prelude::*;

verus! {

/// Where in a query an adapter's operation stands: at a vertex, and for an
/// operation that follows an edge, on that edge.
#[derive(Debug)]
pub struct QueryInfo {
    pub query: InterpretedQuery,
    pub current_vertex: Vid,
    pub crossing_eid: Option<Eid>,
}

/// The query as seen from one of its vertices.
#[derive(Debug)]
pub struct LocalQueryInfo {
    pub query: QueryInfo,
    pub current_vertex: Vid,
}

/// An edge that leaves the vertex in view, and what lies beyond it.
#[derive(Debug)]
pub struct EdgeInfo {
    pub eid: Eid,
    pub optional: bool,
    pub recursive: Option<Recursive>,
    pub folded: bool,
    pub destination: NeighboringQueryInfo,
}

/// The query as seen from a vertex that lies some edges away from the
/// vertex at which the adapter stands.
#[derive(Debug)]
pub struct NeighboringQueryInfo {
    pub query: QueryInfo,
    /// The vertex at which the adapter stands.
    pub starting_vertex: Vid,
    /// The vertex in view.
    pub neighbor_vertex: Vid,
    /// The edges from the one to the other, in order.
    pub neighbor_path: Vec<Eid>,
}

/// A copy of what may be missing of a recursion.
pub(crate) fn copy_recursive(recursive: &Option<Recursive>) -> (r: Option<Recursive>)
    ensures
        r == *recursive,
{
    match recursive {
        Some(found) => {
            let coerce_to = match &found.coerce_to {
                Some(name) => Some(name.clone()),
                None => None,
            };
            Some(Recursive { depth: found.depth, coerce_to })
        },
        None => None,
    }
}

impl QueryInfo {
    /// The place is one of the query: the vertex is a vertex of the query,
    /// the edge an edge of it, the query's tables are sound and no
    /// variable is given a value twice.
    pub open spec fn well_formed(&self) -> bool {
        &&& self.query.indexed_query.well_formed()
        &&& distinct_keys(argument_names(self.query.arguments@))
        &&& self.query.indexed_query.has_vertex(self.current_vertex)
        &&& self.crossing_eid matches Some(eid) ==> self.query.indexed_query.eid_position(eid)
            is Some
    }

    pub fn new(query: InterpretedQuery, current_vertex: Vid, crossing_eid: Option<Eid>) -> (r:
        QueryInfo)
        ensures
            r.query == query,
            r.current_vertex == current_vertex,
            r.crossing_eid == crossing_eid,
    {
        QueryInfo { query, current_vertex, crossing_eid }
    }

    pub fn ir_query(&self) -> (r: &IRQuery)
        ensures
            *r == self.query.indexed_query.ir_query,
    {
        &self.query.indexed_query.ir_query
    }

    pub fn arguments(&self) -> (r: &Arc<Arguments>)
        ensures
            *r == self.query.arguments,
    {
        &self.query.arguments
    }

    /// The vertex at which the operation stands.
    pub fn at_vid(&self) -> (r: Vid)
        ensures
            r == self.current_vertex,
    {
        self.current_vertex
    }

    /// The edge that the operation follows, if it follows one.
    pub fn crossing_eid(&self) -> (r: &Option<Eid>)
        ensures
            *r == self.crossing_eid,
    {
        &self.crossing_eid
    }

    /// A second handle to the same place of the same query.
    pub fn duplicate(&self) -> (r: QueryInfo)
        ensures
            r == *self,
    {
        QueryInfo {
            query: InterpretedQuery {
                indexed_query: share(&self.query.indexed_query),
                arguments: share(&self.query.arguments),
            },
            current_vertex: self.current_vertex,
            crossing_eid: self.crossing_eid,
        }
    }

    /// The query as seen from the vertex at which the operation stands.
    pub fn here(&self) -> (r: LocalQueryInfo)
        ensures
            r.query == *self,
            r.current_vertex == self.current_vertex,
            self.well_formed() ==> r.well_formed(),
    {
        LocalQueryInfo { query: self.duplicate(), current_vertex: self.current_vertex }
    }

    /// The query as seen from the vertex to which the followed edge leads;
    /// `None` for an operation that follows no edge.
    pub fn destination(&self) -> (r: Option<LocalQueryInfo>)
        requires
            self.well_formed(),
        ensures
            match self.crossing_eid {
                Some(eid) => r matches Some(info) && info.query == *self && info.current_vertex
                    == self.query.indexed_query.edge_of(eid).spec_to_vid() && info.well_formed(),
                None => r is None,
            },
    {
        match self.crossing_eid {
            Some(eid) => {
                match self.query.indexed_query.edge(eid) {
                    Some(kind) => {
                        let current_vertex = kind.to_vid();
                        proof {
                            let i = self.query.indexed_query.eid_position(eid).unwrap();
                            assert(self.query.indexed_query.has_vertex(
                                self.query.indexed_query.eids[i].1.spec_to_vid(),
                            ));
                        }
                        Some(LocalQueryInfo { query: self.duplicate(), current_vertex })
                    },
                    None => None,
                }
            },
            None => None,
        }
    }
}

impl Clone for QueryInfo {
    fn clone(&self) -> (r: QueryInfo)
        ensures
            r == *self,
    {
        self.duplicate()
    }
}

impl LocalQueryInfo {
    /// The view is one of the query: its place is, and so is its vertex.
    pub open spec fn well_formed(&self) -> bool {
        &&& self.query.well_formed()
        &&& self.query.query.indexed_query.has_vertex(self.current_vertex)
    }
}

impl EdgeInfo {
    /// What lies beyond the edge.
    pub fn destination(&self) -> (r: &NeighboringQueryInfo)
        ensures
            *r == self.destination,
    {
        &self.destination
    }
}

impl NeighboringQueryInfo {
    /// The view is one of the query: its place is, and so are the vertex at
    /// which the adapter stands and the vertex in view.
    pub open spec fn well_formed(&self) -> bool {
        &&& self.query.well_formed()
        &&& self.query.query.indexed_query.has_vertex(self.starting_vertex)
        &&& self.query.query.indexed_query.has_vertex(self.neighbor_vertex)
    }
}

} // verus!
