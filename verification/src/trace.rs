//! The trace of a run: every interaction between the interpreter and its
//! adapter, in the order in which it happened.
use crate::context::DataContext;
use crate::ir::{Arguments, Eid, IRQuery, Vid};
use crate::value::FieldValue;
use vstd::prelude::*;

verus! {

/// Identifies an operation of a trace. Operations are numbered in the order
/// in which they were recorded.
#[derive(Clone, Copy, Debug, PartialEq, Eq, PartialOrd, Ord, Hash, Structural)]
pub struct Opid(pub usize);

/// A row of results: a mapping from the names of the outputs to their
/// values. A name counts once: of two entries under one name the earlier
/// one counts, and the order of the entries does not matter.
pub type ResultRow = Vec<(String, FieldValue)>;

/// A call of one of the adapter's four operations, with what identifies it.
#[derive(Clone, Debug)]
pub enum FunctionCall {
    /// The vertex at which the query starts.
    ResolveStartingVertices(Vid),
    /// The vertex, its type and the property asked for.
    ResolveProperty(Vid, String, String),
    /// The vertex, its type and the edge followed.
    ResolveNeighbors(Vid, String, Eid),
    /// The vertex, its type and the type to narrow it to.
    ResolveCoercion(Vid, String, String),
}

/// What an adapter's operation handed back.
#[derive(Debug)]
pub enum YieldValue<V> {
    ResolveStartingVertices(V),
    ResolveProperty(DataContext<V>, FieldValue),
    /// The row whose neighbors follow, one operation each.
    ResolveNeighborsOuter(DataContext<V>),
    /// A neighbor, with its position among the neighbors of its row.
    ResolveNeighborsInner(usize, V),
    ResolveCoercion(DataContext<V>, bool),
}

/// What happened in one operation.
#[derive(Debug)]
pub enum TraceOpContent<V> {
    /// The interpreter called the adapter.
    Call(FunctionCall),
    /// The adapter asked its input for the next row.
    AdvanceInputIterator,
    /// The input gave the adapter a row.
    YieldInto(DataContext<V>),
    /// The adapter gave a result.
    YieldFrom(YieldValue<V>),
    /// The input had no more rows.
    InputIteratorExhausted,
    /// The adapter had no more results.
    OutputIteratorExhausted,
    /// The interpreter produced a row of the query's results.
    ProduceQueryResult(ResultRow),
}

/// One operation of a trace. A call has no parent; what happens within a
/// call names the call as its parent, and a neighbor names the operation
/// that announced its row.
#[derive(Debug)]
pub struct TraceOp<V> {
    pub opid: Opid,
    pub parent_opid: Option<Opid>,
    pub content: TraceOpContent<V>,
}

/// The trace of one run of a query.
#[derive(Debug)]
pub struct Trace<V> {
    pub ops: Vec<TraceOp<V>>,
    pub ir_query: IRQuery,
    pub arguments: Arguments,
}

impl<V> Trace<V> {
    /// The operations are numbered by their position, so each number is
    /// used once and later operations have larger numbers.
    pub open spec fn well_formed(self) -> bool {
        forall|i: int| 0 <= i < self.ops.len() ==> (#[trigger] self.ops[i]).opid == Opid(i as usize)
    }

    /// An empty trace of a run of `ir_query` with `arguments`.
    pub fn new(ir_query: IRQuery, arguments: Arguments) -> (r: Trace<V>)
        ensures
            r.well_formed(),
            r.ops@.len() == 0,
            r.ir_query == ir_query,
            r.arguments == arguments,
    {
        Trace { ops: Vec::new(), ir_query, arguments }
    }

    /// Records an operation at the end of the trace and returns the number
    /// it was given: the number of operations recorded before it.
    pub fn record(&mut self, content: TraceOpContent<V>, parent_opid: Option<Opid>) -> (r: Opid)
        requires
            old(self).well_formed(),
        ensures
            final(self).well_formed(),
            r == Opid(old(self).ops.len()),
            final(self).ops@ == old(self).ops@.push(
                TraceOp { opid: r, parent_opid, content },
            ),
            final(self).ir_query == old(self).ir_query,
            final(self).arguments == old(self).arguments,
    {
        let opid = Opid(self.ops.len());
        self.ops.push(TraceOp { opid, parent_opid, content });
        opid
    }
}

} // verus!
