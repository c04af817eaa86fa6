//! The replay of each of the adapter's four operations, and the check of the
//! rows that a replayed run produces.
use crate::context::DataContext;
use crate::hints::QueryInfo;
use crate::ir::{first_key, lemma_first_key_found, EdgeParameters, Eid, Vid};
use crate::replay::{
    advance_ref_iter, after_read, op_at, ReplayError, TraceReaderAdapter, TraceReaderNeighborIter,
    TraceReaderStartingVerticesIter,
};
use crate::replay_contexts::{spec_poll, CallKind, ContextReplay, Polled, PolledView, ReplayState};
use crate::static_hints::{argument, argument_names, argument_value};
use crate::trace::{FunctionCall, Opid, ResultRow, Trace, TraceOp, TraceOpContent, YieldValue};
use crate::value::FieldValue;
use vstd::prelude::*;
use vstd::std_specs::cmp::PartialEqSpec;

verus! {

/// What a replayed stream of results does when it is asked for the next one.
#[derive(Debug)]
pub enum Step<T> {
    /// Hand the next row of the input to `supply`, or `None` if the input
    /// has ended, and ask again.
    NeedInput,
    /// The next result.
    Yield(T),
    /// The results have ended.
    Done,
}

/// Replays the results of one recorded call of `resolve_property`.
#[derive(Debug)]
pub struct TraceReaderResolvePropertiesIter<V> {
    pub replay: ContextReplay<V>,
}

/// Replays the results of one recorded call of `resolve_coercion`.
#[derive(Debug)]
pub struct TraceReaderResolveCoercionIter<V> {
    pub replay: ContextReplay<V>,
}

/// Replays the results of one recorded call of `resolve_neighbors`.
#[derive(Debug)]
pub struct TraceReaderResolveNeighborsIter<V> {
    pub replay: ContextReplay<V>,
}

/// The value that an operation records as the result of `resolve_property`.
pub open spec fn recorded_property<V>(op: TraceOp<V>) -> Option<FieldValue> {
    match op.content {
        TraceOpContent::YieldFrom(YieldValue::ResolveProperty(_, value)) => Some(value),
        _ => None,
    }
}

/// The answer that an operation records as the result of `resolve_coercion`.
pub open spec fn recorded_coercion<V>(op: TraceOp<V>) -> Option<bool> {
    match op.content {
        TraceOpContent::YieldFrom(YieldValue::ResolveCoercion(_, can_coerce)) => Some(can_coerce),
        _ => None,
    }
}

/// Whether an operation announces a row of `resolve_neighbors`.
pub open spec fn announces_neighbors<V>(op: TraceOp<V>) -> bool {
    op.content matches TraceOpContent::YieldFrom(YieldValue::ResolveNeighborsOuter(_))
}

impl<V: PartialEq> TraceReaderResolvePropertiesIter<V> {
    /// The next result: the row that has waited longest, with the value
    /// that the trace recorded for it.
    /// See [`spec_poll`]. The step must meet no fault; see
    /// [`ContextReplay::check_poll`].
    pub fn next<'trace>(&mut self, reader: &mut TraceReaderAdapter<'trace, V>) -> (r: Step<
        (DataContext<V>, FieldValue),
    >)
        requires
            old(self).replay.kind == CallKind::Property,
            spec_poll(
                old(self).replay.kind,
                old(self).replay.parent_opid,
                old(self).replay@,
                op_at(old(reader).ops@, old(reader).next_op as int),
            ) is Ok,
        ensures
            final(self).replay.kind == old(self).replay.kind,
            final(self).replay.parent_opid == old(self).replay.parent_opid,
            final(reader).ops == old(reader).ops,
            final(reader).next_op == old(reader).next_op + 1,
            final(self).replay@ == spec_poll(
                old(self).replay.kind,
                old(self).replay.parent_opid,
                old(self).replay@,
                op_at(old(reader).ops@, old(reader).next_op as int),
            )->Ok_0.0,
            match spec_poll(
                old(self).replay.kind,
                old(self).replay.parent_opid,
                old(self).replay@,
                op_at(old(reader).ops@, old(reader).next_op as int),
            )->Ok_0.1 {
                PolledView::NeedInput => r is NeedInput,
                PolledView::Done => r is Done,
                PolledView::Output(context, op) => r matches Step::Yield(pair) && pair.0 == context
                    && (recorded_property(op) matches Some(value) && pair.1@ == value@),
            },
    {
        match self.replay.poll(reader) {
            Polled::NeedInput => Step::NeedInput,
            Polled::Done => Step::Done,
            Polled::Output(input_context, op) => match &op.content {
                TraceOpContent::YieldFrom(YieldValue::ResolveProperty(_, value)) => Step::Yield(
                    (input_context, value.clone()),
                ),
                _ => {
                    proof {
                        assert(false);
                    }
                    Step::Done
                },
            },
        }
    }
}

impl<V: PartialEq> TraceReaderResolveCoercionIter<V> {
    /// The next result: the row that has waited longest, with the answer
    /// that the trace recorded for it.
    /// See [`spec_poll`]. The step must meet no fault; see
    /// [`ContextReplay::check_poll`].
    pub fn next<'trace>(&mut self, reader: &mut TraceReaderAdapter<'trace, V>) -> (r: Step<
        (DataContext<V>, bool),
    >)
        requires
            old(self).replay.kind == CallKind::Coercion,
            spec_poll(
                old(self).replay.kind,
                old(self).replay.parent_opid,
                old(self).replay@,
                op_at(old(reader).ops@, old(reader).next_op as int),
            ) is Ok,
        ensures
            final(self).replay.kind == old(self).replay.kind,
            final(self).replay.parent_opid == old(self).replay.parent_opid,
            final(reader).ops == old(reader).ops,
            final(reader).next_op == old(reader).next_op + 1,
            final(self).replay@ == spec_poll(
                old(self).replay.kind,
                old(self).replay.parent_opid,
                old(self).replay@,
                op_at(old(reader).ops@, old(reader).next_op as int),
            )->Ok_0.0,
            match spec_poll(
                old(self).replay.kind,
                old(self).replay.parent_opid,
                old(self).replay@,
                op_at(old(reader).ops@, old(reader).next_op as int),
            )->Ok_0.1 {
                PolledView::NeedInput => r is NeedInput,
                PolledView::Done => r is Done,
                PolledView::Output(context, op) => r matches Step::Yield(pair) && pair.0 == context
                    && recorded_coercion(op) == Some(pair.1),
            },
    {
        match self.replay.poll(reader) {
            Polled::NeedInput => Step::NeedInput,
            Polled::Done => Step::Done,
            Polled::Output(input_context, op) => match &op.content {
                TraceOpContent::YieldFrom(YieldValue::ResolveCoercion(_, can_coerce)) => Step::Yield(
                    (input_context, *can_coerce),
                ),
                _ => {
                    proof {
                        assert(false);
                    }
                    Step::Done
                },
            },
        }
    }
}

impl<V: PartialEq> TraceReaderResolveNeighborsIter<V> {
    /// The next result: the row that has waited longest, with the replay
    /// of its neighbors, which the trace numbers from zero under the
    /// operation that announced the row.
    /// See [`spec_poll`]. The step must meet no fault; see
    /// [`ContextReplay::check_poll`].
    pub fn next<'trace>(&mut self, reader: &mut TraceReaderAdapter<'trace, V>) -> (r: Step<
        (DataContext<V>, TraceReaderNeighborIter),
    >)
        requires
            old(self).replay.kind == CallKind::Neighbors,
            spec_poll(
                old(self).replay.kind,
                old(self).replay.parent_opid,
                old(self).replay@,
                op_at(old(reader).ops@, old(reader).next_op as int),
            ) is Ok,
        ensures
            final(self).replay.kind == old(self).replay.kind,
            final(self).replay.parent_opid == old(self).replay.parent_opid,
            final(reader).ops == old(reader).ops,
            final(reader).next_op == old(reader).next_op + 1,
            final(self).replay@ == spec_poll(
                old(self).replay.kind,
                old(self).replay.parent_opid,
                old(self).replay@,
                op_at(old(reader).ops@, old(reader).next_op as int),
            )->Ok_0.0,
            match spec_poll(
                old(self).replay.kind,
                old(self).replay.parent_opid,
                old(self).replay@,
                op_at(old(reader).ops@, old(reader).next_op as int),
            )->Ok_0.1 {
                PolledView::NeedInput => r is NeedInput,
                PolledView::Done => r is Done,
                PolledView::Output(context, op) => r matches Step::Yield(pair) && pair.0 == context
                    && announces_neighbors(op) && pair.1 == (TraceReaderNeighborIter {
                    exhausted: false,
                    parent_iterator_opid: op.opid,
                    next_index: 0,
                }),
            },
    {
        match self.replay.poll(reader) {
            Polled::NeedInput => Step::NeedInput,
            Polled::Done => Step::Done,
            Polled::Output(input_context, op) => match &op.content {
                TraceOpContent::YieldFrom(YieldValue::ResolveNeighborsOuter(_)) => Step::Yield(
                    (
                        input_context,
                        TraceReaderNeighborIter {
                            exhausted: false,
                            parent_iterator_opid: op.opid,
                            next_index: 0,
                        },
                    ),
                ),
                _ => {
                    proof {
                        assert(false);
                    }
                    Step::Done
                },
            },
        }
    }
}

/// The call that the operation at the cursor records, with its number: a
/// call is an operation without a parent.
pub open spec fn recorded_call<V>(
    op: Option<TraceOp<V>>,
) -> Result<(Opid, FunctionCall), ReplayError> {
    match op {
        None => Err(ReplayError::TraceEnded),
        Some(found) => if found.parent_opid is Some {
            Err(ReplayError::UnexpectedParent)
        } else {
            match found.content {
                TraceOpContent::Call(call) => Ok((found.opid, call)),
                _ => Err(ReplayError::UnexpectedOperation),
            }
        },
    }
}

/// The number of the recorded call, if it is a call of
/// `resolve_starting_vertices` at the place `vid`, on no edge.
pub open spec fn starting_vertices_call<V>(
    op: Option<TraceOp<V>>,
    vid: Vid,
    crossing_eid: Option<Eid>,
) -> Result<Opid, ReplayError> {
    match recorded_call(op) {
        Err(e) => Err(e),
        Ok((opid, FunctionCall::ResolveStartingVertices(recorded))) => if recorded == vid
            && crossing_eid is None {
            Ok(opid)
        } else {
            Err(ReplayError::CallMismatch)
        },
        Ok(_) => Err(ReplayError::UnexpectedOperation),
    }
}

/// The number of the recorded call, if it is a call of `resolve_property`
/// for this property of this type at the place `vid`, on no edge.
pub open spec fn property_call<V>(
    op: Option<TraceOp<V>>,
    vid: Vid,
    crossing_eid: Option<Eid>,
    vertex_type: Seq<char>,
    property_name: Seq<char>,
) -> Result<Opid, ReplayError> {
    match recorded_call(op) {
        Err(e) => Err(e),
        Ok((opid, FunctionCall::ResolveProperty(recorded, recorded_type, recorded_property))) =>
            if recorded == vid && recorded_type@ == vertex_type && recorded_property@
            == property_name && crossing_eid is None {
            Ok(opid)
        } else {
            Err(ReplayError::CallMismatch)
        },
        Ok(_) => Err(ReplayError::UnexpectedOperation),
    }
}

/// The number of the recorded call, if it is a call of `resolve_neighbors`
/// for this type at the place `vid`, on the recorded edge.
pub open spec fn neighbors_call<V>(
    op: Option<TraceOp<V>>,
    vid: Vid,
    crossing_eid: Option<Eid>,
    vertex_type: Seq<char>,
) -> Result<Opid, ReplayError> {
    match recorded_call(op) {
        Err(e) => Err(e),
        Ok((opid, FunctionCall::ResolveNeighbors(recorded, recorded_type, recorded_eid))) =>
            if recorded == vid && recorded_type@ == vertex_type && crossing_eid == Some(
            recorded_eid,
        ) {
            Ok(opid)
        } else {
            Err(ReplayError::CallMismatch)
        },
        Ok(_) => Err(ReplayError::UnexpectedOperation),
    }
}

/// The number of the recorded call, if it is a call of `resolve_coercion`
/// from this type to that at the place `vid`, on no edge.
pub open spec fn coercion_call<V>(
    op: Option<TraceOp<V>>,
    vid: Vid,
    crossing_eid: Option<Eid>,
    vertex_type: Seq<char>,
    coerce_to_type: Seq<char>,
) -> Result<Opid, ReplayError> {
    match recorded_call(op) {
        Err(e) => Err(e),
        Ok((opid, FunctionCall::ResolveCoercion(recorded, from_type, to_type))) => if recorded
            == vid && from_type@ == vertex_type && to_type@ == coerce_to_type && crossing_eid
            is None {
            Ok(opid)
        } else {
            Err(ReplayError::CallMismatch)
        },
        Ok(_) => Err(ReplayError::UnexpectedOperation),
    }
}

impl<'trace, V: PartialEq> TraceReaderAdapter<'trace, V> {
    /// A reader at the start of `trace`.
    pub fn new(trace: &'trace Trace<V>) -> (r: TraceReaderAdapter<'trace, V>)
        ensures
            *r.ops == trace.ops,
            r.next_op == 0,
    {
        TraceReaderAdapter { ops: &trace.ops, next_op: 0 }
    }

    /// Reads the next operation, which must be a call.
    fn read_call(&mut self) -> (r: Result<(Opid, &'trace FunctionCall), ReplayError>)
        ensures
            final(self).ops == old(self).ops,
            final(self).next_op == after_read(old(self).ops@, old(self).next_op as int),
            match recorded_call(op_at(old(self).ops@, old(self).next_op as int)) {
                Ok((opid, call)) => r matches Ok(pair) && pair.0 == opid && *pair.1 == call,
                Err(e) => r matches Err(x) && x == e,
            },
    {
        match advance_ref_iter(self) {
            None => Err(ReplayError::TraceEnded),
            Some(trace_op) => {
                if trace_op.parent_opid.is_some() {
                    return Err(ReplayError::UnexpectedParent);
                }
                match &trace_op.content {
                    TraceOpContent::Call(call) => Ok((trace_op.opid, call)),
                    _ => Err(ReplayError::UnexpectedOperation),
                }
            },
        }
    }

    /// Replays a call of `resolve_starting_vertices`: the next operation
    /// must record that call, at the place where the interpreter stands.
    fn try_resolve_starting_vertices(
        &mut self,
        edge_name: &str,
        parameters: &EdgeParameters,
        query_info: &QueryInfo,
    ) -> (r: Result<TraceReaderStartingVerticesIter, ReplayError>)
        ensures
            final(self).ops == old(self).ops,
            final(self).next_op == after_read(old(self).ops@, old(self).next_op as int),
            match starting_vertices_call(
                op_at(old(self).ops@, old(self).next_op as int),
                query_info.current_vertex,
                query_info.crossing_eid,
            ) {
                Ok(opid) => r == Ok::<TraceReaderStartingVerticesIter, ReplayError>(
                    TraceReaderStartingVerticesIter { exhausted: false, parent_opid: opid },
                ),
                Err(e) => r == Err::<TraceReaderStartingVerticesIter, ReplayError>(e),
            },
    {
        let (root_opid, call) = match self.read_call() {
            Ok(found) => found,
            Err(e) => {
                return Err(e);
            },
        };
        match call {
            FunctionCall::ResolveStartingVertices(vid) => {
                if vid.0 != query_info.at_vid().0 || query_info.crossing_eid().is_some() {
                    return Err(ReplayError::CallMismatch);
                }
                Ok(TraceReaderStartingVerticesIter { exhausted: false, parent_opid: root_opid })
            },
            _ => Err(ReplayError::UnexpectedOperation),
        }
    }

    /// Replays a call of `resolve_property`: the next operation must record
    /// that call, for the same property of the same type at the place where
    /// the interpreter stands.
    fn try_resolve_property(
        &mut self,
        vertex_type: &str,
        property_name: &str,
        query_info: &QueryInfo,
    ) -> (r: Result<TraceReaderResolvePropertiesIter<V>, ReplayError>)
        ensures
            final(self).ops == old(self).ops,
            final(self).next_op == after_read(old(self).ops@, old(self).next_op as int),
            match property_call(
                op_at(old(self).ops@, old(self).next_op as int),
                query_info.current_vertex,
                query_info.crossing_eid,
                vertex_type@,
                property_name@,
            ) {
                Ok(opid) => r matches Ok(iter) && iter.replay.kind == CallKind::Property
                    && iter.replay.parent_opid == opid && !iter.replay.exhausted
                    && !iter.replay.awaiting_input && iter.replay.input_batch@.len() == 0,
                Err(e) => r matches Err(x) && x == e,
            },
    {
        let (root_opid, call) = match self.read_call() {
            Ok(found) => found,
            Err(e) => {
                return Err(e);
            },
        };
        match call {
            FunctionCall::ResolveProperty(vid, op_type, property) => {
                if vid.0 != query_info.at_vid().0 || *op_type != vertex_type.to_owned()
                    || *property != property_name.to_owned()
                    || query_info.crossing_eid().is_some() {
                    return Err(ReplayError::CallMismatch);
                }
                Ok(
                    TraceReaderResolvePropertiesIter {
                        replay: ContextReplay::new(CallKind::Property, root_opid),
                    },
                )
            },
            _ => Err(ReplayError::UnexpectedOperation),
        }
    }

    /// Replays a call of `resolve_neighbors`: the next operation must record
    /// that call, for the same type at the place where the interpreter
    /// stands, on the edge that it follows.
    fn try_resolve_neighbors(
        &mut self,
        vertex_type: &str,
        edge_name: &str,
        parameters: &EdgeParameters,
        query_info: &QueryInfo,
    ) -> (r: Result<TraceReaderResolveNeighborsIter<V>, ReplayError>)
        ensures
            final(self).ops == old(self).ops,
            final(self).next_op == after_read(old(self).ops@, old(self).next_op as int),
            match neighbors_call(
                op_at(old(self).ops@, old(self).next_op as int),
                query_info.current_vertex,
                query_info.crossing_eid,
                vertex_type@,
            ) {
                Ok(opid) => r matches Ok(iter) && iter.replay.kind == CallKind::Neighbors
                    && iter.replay.parent_opid == opid && !iter.replay.exhausted
                    && !iter.replay.awaiting_input && iter.replay.input_batch@.len() == 0,
                Err(e) => r matches Err(x) && x == e,
            },
    {
        let (root_opid, call) = match self.read_call() {
            Ok(found) => found,
            Err(e) => {
                return Err(e);
            },
        };
        match call {
            FunctionCall::ResolveNeighbors(vid, op_type, eid) => {
                let on_edge = match query_info.crossing_eid() {
                    Some(crossing) => crossing.0 == eid.0,
                    None => false,
                };
                if vid.0 != query_info.at_vid().0 || *op_type != vertex_type.to_owned()
                    || !on_edge {
                    return Err(ReplayError::CallMismatch);
                }
                Ok(
                    TraceReaderResolveNeighborsIter {
                        replay: ContextReplay::new(CallKind::Neighbors, root_opid),
                    },
                )
            },
            _ => Err(ReplayError::UnexpectedOperation),
        }
    }

    /// Replays a call of `resolve_coercion`: the next operation must record
    /// that call, from the same type to the same type at the place where the
    /// interpreter stands.
    fn try_resolve_coercion(
        &mut self,
        vertex_type: &str,
        coerce_to_type: &str,
        query_info: &QueryInfo,
    ) -> (r: Result<TraceReaderResolveCoercionIter<V>, ReplayError>)
        ensures
            final(self).ops == old(self).ops,
            final(self).next_op == after_read(old(self).ops@, old(self).next_op as int),
            match coercion_call(
                op_at(old(self).ops@, old(self).next_op as int),
                query_info.current_vertex,
                query_info.crossing_eid,
                vertex_type@,
                coerce_to_type@,
            ) {
                Ok(opid) => r matches Ok(iter) && iter.replay.kind == CallKind::Coercion
                    && iter.replay.parent_opid == opid && !iter.replay.exhausted
                    && !iter.replay.awaiting_input && iter.replay.input_batch@.len() == 0,
                Err(e) => r matches Err(x) && x == e,
            },
    {
        let (root_opid, call) = match self.read_call() {
            Ok(found) => found,
            Err(e) => {
                return Err(e);
            },
        };
        match call {
            FunctionCall::ResolveCoercion(vid, from_type, to_type) => {
                if vid.0 != query_info.at_vid().0 || *from_type != vertex_type.to_owned()
                    || *to_type != coerce_to_type.to_owned()
                    || query_info.crossing_eid().is_some() {
                    return Err(ReplayError::CallMismatch);
                }
                Ok(
                    TraceReaderResolveCoercionIter {
                        replay: ContextReplay::new(CallKind::Coercion, root_opid),
                    },
                )
            },
            _ => Err(ReplayError::UnexpectedOperation),
        }
    }

    /// The fault that replaying a call of `resolve_starting_vertices` would
    /// meet here, if it would meet one: the next operation must record that
    /// call, at the place where the interpreter stands, on no edge. Reads
    /// nothing.
    pub fn check_resolve_starting_vertices(
        &self,
        edge_name: &str,
        parameters: &EdgeParameters,
        query_info: &QueryInfo,
    ) -> (r: Result<(), ReplayError>)
        ensures
            match starting_vertices_call(
                op_at(self.ops@, self.next_op as int),
                query_info.current_vertex,
                query_info.crossing_eid,
            ) {
                Ok(_) => r is Ok,
                Err(e) => r == Err::<(), ReplayError>(e),
            },
    {
        let mut ahead = TraceReaderAdapter { ops: self.ops, next_op: self.next_op };
        match ahead.try_resolve_starting_vertices(edge_name, parameters, query_info) {
            Ok(_) => Ok(()),
            Err(e) => Err(e),
        }
    }

    /// Replays a call of `resolve_starting_vertices`: reads the operation
    /// that records it and gives the replay of its results. The next
    /// operation must record that call, at the place where the interpreter
    /// stands, on no edge; see
    /// [`TraceReaderAdapter::check_resolve_starting_vertices`].
    pub fn resolve_starting_vertices(
        &mut self,
        edge_name: &str,
        parameters: &EdgeParameters,
        query_info: &QueryInfo,
    ) -> (r: TraceReaderStartingVerticesIter)
        requires
            starting_vertices_call(
                op_at(old(self).ops@, old(self).next_op as int),
                query_info.current_vertex,
                query_info.crossing_eid,
            ) is Ok,
        ensures
            final(self).ops == old(self).ops,
            final(self).next_op == old(self).next_op + 1,
            r == (TraceReaderStartingVerticesIter {
                exhausted: false,
                parent_opid: starting_vertices_call(
                    op_at(old(self).ops@, old(self).next_op as int),
                    query_info.current_vertex,
                    query_info.crossing_eid,
                )->Ok_0,
            }),
    {
        self.try_resolve_starting_vertices(edge_name, parameters, query_info).unwrap()
    }

    /// The fault that replaying a call of `resolve_property` would meet here,
    /// if it would meet one: the next operation must record that call, for
    /// the same property of the same type at the place where the interpreter
    /// stands, on no edge. Reads nothing.
    pub fn check_resolve_property(
        &self,
        vertex_type: &str,
        property_name: &str,
        query_info: &QueryInfo,
    ) -> (r: Result<(), ReplayError>)
        ensures
            match property_call(
                op_at(self.ops@, self.next_op as int),
                query_info.current_vertex,
                query_info.crossing_eid,
                vertex_type@,
                property_name@,
            ) {
                Ok(_) => r is Ok,
                Err(e) => r == Err::<(), ReplayError>(e),
            },
    {
        let mut ahead = TraceReaderAdapter { ops: self.ops, next_op: self.next_op };
        match ahead.try_resolve_property(vertex_type, property_name, query_info) {
            Ok(_) => Ok(()),
            Err(e) => Err(e),
        }
    }

    /// Replays a call of `resolve_property`: reads the operation that records
    /// it and gives the replay of its results. The next operation must record
    /// that call, for the same property of the same type at the place where
    /// the interpreter stands, on no edge; see
    /// [`TraceReaderAdapter::check_resolve_property`].
    pub fn resolve_property(
        &mut self,
        vertex_type: &str,
        property_name: &str,
        query_info: &QueryInfo,
    ) -> (r: TraceReaderResolvePropertiesIter<V>)
        requires
            property_call(
                op_at(old(self).ops@, old(self).next_op as int),
                query_info.current_vertex,
                query_info.crossing_eid,
                vertex_type@,
                property_name@,
            ) is Ok,
        ensures
            final(self).ops == old(self).ops,
            final(self).next_op == old(self).next_op + 1,
            r.replay.kind == CallKind::Property,
            r.replay.parent_opid == property_call(
                op_at(old(self).ops@, old(self).next_op as int),
                query_info.current_vertex,
                query_info.crossing_eid,
                vertex_type@,
                property_name@,
            )->Ok_0,
            r.replay@ == (ReplayState::<V> {
                exhausted: false,
                awaiting_input: false,
                batch: Seq::empty(),
            }),
    {
        let iter = self.try_resolve_property(vertex_type, property_name, query_info).unwrap();
        assert(iter.replay.input_batch@ =~= Seq::<DataContext<V>>::empty());
        iter
    }

    /// The fault that replaying a call of `resolve_neighbors` would meet
    /// here, if it would meet one: the next operation must record that call,
    /// for the same type at the place where the interpreter stands, on the
    /// edge that it follows. Reads nothing.
    pub fn check_resolve_neighbors(
        &self,
        vertex_type: &str,
        edge_name: &str,
        parameters: &EdgeParameters,
        query_info: &QueryInfo,
    ) -> (r: Result<(), ReplayError>)
        ensures
            match neighbors_call(
                op_at(self.ops@, self.next_op as int),
                query_info.current_vertex,
                query_info.crossing_eid,
                vertex_type@,
            ) {
                Ok(_) => r is Ok,
                Err(e) => r == Err::<(), ReplayError>(e),
            },
    {
        let mut ahead = TraceReaderAdapter { ops: self.ops, next_op: self.next_op };
        match ahead.try_resolve_neighbors(vertex_type, edge_name, parameters, query_info) {
            Ok(_) => Ok(()),
            Err(e) => Err(e),
        }
    }

    /// Replays a call of `resolve_neighbors`: reads the operation that
    /// records it and gives the replay of its results. The next operation
    /// must record that call, for the same type at the place where the
    /// interpreter stands, on the edge that it follows; see
    /// [`TraceReaderAdapter::check_resolve_neighbors`].
    pub fn resolve_neighbors(
        &mut self,
        vertex_type: &str,
        edge_name: &str,
        parameters: &EdgeParameters,
        query_info: &QueryInfo,
    ) -> (r: TraceReaderResolveNeighborsIter<V>)
        requires
            neighbors_call(
                op_at(old(self).ops@, old(self).next_op as int),
                query_info.current_vertex,
                query_info.crossing_eid,
                vertex_type@,
            ) is Ok,
        ensures
            final(self).ops == old(self).ops,
            final(self).next_op == old(self).next_op + 1,
            r.replay.kind == CallKind::Neighbors,
            r.replay.parent_opid == neighbors_call(
                op_at(old(self).ops@, old(self).next_op as int),
                query_info.current_vertex,
                query_info.crossing_eid,
                vertex_type@,
            )->Ok_0,
            r.replay@ == (ReplayState::<V> {
                exhausted: false,
                awaiting_input: false,
                batch: Seq::empty(),
            }),
    {
        let iter = self.try_resolve_neighbors(vertex_type, edge_name, parameters, query_info).unwrap();
        assert(iter.replay.input_batch@ =~= Seq::<DataContext<V>>::empty());
        iter
    }

    /// The fault that replaying a call of `resolve_coercion` would meet here,
    /// if it would meet one: the next operation must record that call, from
    /// the same type to the same type at the place where the interpreter
    /// stands, on no edge. Reads nothing.
    pub fn check_resolve_coercion(
        &self,
        vertex_type: &str,
        coerce_to_type: &str,
        query_info: &QueryInfo,
    ) -> (r: Result<(), ReplayError>)
        ensures
            match coercion_call(
                op_at(self.ops@, self.next_op as int),
                query_info.current_vertex,
                query_info.crossing_eid,
                vertex_type@,
                coerce_to_type@,
            ) {
                Ok(_) => r is Ok,
                Err(e) => r == Err::<(), ReplayError>(e),
            },
    {
        let mut ahead = TraceReaderAdapter { ops: self.ops, next_op: self.next_op };
        match ahead.try_resolve_coercion(vertex_type, coerce_to_type, query_info) {
            Ok(_) => Ok(()),
            Err(e) => Err(e),
        }
    }

    /// Replays a call of `resolve_coercion`: reads the operation that records
    /// it and gives the replay of its results. The next operation must record
    /// that call, from the same type to the same type at the place where the
    /// interpreter stands, on no edge; see
    /// [`TraceReaderAdapter::check_resolve_coercion`].
    pub fn resolve_coercion(
        &mut self,
        vertex_type: &str,
        coerce_to_type: &str,
        query_info: &QueryInfo,
    ) -> (r: TraceReaderResolveCoercionIter<V>)
        requires
            coercion_call(
                op_at(old(self).ops@, old(self).next_op as int),
                query_info.current_vertex,
                query_info.crossing_eid,
                vertex_type@,
                coerce_to_type@,
            ) is Ok,
        ensures
            final(self).ops == old(self).ops,
            final(self).next_op == old(self).next_op + 1,
            r.replay.kind == CallKind::Coercion,
            r.replay.parent_opid == coercion_call(
                op_at(old(self).ops@, old(self).next_op as int),
                query_info.current_vertex,
                query_info.crossing_eid,
                vertex_type@,
                coerce_to_type@,
            )->Ok_0,
            r.replay@ == (ReplayState::<V> {
                exhausted: false,
                awaiting_input: false,
                batch: Seq::empty(),
            }),
    {
        let iter = self.try_resolve_coercion(vertex_type, coerce_to_type, query_info).unwrap();
        assert(iter.replay.input_batch@ =~= Seq::<DataContext<V>>::empty());
        iter
    }
}

/// Whether two rows of results agree on the output `name`: both have it
/// with equal values, or neither has it.
pub open spec fn entry_agrees(
    a: Seq<(String, FieldValue)>,
    b: Seq<(String, FieldValue)>,
    name: Seq<char>,
) -> bool {
    match (argument_value(a, name), argument_value(b, name)) {
        (Some(x), Some(y)) => x@.equals(y@),
        (None, None) => true,
        _ => false,
    }
}

/// Whether two rows of results are the same mapping: they show the same
/// names, each with equal values, in whatever order.
pub open spec fn same_row(a: Seq<(String, FieldValue)>, b: Seq<(String, FieldValue)>) -> bool {
    forall|name: Seq<char>| #[trigger] entry_agrees(a, b, name)
}

/// Whether two rows agree on the output `name`.
fn entries_agree(a: &ResultRow, b: &ResultRow, name: &String) -> (r: bool)
    ensures
        r == entry_agrees(a@, b@, name@),
{
    match (argument(a, name), argument(b, name)) {
        (Some(x), Some(y)) => x.equals(y),
        (None, None) => true,
        _ => false,
    }
}

/// Whether two rows of results are equal; see [`same_row`].
pub fn rows_equal(a: &ResultRow, b: &ResultRow) -> (r: bool)
    ensures
        r == same_row(a@, b@),
{
    let mut i: usize = 0;
    while i < a.len()
        invariant
            i <= a.len(),
            forall|k: int| 0 <= k < i ==> entry_agrees(a@, b@, (#[trigger] a[k]).0@),
        decreases a.len() - i,
    {
        if !entries_agree(a, b, &a[i].0) {
            return false;
        }
        i += 1;
    }
    let mut j: usize = 0;
    while j < b.len()
        invariant
            j <= b.len(),
            forall|k: int| 0 <= k < a.len() ==> entry_agrees(a@, b@, (#[trigger] a[k]).0@),
            forall|k: int| 0 <= k < j ==> entry_agrees(a@, b@, (#[trigger] b[k]).0@),
        decreases b.len() - j,
    {
        if !entries_agree(a, b, &b[j].0) {
            return false;
        }
        j += 1;
    }
    assert forall|name: Seq<char>| #[trigger] entry_agrees(a@, b@, name) by {
        let in_a = first_key(argument_names(a@), name);
        let in_b = first_key(argument_names(b@), name);
        if in_a is Some {
            lemma_first_key_found(argument_names(a@), name);
            assert(a[in_a->Some_0].0@ == name);
        } else if in_b is Some {
            lemma_first_key_found(argument_names(b@), name);
            assert(b[in_b->Some_0].0@ == name);
        }
    }
    true
}

/// How the check of one row of results ended.
#[derive(Clone, Copy, Debug, PartialEq, Eq, Structural)]
pub enum ResultCheck {
    /// The row is the expected one, and the trace recorded it: go on.
    Matched,
    /// No more rows are expected: the check is over.
    Finished,
}

/// The check of one row against the operation at the cursor.
///
/// While a row is expected, the trace must record that very row next, and
/// the interpreter must have produced it. Once no row is expected, the
/// interpreter may have one left only where the expected rows are not said
/// to be complete.
pub open spec fn spec_check_result<V>(
    op: Option<TraceOp<V>>,
    expected_row: Option<ResultRow>,
    produced_row: Option<ResultRow>,
    complete: bool,
) -> Result<ResultCheck, ReplayError> {
    match expected_row {
        Some(expected) => match op {
            None => Err(ReplayError::TraceEnded),
            Some(found) => match found.content {
                TraceOpContent::ProduceQueryResult(recorded) => if !same_row(recorded@, expected@) {
                    Err(ReplayError::InconsistentTrace)
                } else {
                    match produced_row {
                        Some(produced) => if same_row(expected@, produced@) {
                            Ok(ResultCheck::Matched)
                        } else {
                            Err(ReplayError::ResultMismatch)
                        },
                        None => Err(ReplayError::ResultMismatch),
                    }
                },
                _ => Err(ReplayError::UnexpectedOperation),
            },
        },
        None => if complete && produced_row is Some {
            Err(ReplayError::ResultMismatch)
        } else {
            Ok(ResultCheck::Finished)
        },
    }
}

/// Checks one row that a replayed run produced; see [`spec_check_result`].
/// Reads one operation while a row is expected, and none after that.
pub fn check_interpreted_result<'trace, V>(
    reader: &mut TraceReaderAdapter<'trace, V>,
    expected_row: Option<&ResultRow>,
    produced_row: Option<&ResultRow>,
    complete: bool,
) -> (r: Result<ResultCheck, ReplayError>)
    ensures
        final(reader).ops == old(reader).ops,
        final(reader).next_op == if expected_row is Some {
            after_read(old(reader).ops@, old(reader).next_op as int)
        } else {
            old(reader).next_op as int
        },
        r == spec_check_result(
            op_at(old(reader).ops@, old(reader).next_op as int),
            match expected_row {
                Some(row) => Some(*row),
                None => None,
            },
            match produced_row {
                Some(row) => Some(*row),
                None => None,
            },
            complete,
        ),
{
    match expected_row {
        Some(expected) => {
            let trace_op = match advance_ref_iter(reader) {
                Some(op) => op,
                None => {
                    return Err(ReplayError::TraceEnded);
                },
            };
            match &trace_op.content {
                TraceOpContent::ProduceQueryResult(recorded) => {
                    if !rows_equal(recorded, expected) {
                        return Err(ReplayError::InconsistentTrace);
                    }
                    match produced_row {
                        Some(produced) => if rows_equal(expected, produced) {
                            Ok(ResultCheck::Matched)
                        } else {
                            Err(ReplayError::ResultMismatch)
                        },
                        None => Err(ReplayError::ResultMismatch),
                    }
                },
                _ => Err(ReplayError::UnexpectedOperation),
            }
        },
        None => {
            if complete && produced_row.is_some() {
                Err(ReplayError::ResultMismatch)
            } else {
                Ok(ResultCheck::Finished)
            }
        },
    }
}

} // verus!
