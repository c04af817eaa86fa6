use std::sync::Arc;
use trustfall_core::context::DataContext;
use trustfall_core::hints::QueryInfo;
use trustfall_core::ir::{
    Eid, FieldRef, FoldSpecificField, FoldSpecificFieldKind, IRQuery, IRQueryComponent, IRVertex,
    IndexedQuery, InterpretedQuery, Vid,
};
use trustfall_core::replay::{
    advance_ref_iter, ReplayError, TraceReaderAdapter, TraceReaderNeighborIter,
    TraceReaderStartingVerticesIter,
};
use trustfall_core::replay_calls::{
    check_interpreted_result, rows_equal, ResultCheck, Step, TraceReaderResolveCoercionIter,
    TraceReaderResolveNeighborsIter, TraceReaderResolvePropertiesIter,
};
use trustfall_core::replay_contexts::{CallKind, ContextReplay, Polled};
use trustfall_core::trace::{FunctionCall, Opid, ResultRow, Trace, TraceOp, TraceOpContent, YieldValue};
use trustfall_core::value::FieldValue;

fn query() -> IRQuery {
    IRQuery {
        root_name: "Number".to_string(),
        root_parameters: vec![],
        root_component: Arc::new(IRQueryComponent {
            root: Vid(1),
            vertices: vec![IRVertex {
                vid: Vid(1),
                vertex_type: "Number".to_string(),
                coerced_from_type: None,
                filters: vec![],
            }],
            edges: vec![],
            folds: vec![],
            outputs: vec![],
        }),
    }
}

fn place(vid: usize, crossing: Option<usize>) -> QueryInfo {
    QueryInfo::new(
        InterpretedQuery {
            indexed_query: Arc::new(IndexedQuery::try_from(query()).unwrap()),
            arguments: Arc::new(vec![]),
        },
        Vid(vid),
        crossing.map(Eid),
    )
}

fn row(n: u64) -> DataContext<u64> {
    DataContext {
        active_vertex: Some(n),
        vertices: vec![(Vid(1), Some(n))],
        values: vec![],
        suspended_vertices: vec![],
        folded_contexts: vec![],
        folded_values: vec![],
        piggyback: None,
        imported_tags: vec![],
    }
}

fn trace(ops: Vec<(Option<usize>, TraceOpContent<u64>)>) -> Trace<u64> {
    let mut trace = Trace::new(query(), vec![]);
    for (parent, content) in ops {
        trace.record(content, parent.map(Opid));
    }
    trace
}

fn property_call() -> TraceOpContent<u64> {
    TraceOpContent::Call(FunctionCall::ResolveProperty(Vid(1), "Number".to_string(), "value".to_string()))
}

fn property(n: u64, value: i64) -> TraceOpContent<u64> {
    TraceOpContent::YieldFrom(YieldValue::ResolveProperty(row(n), FieldValue::Int64(value)))
}

fn result_row(name: &str, value: FieldValue) -> ResultRow {
    vec![(name.to_string(), value)]
}

fn next_vertex(
    reader: &mut TraceReaderAdapter<u64>,
    iter: &mut TraceReaderStartingVerticesIter,
) -> Result<Option<u64>, ReplayError> {
    iter.check_next(reader)?;
    Ok(iter.next(reader).copied())
}

fn next_neighbor(
    reader: &mut TraceReaderAdapter<u64>,
    iter: &mut TraceReaderNeighborIter,
) -> Result<Option<u64>, ReplayError> {
    iter.check_next(reader)?;
    Ok(iter.next(reader).copied())
}

fn next_property(
    reader: &mut TraceReaderAdapter<u64>,
    iter: &mut TraceReaderResolvePropertiesIter<u64>,
) -> Result<Step<(DataContext<u64>, FieldValue)>, ReplayError> {
    iter.replay.check_poll(reader)?;
    Ok(iter.next(reader))
}

fn next_coercion(
    reader: &mut TraceReaderAdapter<u64>,
    iter: &mut TraceReaderResolveCoercionIter<u64>,
) -> Result<Step<(DataContext<u64>, bool)>, ReplayError> {
    iter.replay.check_poll(reader)?;
    Ok(iter.next(reader))
}

fn next_neighbors(
    reader: &mut TraceReaderAdapter<u64>,
    iter: &mut TraceReaderResolveNeighborsIter<u64>,
) -> Result<Step<(DataContext<u64>, TraceReaderNeighborIter)>, ReplayError> {
    iter.replay.check_poll(reader)?;
    Ok(iter.next(reader))
}

fn supply(
    reader: &mut TraceReaderAdapter<u64>,
    replay: &mut ContextReplay<u64>,
    input: Option<DataContext<u64>>,
) -> Result<(), ReplayError> {
    replay.check_supply(reader, &input)?;
    replay.supply(reader, input);
    Ok(())
}

fn open_starting_vertices(
    reader: &mut TraceReaderAdapter<u64>,
    info: &QueryInfo,
) -> Result<TraceReaderStartingVerticesIter, ReplayError> {
    reader.check_resolve_starting_vertices("Number", &vec![], info)?;
    Ok(reader.resolve_starting_vertices("Number", &vec![], info))
}

fn open_property(
    reader: &mut TraceReaderAdapter<u64>,
    vertex_type: &str,
    name: &str,
    info: &QueryInfo,
) -> Result<TraceReaderResolvePropertiesIter<u64>, ReplayError> {
    reader.check_resolve_property(vertex_type, name, info)?;
    Ok(reader.resolve_property(vertex_type, name, info))
}

fn open_neighbors(
    reader: &mut TraceReaderAdapter<u64>,
    vertex_type: &str,
    info: &QueryInfo,
) -> Result<TraceReaderResolveNeighborsIter<u64>, ReplayError> {
    reader.check_resolve_neighbors(vertex_type, "successor", &vec![], info)?;
    Ok(reader.resolve_neighbors(vertex_type, "successor", &vec![], info))
}

fn open_coercion(
    reader: &mut TraceReaderAdapter<u64>,
    vertex_type: &str,
    to: &str,
    info: &QueryInfo,
) -> Result<TraceReaderResolveCoercionIter<u64>, ReplayError> {
    reader.check_resolve_coercion(vertex_type, to, info)?;
    Ok(reader.resolve_coercion(vertex_type, to, info))
}

/// Runs a replayed call of `resolve_property` against the given input, as
/// an interpreter would: one pull of the input for each request.
fn run_property(
    reader: &mut TraceReaderAdapter<u64>,
    iter: &mut TraceReaderResolvePropertiesIter<u64>,
    input: Vec<DataContext<u64>>,
) -> Result<(Vec<(DataContext<u64>, FieldValue)>, usize), ReplayError> {
    let mut input = input.into_iter();
    let mut out = vec![];
    let mut pulls = 0;
    loop {
        match next_property(reader, iter)? {
            Step::NeedInput => {
                pulls += 1;
                supply(reader, &mut iter.replay, input.next())?;
            }
            Step::Yield(pair) => out.push(pair),
            Step::Done => return Ok((out, pulls)),
        }
    }
}

#[test]
fn trace_numbers_operations_by_position() {
    let mut t: Trace<u64> = Trace::new(query(), vec![("x".to_string(), FieldValue::Int64(1))]);
    assert!(t.ops.is_empty());
    assert_eq!(t.arguments.len(), 1);
    let call = t.record(property_call(), None);
    assert_eq!(call, Opid(0));
    let advance = t.record(TraceOpContent::AdvanceInputIterator, Some(call));
    assert_eq!(advance, Opid(1));
    assert_eq!(t.ops.len(), 2);
    assert_eq!(t.ops[1].opid, Opid(1));
    assert_eq!(t.ops[1].parent_opid, Some(Opid(0)));
    assert!(matches!(t.ops[1].content, TraceOpContent::AdvanceInputIterator));
    assert!(matches!(t.ops[0].content, TraceOpContent::Call(_)));
}

#[test]
fn reader_reads_front_to_back() {
    let t = trace(vec![(None, property_call()), (Some(0), TraceOpContent::AdvanceInputIterator)]);
    let mut reader = TraceReaderAdapter::new(&t);
    assert_eq!(reader.next_op, 0);
    assert_eq!(advance_ref_iter(&mut reader).unwrap().opid, Opid(0));
    assert_eq!(advance_ref_iter(&mut reader).unwrap().opid, Opid(1));
    assert_eq!(reader.next_op, 2);
    assert!(advance_ref_iter(&mut reader).is_none());
    assert_eq!(reader.next_op, 2);
}

#[test]
fn property_replay_pairs_rows_in_order() {
    let t = trace(vec![
        (None, property_call()),
        (Some(0), TraceOpContent::AdvanceInputIterator),
        (Some(0), TraceOpContent::YieldInto(row(2))),
        (Some(0), TraceOpContent::AdvanceInputIterator),
        (Some(0), TraceOpContent::YieldInto(row(3))),
        (Some(0), property(2, 20)),
        (Some(0), property(3, 30)),
        (Some(0), TraceOpContent::AdvanceInputIterator),
        (Some(0), TraceOpContent::InputIteratorExhausted),
        (Some(0), TraceOpContent::OutputIteratorExhausted),
    ]);
    let mut reader = TraceReaderAdapter::new(&t);
    let mut iter = open_property(&mut reader, "Number", "value", &place(1, None)).unwrap();
    assert_eq!(iter.replay.parent_opid, Opid(0));
    let (out, pulls) = run_property(&mut reader, &mut iter, vec![row(2), row(3)]).unwrap();
    assert_eq!(out, vec![(row(2), FieldValue::Int64(20)), (row(3), FieldValue::Int64(30))]);
    let recorded_pulls = t.ops.iter().filter(|op| matches!(op.content, TraceOpContent::AdvanceInputIterator)).count();
    assert_eq!(pulls, recorded_pulls);
    assert_eq!(pulls, 3);
    assert_eq!(reader.next_op, t.ops.len());
    assert!(iter.replay.exhausted);
    assert_eq!(next_property(&mut reader, &mut iter).unwrap_err(), ReplayError::AlreadyExhausted);
}

#[test]
fn replay_is_the_same_on_every_run() {
    let t = trace(vec![
        (None, property_call()),
        (Some(0), TraceOpContent::AdvanceInputIterator),
        (Some(0), TraceOpContent::YieldInto(row(2))),
        (Some(0), property(2, 20)),
        (Some(0), TraceOpContent::OutputIteratorExhausted),
    ]);
    let run = || {
        let mut reader = TraceReaderAdapter::new(&t);
        let mut iter = open_property(&mut reader, "Number", "value", &place(1, None)).unwrap();
        run_property(&mut reader, &mut iter, vec![row(2)]).unwrap()
    };
    assert_eq!(run(), run());
}

#[test]
fn a_call_must_match_the_recorded_call() {
    let t = trace(vec![(None, property_call())]);
    let attempt = |vertex_type: &str, name: &str, info: QueryInfo| {
        let mut reader = TraceReaderAdapter::new(&t);
        let r = open_property(&mut reader, vertex_type, name, &info).map(|_| ());
        assert_eq!(reader.next_op, if r.is_ok() { 1 } else { 0 });
        r
    };
    assert_eq!(attempt("Number", "value", place(1, None)), Ok(()));
    assert_eq!(attempt("Number", "name", place(1, None)), Err(ReplayError::CallMismatch));
    assert_eq!(attempt("Prime", "value", place(1, None)), Err(ReplayError::CallMismatch));
    assert_eq!(attempt("Number", "value", place(2, None)), Err(ReplayError::CallMismatch));
    assert_eq!(attempt("Number", "value", place(1, Some(1))), Err(ReplayError::CallMismatch));
    let mut reader = TraceReaderAdapter::new(&t);
    assert_eq!(
        reader.check_resolve_coercion("Number", "Prime", &place(1, None)).unwrap_err(),
        ReplayError::UnexpectedOperation
    );
    assert_eq!(
        reader.check_resolve_neighbors("Number", "successor", &vec![], &place(1, Some(1))).unwrap_err(),
        ReplayError::UnexpectedOperation
    );
    assert_eq!(
        reader.check_resolve_starting_vertices("Number", &vec![], &place(1, None)).unwrap_err(),
        ReplayError::UnexpectedOperation
    );
    assert_eq!(reader.next_op, 0);
}

#[test]
fn a_call_is_an_operation_without_a_parent() {
    let with_parent = trace(vec![(None, property_call()), (Some(0), property_call())]);
    let mut reader = TraceReaderAdapter::new(&with_parent);
    reader.next_op = 1;
    assert_eq!(
        reader.check_resolve_property("Number", "value", &place(1, None)).unwrap_err(),
        ReplayError::UnexpectedParent
    );
    reader.next_op = 2;
    assert_eq!(
        reader.check_resolve_property("Number", "value", &place(1, None)).unwrap_err(),
        ReplayError::TraceEnded
    );
    let no_call = trace(vec![(None, TraceOpContent::AdvanceInputIterator)]);
    let reader = TraceReaderAdapter::new(&no_call);
    assert_eq!(
        reader.check_resolve_property("Number", "value", &place(1, None)).unwrap_err(),
        ReplayError::UnexpectedOperation
    );
}

#[test]
fn starting_vertices_come_back_as_recorded() {
    let t = trace(vec![
        (None, TraceOpContent::Call(FunctionCall::ResolveStartingVertices(Vid(1)))),
        (Some(0), TraceOpContent::YieldFrom(YieldValue::ResolveStartingVertices(2))),
        (Some(0), TraceOpContent::YieldFrom(YieldValue::ResolveStartingVertices(3))),
        (Some(0), TraceOpContent::OutputIteratorExhausted),
    ]);
    let mut reader = TraceReaderAdapter::new(&t);
    let mut iter = open_starting_vertices(&mut reader, &place(1, None)).unwrap();
    assert_eq!(iter, TraceReaderStartingVerticesIter { exhausted: false, parent_opid: Opid(0) });
    assert_eq!(next_vertex(&mut reader, &mut iter), Ok(Some(2)));
    assert_eq!(next_vertex(&mut reader, &mut iter), Ok(Some(3)));
    assert_eq!(next_vertex(&mut reader, &mut iter), Ok(None));
    assert!(iter.exhausted);
    assert_eq!(next_vertex(&mut reader, &mut iter), Err(ReplayError::AlreadyExhausted));
    assert_eq!(reader.next_op, 4);
    let mut elsewhere = TraceReaderAdapter::new(&t);
    assert_eq!(
        open_starting_vertices(&mut elsewhere, &place(2, None)).unwrap_err(),
        ReplayError::CallMismatch
    );
    let mut on_edge = TraceReaderAdapter::new(&t);
    assert_eq!(
        open_starting_vertices(&mut on_edge, &place(1, Some(1))).unwrap_err(),
        ReplayError::CallMismatch
    );
}

#[test]
fn starting_vertices_faults() {
    let t = trace(vec![
        (None, TraceOpContent::Call(FunctionCall::ResolveStartingVertices(Vid(1)))),
        (Some(7), TraceOpContent::OutputIteratorExhausted),
        (None, TraceOpContent::OutputIteratorExhausted),
        (Some(0), TraceOpContent::AdvanceInputIterator),
    ]);
    let at = |position: usize| {
        let mut reader = TraceReaderAdapter::new(&t);
        reader.next_op = position;
        let mut iter = TraceReaderStartingVerticesIter { exhausted: false, parent_opid: Opid(0) };
        next_vertex(&mut reader, &mut iter)
    };
    assert_eq!(at(1), Err(ReplayError::ParentMismatch));
    assert_eq!(at(2), Err(ReplayError::MissingParent));
    assert_eq!(at(3), Err(ReplayError::UnexpectedOperation));
    assert_eq!(at(4), Err(ReplayError::TraceEnded));
}

#[test]
fn neighbors_are_numbered_under_their_row() {
    let t = trace(vec![
        (None, TraceOpContent::Call(FunctionCall::ResolveNeighbors(Vid(1), "Number".to_string(), Eid(1)))),
        (Some(0), TraceOpContent::AdvanceInputIterator),
        (Some(0), TraceOpContent::YieldInto(row(2))),
        (Some(0), TraceOpContent::YieldFrom(YieldValue::ResolveNeighborsOuter(row(2)))),
        (Some(3), TraceOpContent::YieldFrom(YieldValue::ResolveNeighborsInner(0, 3))),
        (Some(3), TraceOpContent::YieldFrom(YieldValue::ResolveNeighborsInner(1, 4))),
        (Some(3), TraceOpContent::OutputIteratorExhausted),
        (Some(0), TraceOpContent::AdvanceInputIterator),
        (Some(0), TraceOpContent::InputIteratorExhausted),
        (Some(0), TraceOpContent::OutputIteratorExhausted),
    ]);
    let mut reader = TraceReaderAdapter::new(&t);
    let mut outer = open_neighbors(&mut reader, "Number", &place(1, Some(1))).unwrap();
    assert!(matches!(next_neighbors(&mut reader, &mut outer), Ok(Step::NeedInput)));
    assert_eq!(supply(&mut reader, &mut outer.replay, Some(row(2))), Ok(()));
    let (context, mut neighbors) = match next_neighbors(&mut reader, &mut outer) {
        Ok(Step::Yield(pair)) => pair,
        other => panic!("unexpected {other:?}"),
    };
    assert_eq!(context, row(2));
    assert_eq!(
        neighbors,
        TraceReaderNeighborIter { exhausted: false, parent_iterator_opid: Opid(3), next_index: 0 }
    );
    assert_eq!(next_neighbor(&mut reader, &mut neighbors), Ok(Some(3)));
    assert_eq!(next_neighbor(&mut reader, &mut neighbors), Ok(Some(4)));
    assert_eq!(neighbors.next_index, 2);
    assert_eq!(next_neighbor(&mut reader, &mut neighbors), Ok(None));
    assert!(neighbors.exhausted);
    assert!(matches!(next_neighbors(&mut reader, &mut outer), Ok(Step::NeedInput)));
    assert_eq!(supply(&mut reader, &mut outer.replay, None), Ok(()));
    assert!(matches!(next_neighbors(&mut reader, &mut outer), Ok(Step::Done)));
    assert_eq!(reader.next_op, t.ops.len());
}

#[test]
fn neighbor_calls_need_the_recorded_edge() {
    let t = trace(vec![(
        None,
        TraceOpContent::Call(FunctionCall::ResolveNeighbors(Vid(1), "Number".to_string(), Eid(1))),
    )]);
    let attempt = |vertex_type: &str, info: QueryInfo| {
        let mut reader = TraceReaderAdapter::new(&t);
        open_neighbors(&mut reader, vertex_type, &info).map(|_| ())
    };
    assert_eq!(attempt("Number", place(1, Some(1))), Ok(()));
    assert_eq!(attempt("Number", place(1, Some(2))), Err(ReplayError::CallMismatch));
    assert_eq!(attempt("Number", place(1, None)), Err(ReplayError::CallMismatch));
    assert_eq!(attempt("Prime", place(1, Some(1))), Err(ReplayError::CallMismatch));
    assert_eq!(attempt("Number", place(2, Some(1))), Err(ReplayError::CallMismatch));
}

#[test]
fn neighbor_faults() {
    let t = trace(vec![
        (Some(3), TraceOpContent::YieldFrom(YieldValue::ResolveNeighborsInner(1, 3))),
        (Some(4), TraceOpContent::OutputIteratorExhausted),
        (None, TraceOpContent::OutputIteratorExhausted),
        (Some(3), TraceOpContent::YieldFrom(YieldValue::ResolveStartingVertices(3))),
        (Some(3), TraceOpContent::OutputIteratorExhausted),
    ]);
    let at = |position: usize, exhausted: bool| {
        let mut reader = TraceReaderAdapter::new(&t);
        reader.next_op = position;
        let mut iter = TraceReaderNeighborIter { exhausted, parent_iterator_opid: Opid(3), next_index: 0 };
        let r = next_neighbor(&mut reader, &mut iter);
        (r, reader.next_op)
    };
    assert_eq!(at(0, false), (Err(ReplayError::NeighborIndexMismatch), 0));
    assert_eq!(at(1, false), (Err(ReplayError::ParentMismatch), 1));
    assert_eq!(at(2, false), (Err(ReplayError::MissingParent), 2));
    assert_eq!(at(3, false), (Err(ReplayError::UnexpectedOperation), 3));
    assert_eq!(at(4, false), (Ok(None), 5));
    assert_eq!(at(4, true), (Err(ReplayError::AlreadyExhausted), 4));
    assert_eq!(at(5, true), (Err(ReplayError::TraceEnded), 5));
}

#[test]
fn coercion_replay_gives_the_recorded_answers() {
    let t = trace(vec![
        (None, TraceOpContent::Call(FunctionCall::ResolveCoercion(Vid(1), "Number".to_string(), "Prime".to_string()))),
        (Some(0), TraceOpContent::AdvanceInputIterator),
        (Some(0), TraceOpContent::YieldInto(row(4))),
        (Some(0), TraceOpContent::YieldFrom(YieldValue::ResolveCoercion(row(4), false))),
        (Some(0), TraceOpContent::AdvanceInputIterator),
        (Some(0), TraceOpContent::YieldInto(row(5))),
        (Some(0), TraceOpContent::YieldFrom(YieldValue::ResolveCoercion(row(5), true))),
        (Some(0), TraceOpContent::OutputIteratorExhausted),
    ]);
    let mut reader = TraceReaderAdapter::new(&t);
    let mut iter: TraceReaderResolveCoercionIter<u64> =
        open_coercion(&mut reader, "Number", "Prime", &place(1, None)).unwrap();
    let mut input = vec![row(4), row(5)].into_iter();
    let mut out = vec![];
    loop {
        match next_coercion(&mut reader, &mut iter).unwrap() {
            Step::NeedInput => supply(&mut reader, &mut iter.replay, input.next()).unwrap(),
            Step::Yield(pair) => out.push(pair),
            Step::Done => break,
        }
    }
    assert_eq!(out, vec![(row(4), false), (row(5), true)]);
    let other = TraceReaderAdapter::new(&t);
    assert_eq!(
        other.check_resolve_coercion("Number", "Even", &place(1, None)).unwrap_err(),
        ReplayError::CallMismatch
    );
    assert_eq!(
        other.check_resolve_coercion("Integer", "Prime", &place(1, None)).unwrap_err(),
        ReplayError::CallMismatch
    );
}

fn step_at(
    t: &Trace<u64>,
    position: usize,
    kind: CallKind,
    waiting: Vec<DataContext<u64>>,
) -> (Result<String, ReplayError>, usize, usize) {
    let mut reader = TraceReaderAdapter::new(t);
    reader.next_op = position;
    let mut replay: ContextReplay<u64> = ContextReplay::new(kind, Opid(0));
    for context in waiting {
        replay.input_batch.push_back(context);
    }
    let r = replay.check_poll(&reader).map(|_| match replay.poll(&mut reader) {
        Polled::NeedInput => "need input".to_string(),
        Polled::Output(context, op) => format!("{:?} at {}", context.active_vertex, op.opid.0),
        Polled::Done => "done".to_string(),
    });
    (r, reader.next_op, replay.input_batch.len())
}

#[test]
fn results_leave_the_line_from_the_front() {
    let t = trace(vec![
        (None, property_call()),
        (Some(0), property(2, 20)),
        (Some(0), TraceOpContent::OutputIteratorExhausted),
        (Some(0), TraceOpContent::YieldFrom(YieldValue::ResolveCoercion(row(2), true))),
        (Some(0), TraceOpContent::YieldInto(row(2))),
    ]);
    assert_eq!(
        step_at(&t, 1, CallKind::Property, vec![row(2), row(3)]),
        (Ok("Some(2) at 1".to_string()), 2, 1)
    );
    assert_eq!(step_at(&t, 1, CallKind::Property, vec![]), (Err(ReplayError::OutputWithoutInput), 1, 0));
    assert_eq!(
        step_at(&t, 1, CallKind::Property, vec![row(3), row(2)]).0,
        Err(ReplayError::OutputMismatch)
    );
    assert_eq!(step_at(&t, 1, CallKind::Coercion, vec![row(2)]).0, Err(ReplayError::UnexpectedOperation));
    assert_eq!(step_at(&t, 1, CallKind::Neighbors, vec![row(2)]).0, Err(ReplayError::UnexpectedOperation));
    assert_eq!(step_at(&t, 3, CallKind::Coercion, vec![row(2)]).0, Ok("Some(2) at 3".to_string()));
    assert_eq!(step_at(&t, 2, CallKind::Property, vec![]), (Ok("done".to_string()), 3, 0));
    assert_eq!(step_at(&t, 2, CallKind::Property, vec![row(2)]).0, Err(ReplayError::InputsLeftOver));
    assert_eq!(step_at(&t, 4, CallKind::Property, vec![row(2)]).0, Err(ReplayError::UnexpectedOperation));
    assert_eq!(step_at(&t, 0, CallKind::Property, vec![]).0, Err(ReplayError::MissingParent));
    assert_eq!(step_at(&t, 5, CallKind::Property, vec![]), (Err(ReplayError::TraceEnded), 5, 0));
}

#[test]
fn inputs_must_be_the_recorded_rows() {
    let t = trace(vec![
        (None, property_call()),
        (Some(0), TraceOpContent::AdvanceInputIterator),
        (Some(0), TraceOpContent::YieldInto(row(2))),
        (Some(0), TraceOpContent::InputIteratorExhausted),
        (Some(0), property(2, 20)),
        (Some(9), TraceOpContent::YieldInto(row(2))),
    ]);
    let supply_at = |position: usize, input: Option<DataContext<u64>>| {
        let mut reader = TraceReaderAdapter::new(&t);
        reader.next_op = 1;
        let mut replay: ContextReplay<u64> = ContextReplay::new(CallKind::Property, Opid(0));
        assert_eq!(replay.check_poll(&reader), Ok(()));
        assert!(matches!(replay.poll(&mut reader), Polled::NeedInput));
        assert!(replay.awaiting_input);
        reader.next_op = position;
        let r = supply(&mut reader, &mut replay, input);
        (r, replay.input_batch.len(), replay.awaiting_input)
    };
    assert_eq!(supply_at(2, Some(row(2))), (Ok(()), 1, false));
    assert_eq!(supply_at(2, Some(row(3))).0, Err(ReplayError::InputMismatch));
    assert_eq!(supply_at(2, None).0, Err(ReplayError::InputMissing));
    assert_eq!(supply_at(3, None), (Ok(()), 0, false));
    assert_eq!(supply_at(2, Some(row(3))), (Err(ReplayError::InputMismatch), 0, true));
    assert_eq!(supply_at(3, Some(row(2))).0, Err(ReplayError::InputNotExhausted));
    assert_eq!(supply_at(4, Some(row(2))).0, Err(ReplayError::UnexpectedOperation));
    assert_eq!(supply_at(5, Some(row(2))).0, Err(ReplayError::ParentMismatch));
    assert_eq!(supply_at(6, Some(row(2))).0, Err(ReplayError::TraceEnded));
}

#[test]
fn steps_out_of_turn_are_faults() {
    let t = trace(vec![
        (None, property_call()),
        (Some(0), TraceOpContent::AdvanceInputIterator),
        (Some(0), TraceOpContent::YieldInto(row(2))),
    ]);
    let mut reader = TraceReaderAdapter::new(&t);
    let mut iter: TraceReaderResolvePropertiesIter<u64> =
        open_property(&mut reader, "Number", "value", &place(1, None)).unwrap();
    assert_eq!(supply(&mut reader, &mut iter.replay, Some(row(2))), Err(ReplayError::OutOfTurn));
    assert_eq!(reader.next_op, 1);
    assert!(matches!(next_property(&mut reader, &mut iter), Ok(Step::NeedInput)));
    assert_eq!(next_property(&mut reader, &mut iter).unwrap_err(), ReplayError::OutOfTurn);
    assert_eq!(reader.next_op, 2);
    assert_eq!(supply(&mut reader, &mut iter.replay, Some(row(2))), Ok(()));
}

#[test]
fn replays_of_two_calls_interleave() {
    let t = trace(vec![
        (None, property_call()),
        (Some(0), TraceOpContent::AdvanceInputIterator),
        (None, TraceOpContent::Call(FunctionCall::ResolveStartingVertices(Vid(1)))),
        (Some(2), TraceOpContent::YieldFrom(YieldValue::ResolveStartingVertices(2))),
        (Some(0), TraceOpContent::YieldInto(row(2))),
        (Some(0), property(2, 2)),
        (None, TraceOpContent::ProduceQueryResult(result_row("value", FieldValue::Int64(2)))),
        (Some(0), TraceOpContent::AdvanceInputIterator),
        (Some(2), TraceOpContent::OutputIteratorExhausted),
        (Some(0), TraceOpContent::InputIteratorExhausted),
        (Some(0), TraceOpContent::OutputIteratorExhausted),
    ]);
    let info = place(1, None);
    let mut reader = TraceReaderAdapter::new(&t);
    let mut properties = open_property(&mut reader, "Number", "value", &info).unwrap();
    let mut starting: Option<TraceReaderStartingVerticesIter> = None;
    let mut rows = vec![];
    let mut pulls = 0;
    loop {
        match next_property(&mut reader, &mut properties).unwrap() {
            Step::NeedInput => {
                pulls += 1;
                if starting.is_none() {
                    starting = Some(open_starting_vertices(&mut reader, &info).unwrap());
                }
                let vertex = next_vertex(&mut reader, starting.as_mut().unwrap()).unwrap();
                supply(&mut reader, &mut properties.replay, vertex.map(row)).unwrap();
            }
            Step::Yield((context, value)) => {
                assert_eq!(context, row(2));
                let produced = result_row("value", value);
                let expected = result_row("value", FieldValue::Int64(2));
                assert_eq!(
                    check_interpreted_result(&mut reader, Some(&expected), Some(&produced), true),
                    Ok(ResultCheck::Matched)
                );
                rows.push(produced);
            }
            Step::Done => break,
        }
    }
    assert_eq!(rows, vec![result_row("value", FieldValue::Int64(2))]);
    assert_eq!(pulls, 2);
    assert_eq!(reader.next_op, t.ops.len());
    assert_eq!(
        check_interpreted_result(&mut reader, None, None, true),
        Ok(ResultCheck::Finished)
    );
}

#[test]
fn produced_rows_are_held_against_trace_and_expectation() {
    let t = trace(vec![
        (None, TraceOpContent::ProduceQueryResult(result_row("v", FieldValue::Int64(2)))),
        (None, property_call()),
    ]);
    let two = result_row("v", FieldValue::Int64(2));
    let three = result_row("v", FieldValue::Int64(3));
    let check = |position: usize, expected: Option<&ResultRow>, produced: Option<&ResultRow>, complete: bool| {
        let mut reader = TraceReaderAdapter::new(&t);
        reader.next_op = position;
        let r = check_interpreted_result(&mut reader, expected, produced, complete);
        (r, reader.next_op)
    };
    assert_eq!(check(0, Some(&two), Some(&two), true), (Ok(ResultCheck::Matched), 1));
    assert_eq!(check(0, Some(&three), Some(&three), true), (Err(ReplayError::InconsistentTrace), 1));
    assert_eq!(check(0, Some(&two), Some(&three), true), (Err(ReplayError::ResultMismatch), 1));
    assert_eq!(check(0, Some(&two), None, false), (Err(ReplayError::ResultMismatch), 1));
    assert_eq!(check(1, Some(&two), Some(&two), true), (Err(ReplayError::UnexpectedOperation), 2));
    assert_eq!(check(2, Some(&two), Some(&two), true), (Err(ReplayError::TraceEnded), 2));
    assert_eq!(check(0, None, None, true), (Ok(ResultCheck::Finished), 0));
    assert_eq!(check(0, None, Some(&two), true), (Err(ReplayError::ResultMismatch), 0));
    assert_eq!(check(0, None, Some(&two), false), (Ok(ResultCheck::Finished), 0));
}

#[test]
fn result_rows_compare_names_and_values() {
    let a = vec![("a".to_string(), FieldValue::Int64(1)), ("b".to_string(), FieldValue::Null)];
    let b = vec![("a".to_string(), FieldValue::Int64(1)), ("b".to_string(), FieldValue::Null)];
    assert!(rows_equal(&a, &b));
    assert!(!rows_equal(&a, &vec![("a".to_string(), FieldValue::Int64(1))]));
    assert!(!rows_equal(&a, &vec![("a".to_string(), FieldValue::Int64(1)), ("c".to_string(), FieldValue::Null)]));
    assert!(!rows_equal(&a, &vec![("a".to_string(), FieldValue::Int64(2)), ("b".to_string(), FieldValue::Null)]));
    assert!(rows_equal(&a, &vec![("b".to_string(), FieldValue::Null), ("a".to_string(), FieldValue::Int64(1))]));
    assert!(!rows_equal(&vec![], &a));
    assert!(rows_equal(&vec![], &vec![]));
}

#[test]
fn rows_are_equal_field_by_field() {
    let count = FieldRef::FoldSpecificField(FoldSpecificField {
        fold_eid: Eid(1),
        fold_root_vid: Vid(2),
        kind: FoldSpecificFieldKind::Count,
    });
    let full = || DataContext {
        active_vertex: None,
        vertices: vec![(Vid(1), Some(1u64)), (Vid(2), None)],
        values: vec![FieldValue::Int64(1)],
        suspended_vertices: vec![Some(1), None],
        folded_contexts: vec![(Eid(1), vec![row(2), row(3)])],
        folded_values: vec![((Eid(1), "seq".to_string()), FieldValue::List(vec![FieldValue::Int64(2), FieldValue::Int64(3)]))],
        piggyback: Some(vec![row(9)]),
        imported_tags: vec![(count.clone(), FieldValue::Uint64(2))],
    };
    assert_eq!(full(), full());
    let mut other = full();
    other.active_vertex = Some(1);
    assert_ne!(full(), other);
    let mut other = full();
    other.vertices[1].1 = Some(2);
    assert_ne!(full(), other);
    let mut other = full();
    other.values.push(FieldValue::Null);
    assert_ne!(full(), other);
    let mut other = full();
    other.suspended_vertices.pop();
    assert_ne!(full(), other);
    let mut other = full();
    other.folded_contexts[0].1[1] = row(4);
    assert_ne!(full(), other);
    let mut other = full();
    other.folded_contexts[0].0 = Eid(2);
    assert_ne!(full(), other);
    let mut other = full();
    other.folded_values[0].0 .1 = "other".to_string();
    assert_ne!(full(), other);
    let mut other = full();
    other.piggyback = None;
    assert_ne!(full(), other);
    let mut other = full();
    other.piggyback = Some(vec![row(8)]);
    assert_ne!(full(), other);
    let mut other = full();
    other.imported_tags[0].1 = FieldValue::Uint64(3);
    assert_ne!(full(), other);
    assert!(full().same_as(&full()));
}

#[test]
fn trace_operations_can_be_listed() {
    let op: TraceOp<u64> = TraceOp { opid: Opid(4), parent_opid: None, content: TraceOpContent::InputIteratorExhausted };
    let t = Trace { ops: vec![op], ir_query: query(), arguments: vec![] };
    let mut reader = TraceReaderAdapter { ops: &t.ops, next_op: 0 };
    assert_eq!(advance_ref_iter(&mut reader).unwrap().opid, Opid(4));
    let neighbors: TraceReaderResolveNeighborsIter<u64> =
        TraceReaderResolveNeighborsIter { replay: ContextReplay::new(CallKind::Neighbors, Opid(4)) };
    assert_eq!(neighbors.replay.check_poll(&reader).unwrap_err(), ReplayError::TraceEnded);
}
