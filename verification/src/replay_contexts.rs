//! The part that the replays of `resolve_property`, `resolve_neighbors` and
//! `resolve_coercion` share: rows go in, one at a time and only when the
//! trace says that the adapter asked for one; results come out, each for the
//! row that has waited longest. A step is taken only where it meets no
//! fault; the check beside it names the fault that it would meet.
use crate::context::DataContext;
use crate::replay::{advance_ref_iter, child_op, op_at, ReplayError, TraceReaderAdapter};
use crate::trace::{Opid, TraceOp, TraceOpContent, YieldValue};
use std::collections::VecDeque;
use vstd::prelude::*;
use vstd::std_specs::cmp::PartialEqSpec;

verus! {

/// Which of the adapter's operations on rows is replayed.
#[derive(Clone, Copy, Debug, PartialEq, Eq, Structural)]
pub enum CallKind {
    Property,
    Neighbors,
    Coercion,
}

/// The replay of one recorded call that takes rows and gives results.
#[derive(Debug)]
pub struct ContextReplay<V> {
    pub kind: CallKind,
    /// Whether the results have ended.
    pub exhausted: bool,
    /// Whether the trace has asked for an input that has not come yet.
    pub awaiting_input: bool,
    /// The recorded call.
    pub parent_opid: Opid,
    /// The rows that went in and whose results have not come out yet.
    pub input_batch: VecDeque<DataContext<V>>,
}

/// The model of a replay: its flags, and the waiting rows in their order.
pub struct ReplayState<V> {
    pub exhausted: bool,
    pub awaiting_input: bool,
    pub batch: Seq<DataContext<V>>,
}

impl<V> View for ContextReplay<V> {
    type V = ReplayState<V>;

    open spec fn view(&self) -> ReplayState<V> {
        ReplayState {
            exhausted: self.exhausted,
            awaiting_input: self.awaiting_input,
            batch: self.input_batch@,
        }
    }
}

/// What a replay does when it is asked for its next result.
#[derive(Debug)]
pub enum Polled<'trace, V> {
    /// The adapter asked for an input here: hand the next row of the input
    /// to `supply`, or `None` if the input has ended.
    NeedInput,
    /// The adapter gave a result here: the row it belongs to, and the
    /// operation that recorded it.
    Output(DataContext<V>, &'trace TraceOp<V>),
    /// The adapter's results ended here.
    Done,
}

/// The model of [`Polled`].
pub enum PolledView<V> {
    NeedInput,
    Output(DataContext<V>, TraceOp<V>),
    Done,
}

impl<'trace, V> View for Polled<'trace, V> {
    type V = PolledView<V>;

    open spec fn view(&self) -> PolledView<V> {
        match self {
            Polled::NeedInput => PolledView::NeedInput,
            Polled::Output(context, op) => PolledView::Output(*context, **op),
            Polled::Done => PolledView::Done,
        }
    }
}

/// The row for which an operation records a result of the given kind.
pub open spec fn yielded_context<V>(kind: CallKind, content: TraceOpContent<V>) -> Option<
    DataContext<V>,
> {
    match (kind, content) {
        (
            CallKind::Property,
            TraceOpContent::YieldFrom(YieldValue::ResolveProperty(context, _)),
        ) => Some(context),
        (
            CallKind::Neighbors,
            TraceOpContent::YieldFrom(YieldValue::ResolveNeighborsOuter(context)),
        ) => Some(context),
        (
            CallKind::Coercion,
            TraceOpContent::YieldFrom(YieldValue::ResolveCoercion(context, _)),
        ) => Some(context),
        _ => None,
    }
}

/// The step that asks for the next result, when `op` is the operation at
/// the cursor.
///
/// Where the trace recorded that the adapter asked for an input, so does
/// the replay. Where it recorded a result, the row that has waited longest
/// must be the recorded one, and leaves the line with the result. Where it
/// recorded the end of the results, no row may be waiting.
pub open spec fn spec_poll<V: PartialEq>(
    kind: CallKind,
    parent: Opid,
    state: ReplayState<V>,
    op: Option<TraceOp<V>>,
) -> Result<(ReplayState<V>, PolledView<V>), ReplayError> {
    if state.awaiting_input {
        Err(ReplayError::OutOfTurn)
    } else if state.exhausted {
        Err(ReplayError::AlreadyExhausted)
    } else {
        match child_op(op, parent) {
            Err(e) => Err(e),
            Ok(found) => match found.content {
                TraceOpContent::AdvanceInputIterator => Ok(
                    (
                        ReplayState {
                            exhausted: false,
                            awaiting_input: true,
                            batch: state.batch,
                        },
                        PolledView::NeedInput,
                    ),
                ),
                TraceOpContent::OutputIteratorExhausted => if state.batch.len() == 0 {
                    Ok(
                        (
                            ReplayState {
                                exhausted: true,
                                awaiting_input: false,
                                batch: state.batch,
                            },
                            PolledView::Done,
                        ),
                    )
                } else {
                    Err(ReplayError::InputsLeftOver)
                },
                content => match yielded_context(kind, content) {
                    None => Err(ReplayError::UnexpectedOperation),
                    Some(recorded) => if state.batch.len() == 0 {
                        Err(ReplayError::OutputWithoutInput)
                    } else if !recorded.same(state.batch[0]) {
                        Err(ReplayError::OutputMismatch)
                    } else {
                        Ok(
                            (
                                ReplayState {
                                    exhausted: false,
                                    awaiting_input: false,
                                    batch: state.batch.drop_first(),
                                },
                                PolledView::Output(state.batch[0], found),
                            ),
                        )
                    },
                },
            },
        }
    }
}

/// The step that hands over what the input gave, when `op` is the operation
/// at the cursor.
///
/// Where the trace recorded a row, the input must have given that row, and
/// the row joins the end of the line. Where it recorded the end of the
/// input, the input must have ended.
pub open spec fn spec_supply<V: PartialEq>(
    parent: Opid,
    state: ReplayState<V>,
    op: Option<TraceOp<V>>,
    input: Option<DataContext<V>>,
) -> Result<ReplayState<V>, ReplayError> {
    if !state.awaiting_input {
        Err(ReplayError::OutOfTurn)
    } else {
        match child_op(op, parent) {
            Err(e) => Err(e),
            Ok(found) => match found.content {
                TraceOpContent::YieldInto(recorded) => match input {
                    None => Err(ReplayError::InputMissing),
                    Some(given) => if recorded.same(given) {
                        Ok(
                            ReplayState {
                                exhausted: state.exhausted,
                                awaiting_input: false,
                                batch: state.batch.push(given),
                            },
                        )
                    } else {
                        Err(ReplayError::InputMismatch)
                    },
                },
                TraceOpContent::InputIteratorExhausted => match input {
                    None => Ok(
                        ReplayState {
                            exhausted: state.exhausted,
                            awaiting_input: false,
                            batch: state.batch,
                        },
                    ),
                    Some(_) => Err(ReplayError::InputNotExhausted),
                },
                _ => Err(ReplayError::UnexpectedOperation),
            },
        }
    }
}

/// Whether asking for the next result holds a recorded row against a
/// waiting one: the step is in turn, the operation belongs to the call and
/// records a result of this kind, and a row is waiting.
pub open spec fn poll_compares<V>(
    kind: CallKind,
    parent: Opid,
    state: ReplayState<V>,
    op: Option<TraceOp<V>>,
) -> bool {
    &&& !state.awaiting_input
    &&& !state.exhausted
    &&& child_op(op, parent) matches Ok(found) && yielded_context(kind, found.content) is Some
    &&& state.batch.len() > 0
}

/// Whether handing over an input holds a recorded row against the row that
/// is handed over: the step is in turn, the operation belongs to the call
/// and records an input row, and a row is handed over.
pub open spec fn supply_compares<V>(
    parent: Opid,
    state: ReplayState<V>,
    op: Option<TraceOp<V>>,
    input: Option<DataContext<V>>,
) -> bool {
    &&& state.awaiting_input
    &&& child_op(op, parent) matches Ok(found) && found.content is YieldInto
    &&& input is Some
}

impl<V: PartialEq> ContextReplay<V> {
    /// The replay of the recorded call `parent_opid`, before its first step.
    pub fn new(kind: CallKind, parent_opid: Opid) -> (r: ContextReplay<V>)
        ensures
            r.kind == kind,
            r.parent_opid == parent_opid,
            r@ == (ReplayState::<V> {
                exhausted: false,
                awaiting_input: false,
                batch: Seq::empty(),
            }),
    {
        ContextReplay {
            kind,
            exhausted: false,
            awaiting_input: false,
            parent_opid,
            input_batch: VecDeque::new(),
        }
    }

    /// The fault that asking for the next result would meet, if it would
    /// meet one; see [`spec_poll`]. Reads nothing and changes nothing. Rows
    /// are compared by the vertex type's own equality, so where the step
    /// comes to compare rows, the answer is exact for a vertex type whose
    /// equality is its stated one.
    pub fn check_poll<'trace>(&self, reader: &TraceReaderAdapter<'trace, V>) -> (r: Result<
        (),
        ReplayError,
    >)
        ensures
            V::obeys_eq_spec() || !poll_compares(
                self.kind,
                self.parent_opid,
                self@,
                op_at(reader.ops@, reader.next_op as int),
            ) ==> match spec_poll(
                self.kind,
                self.parent_opid,
                self@,
                op_at(reader.ops@, reader.next_op as int),
            ) {
                Ok(_) => r is Ok,
                Err(e) => r == Err::<(), ReplayError>(e),
            },
    {
        if self.awaiting_input {
            return Err(ReplayError::OutOfTurn);
        }
        if self.exhausted {
            return Err(ReplayError::AlreadyExhausted);
        }
        let mut ahead = TraceReaderAdapter { ops: reader.ops, next_op: reader.next_op };
        let next_op = match crate::replay::read_child(&mut ahead, self.parent_opid) {
            Ok(op) => op,
            Err(e) => {
                return Err(e);
            },
        };
        let recorded = match (&self.kind, &next_op.content) {
            (_, TraceOpContent::AdvanceInputIterator) => {
                return Ok(());
            },
            (_, TraceOpContent::OutputIteratorExhausted) => {
                if self.input_batch.len() != 0 {
                    return Err(ReplayError::InputsLeftOver);
                }
                return Ok(());
            },
            (
                CallKind::Property,
                TraceOpContent::YieldFrom(YieldValue::ResolveProperty(context, _)),
            ) => context,
            (
                CallKind::Neighbors,
                TraceOpContent::YieldFrom(YieldValue::ResolveNeighborsOuter(context)),
            ) => context,
            (
                CallKind::Coercion,
                TraceOpContent::YieldFrom(YieldValue::ResolveCoercion(context, _)),
            ) => context,
            _ => {
                return Err(ReplayError::UnexpectedOperation);
            },
        };
        if self.input_batch.len() == 0 {
            return Err(ReplayError::OutputWithoutInput);
        }
        if !recorded.same_as(&self.input_batch[0]) {
            return Err(ReplayError::OutputMismatch);
        }
        Ok(())
    }

    /// Asks for the next result; see [`spec_poll`]. Reads one operation.
    /// The step must meet no fault; see [`ContextReplay::check_poll`].
    pub fn poll<'trace>(&mut self, reader: &mut TraceReaderAdapter<'trace, V>) -> (r: Polled<
        'trace,
        V,
    >)
        requires
            spec_poll(
                old(self).kind,
                old(self).parent_opid,
                old(self)@,
                op_at(old(reader).ops@, old(reader).next_op as int),
            ) is Ok,
        ensures
            final(self).kind == old(self).kind,
            final(self).parent_opid == old(self).parent_opid,
            final(reader).ops == old(reader).ops,
            final(reader).next_op == old(reader).next_op + 1,
            final(self)@ == spec_poll(
                old(self).kind,
                old(self).parent_opid,
                old(self)@,
                op_at(old(reader).ops@, old(reader).next_op as int),
            )->Ok_0.0,
            r@ == spec_poll(
                old(self).kind,
                old(self).parent_opid,
                old(self)@,
                op_at(old(reader).ops@, old(reader).next_op as int),
            )->Ok_0.1,
    {
        let next_op = advance_ref_iter(reader).unwrap();
        match &next_op.content {
            TraceOpContent::AdvanceInputIterator => {
                self.awaiting_input = true;
                Polled::NeedInput
            },
            TraceOpContent::OutputIteratorExhausted => {
                self.exhausted = true;
                Polled::Done
            },
            _ => {
                let input_context = self.input_batch.pop_front().unwrap();
                assert(self.input_batch@ =~= old(self).input_batch@.drop_first());
                Polled::Output(input_context, next_op)
            },
        }
    }

    /// The fault that handing over `input` would meet, if it would meet
    /// one; see [`spec_supply`]. Reads nothing and changes nothing. Where
    /// the step comes to compare rows, the answer is exact for a vertex
    /// type whose equality is its stated one.
    pub fn check_supply<'trace>(
        &self,
        reader: &TraceReaderAdapter<'trace, V>,
        input: &Option<DataContext<V>>,
    ) -> (r: Result<(), ReplayError>)
        ensures
            V::obeys_eq_spec() || !supply_compares(
                self.parent_opid,
                self@,
                op_at(reader.ops@, reader.next_op as int),
                *input,
            ) ==> match spec_supply(
                self.parent_opid,
                self@,
                op_at(reader.ops@, reader.next_op as int),
                *input,
            ) {
                Ok(_) => r is Ok,
                Err(e) => r == Err::<(), ReplayError>(e),
            },
    {
        if !self.awaiting_input {
            return Err(ReplayError::OutOfTurn);
        }
        let mut ahead = TraceReaderAdapter { ops: reader.ops, next_op: reader.next_op };
        let input_op = match crate::replay::read_child(&mut ahead, self.parent_opid) {
            Ok(op) => op,
            Err(e) => {
                return Err(e);
            },
        };
        match &input_op.content {
            TraceOpContent::YieldInto(context) => {
                match input {
                    None => Err(ReplayError::InputMissing),
                    Some(input_context) => {
                        if context.same_as(input_context) {
                            Ok(())
                        } else {
                            Err(ReplayError::InputMismatch)
                        }
                    },
                }
            },
            TraceOpContent::InputIteratorExhausted => {
                match input {
                    None => Ok(()),
                    Some(_) => Err(ReplayError::InputNotExhausted),
                }
            },
            _ => Err(ReplayError::UnexpectedOperation),
        }
    }

    /// Hands over what the input gave; see [`spec_supply`]. Reads one
    /// operation. The step must meet no fault; see
    /// [`ContextReplay::check_supply`].
    pub fn supply<'trace>(
        &mut self,
        reader: &mut TraceReaderAdapter<'trace, V>,
        input: Option<DataContext<V>>,
    )
        requires
            spec_supply(
                old(self).parent_opid,
                old(self)@,
                op_at(old(reader).ops@, old(reader).next_op as int),
                input,
            ) is Ok,
        ensures
            final(self).kind == old(self).kind,
            final(self).parent_opid == old(self).parent_opid,
            final(reader).ops == old(reader).ops,
            final(reader).next_op == old(reader).next_op + 1,
            final(self)@ == spec_supply(
                old(self).parent_opid,
                old(self)@,
                op_at(old(reader).ops@, old(reader).next_op as int),
                input,
            )->Ok_0,
    {
        let _ = advance_ref_iter(reader);
        match input {
            Some(input_context) => {
                self.input_batch.push_back(input_context);
            },
            None => {},
        }
        self.awaiting_input = false;
    }
}

/// One step of a replay, with what it met: the operation at the cursor,
/// and for a step that hands over an input, that input.
pub enum Move<V> {
    Poll(Option<TraceOp<V>>),
    Supply(Option<TraceOp<V>>, Option<DataContext<V>>),
}

/// The replay of one call from its first step on: the state after `moves`,
/// with the rows of the results given so far in their order; or the fault at
/// which the replay ended. Between two steps the cursor may have moved by
/// any distance: other parts of the trace are replayed in between.
pub open spec fn run<V: PartialEq>(kind: CallKind, parent: Opid, moves: Seq<Move<V>>) -> Result<
    (ReplayState<V>, Seq<DataContext<V>>),
    ReplayError,
>
    decreases moves.len(),
{
    if moves.len() == 0 {
        Ok(
            (
                ReplayState { exhausted: false, awaiting_input: false, batch: Seq::empty() },
                Seq::empty(),
            ),
        )
    } else {
        match run(kind, parent, moves.drop_last()) {
            Err(e) => Err(e),
            Ok((state, outputs)) => match moves.last() {
                Move::Poll(op) => match spec_poll(kind, parent, state, op) {
                    Err(e) => Err(e),
                    Ok((next, polled)) => Ok(
                        (
                            next,
                            match polled {
                                PolledView::Output(context, _) => outputs.push(context),
                                _ => outputs,
                            },
                        ),
                    ),
                },
                Move::Supply(op, input) => match spec_supply(parent, state, op, input) {
                    Err(e) => Err(e),
                    Ok(next) => Ok((next, outputs)),
                },
            },
        }
    }
}

/// The rows that were handed over in `moves`, in their order.
pub open spec fn supplied<V>(moves: Seq<Move<V>>) -> Seq<DataContext<V>>
    decreases moves.len(),
{
    if moves.len() == 0 {
        Seq::empty()
    } else {
        let before = supplied(moves.drop_last());
        match moves.last() {
            Move::Supply(_, Some(context)) => before.push(context),
            _ => before,
        }
    }
}

/// How often `moves` asked the input for a row, whether it had one or not.
pub open spec fn pulls<V>(moves: Seq<Move<V>>) -> nat
    decreases moves.len(),
{
    if moves.len() == 0 {
        0
    } else {
        let before = pulls(moves.drop_last());
        match moves.last() {
            Move::Supply(_, _) => before + 1,
            _ => before,
        }
    }
}

/// How many of the operations that `moves` met when asking for a result
/// record that the adapter asked its input for a row.
pub open spec fn recorded_pulls<V>(moves: Seq<Move<V>>) -> nat
    decreases moves.len(),
{
    if moves.len() == 0 {
        0
    } else {
        let before = recorded_pulls(moves.drop_last());
        match moves.last() {
            Move::Poll(Some(op)) => if op.content is AdvanceInputIterator {
                before + 1
            } else {
                before
            },
            _ => before,
        }
    }
}

/// Rows come out as they went in: in a replay that met no fault, the rows of
/// the results, followed by the rows still waiting, are the rows handed over,
/// each the very row that was put in, in the same order. So every result
/// belongs to a row of its own, no row is passed by another, and once the
/// results have ended there are as many of them as rows were put in.
pub proof fn rows_pair_up<V: PartialEq>(kind: CallKind, parent: Opid, moves: Seq<Move<V>>)
    ensures
        run(kind, parent, moves) matches Ok((state, outputs)) ==> {
            &&& outputs + state.batch == supplied(moves)
            &&& state.exhausted ==> outputs == supplied(moves)
        },
    decreases moves.len(),
{
    if moves.len() > 0 {
        rows_pair_up(kind, parent, moves.drop_last());
        if let Ok((state, outputs)) = run(kind, parent, moves) {
            let (before, given) = run(kind, parent, moves.drop_last())->Ok_0;
            assert(given + before.batch == supplied(moves.drop_last()));
            match moves.last() {
                Move::Poll(op) => {
                    let (next, polled) = spec_poll(kind, parent, before, op)->Ok_0;
                    match polled {
                        PolledView::Output(context, _) => {
                            assert(given.push(context) + before.batch.drop_first() =~= given
                                + before.batch);
                        },
                        _ => {},
                    }
                },
                Move::Supply(op, input) => {
                    match input {
                        Some(context) => {
                            assert(given + before.batch.push(context) =~= (given
                                + before.batch).push(context));
                        },
                        None => {},
                    }
                },
            }
            if state.exhausted {
                assert(state.batch.len() == 0) by {
                    lemma_exhausted_leaves_none(kind, parent, moves);
                }
                assert(outputs + state.batch =~= outputs);
            }
        }
    } else {
        assert(Seq::<DataContext<V>>::empty() + Seq::<DataContext<V>>::empty() =~= Seq::<
            DataContext<V>,
        >::empty());
    }
}

/// Once the results have ended, no row is waiting, and none ever joins.
pub proof fn lemma_exhausted_leaves_none<V: PartialEq>(
    kind: CallKind,
    parent: Opid,
    moves: Seq<Move<V>>,
)
    ensures
        run(kind, parent, moves) matches Ok((state, _)) ==> (state.exhausted ==> state.batch.len()
            == 0 && !state.awaiting_input),
    decreases moves.len(),
{
    if moves.len() > 0 {
        lemma_exhausted_leaves_none(kind, parent, moves.drop_last());
    }
}

/// The replay asks its input as often as the adapter did: in a replay that
/// met no fault, the input was asked once for each recorded request that the
/// replay met, but for one request that may still be waiting for its answer.
pub proof fn pulls_match_trace<V: PartialEq>(kind: CallKind, parent: Opid, moves: Seq<Move<V>>)
    ensures
        run(kind, parent, moves) matches Ok((state, _)) ==> recorded_pulls(moves) == pulls(moves)
            + if state.awaiting_input {
            1nat
        } else {
            0nat
        },
    decreases moves.len(),
{
    if moves.len() > 0 {
        pulls_match_trace(kind, parent, moves.drop_last());
    }
}

/// A row comes back unchanged: in a replay that met no fault, the row of the
/// `i`-th result is the `i`-th row that was handed over, the very same row.
pub proof fn rows_come_back_unchanged<V: PartialEq>(
    kind: CallKind,
    parent: Opid,
    moves: Seq<Move<V>>,
    i: int,
)
    requires
        run(kind, parent, moves) is Ok,
        0 <= i < run(kind, parent, moves)->Ok_0.1.len(),
    ensures
        i < supplied(moves).len(),
        run(kind, parent, moves)->Ok_0.1[i] == supplied(moves)[i],
{
    rows_pair_up(kind, parent, moves);
    let (state, outputs) = run(kind, parent, moves)->Ok_0;
    assert((outputs + state.batch)[i] == outputs[i]);
}

} // verus!
