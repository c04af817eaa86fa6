//! Replays a recorded trace in the adapter's place: each operation that the
//! adapter performed is read back from the trace, and whatever the
//! interpreter hands over is held against what the trace recorded.
//!
//! The replay is a step machine. Every step reads one operation at the
//! reader's cursor, and either asks for the next input row or hands out a
//! result. A trace is taken to agree with itself and with the run: a step
//! may only be taken where it meets no fault, and each step has a check
//! beside it that reads nothing and names the fault that the step would
//! meet. Where a check names a fault, the replay cannot go on.
use crate::trace::{Opid, TraceOp, TraceOpContent, YieldValue};
use vstd::prelude::*;

verus! {

/// Why a replay cannot go on.
#[derive(Clone, Copy, Debug, PartialEq, Eq, Structural)]
pub enum ReplayError {
    /// The trace has no operation left where one is due.
    TraceEnded,
    /// A call was due, and the operation has a parent.
    UnexpectedParent,
    /// An operation within a call was due, and the operation has no parent.
    MissingParent,
    /// The operation belongs to another call or row.
    ParentMismatch,
    /// The operation is of a kind that cannot stand here.
    UnexpectedOperation,
    /// The recorded call is not the call that the interpreter makes.
    CallMismatch,
    /// A stream was asked again after it had ended.
    AlreadyExhausted,
    /// A step was taken out of turn: an input was handed over that was not
    /// asked for, or a result was asked for while an input was awaited.
    OutOfTurn,
    /// The trace recorded an input row, and the input has none.
    InputMissing,
    /// The input row is not the recorded one.
    InputMismatch,
    /// The trace recorded the end of the input, and the input has a row.
    InputNotExhausted,
    /// The trace recorded a result for a row that was never put in.
    OutputWithoutInput,
    /// The recorded result belongs to another row than the one next in line.
    OutputMismatch,
    /// The trace recorded the end of the results while rows were waiting.
    InputsLeftOver,
    /// The neighbors of a row are not numbered from zero without gaps.
    NeighborIndexMismatch,
    /// The trace recorded another row of results than the expected one.
    InconsistentTrace,
    /// The interpreter produced another row than the expected one, or none,
    /// or one too many.
    ResultMismatch,
}

/// Reads a trace front to back. The cursor is shared by everything that
/// replays a part of the trace: whoever is asked next reads the next
/// operation.
#[derive(Debug)]
pub struct TraceReaderAdapter<'trace, V> {
    pub ops: &'trace Vec<TraceOp<V>>,
    /// The position of the next operation to read.
    pub next_op: usize,
}

/// The operation at position `at`, if the trace reaches that far.
pub open spec fn op_at<V>(ops: Seq<TraceOp<V>>, at: int) -> Option<TraceOp<V>> {
    if 0 <= at < ops.len() {
        Some(ops[at])
    } else {
        None
    }
}

/// The position of the cursor after reading at `at`: one further, unless
/// the trace had ended.
pub open spec fn after_read<V>(ops: Seq<TraceOp<V>>, at: int) -> int {
    if 0 <= at < ops.len() {
        at + 1
    } else {
        at
    }
}

/// The operation read as a part of the call or row `parent`.
pub open spec fn child_op<V>(op: Option<TraceOp<V>>, parent: Opid) -> Result<
    TraceOp<V>,
    ReplayError,
> {
    match op {
        None => Err(ReplayError::TraceEnded),
        Some(found) => match found.parent_opid {
            None => Err(ReplayError::MissingParent),
            Some(p) => if p == parent {
                Ok(found)
            } else {
                Err(ReplayError::ParentMismatch)
            },
        },
    }
}

/// Reads the next operation of the trace, if one is left.
pub fn advance_ref_iter<'trace, V>(iter: &mut TraceReaderAdapter<'trace, V>) -> (r: Option<
    &'trace TraceOp<V>,
>)
    ensures
        final(iter).ops == old(iter).ops,
        final(iter).next_op == after_read(old(iter).ops@, old(iter).next_op as int),
        match op_at(old(iter).ops@, old(iter).next_op as int) {
            Some(op) => r == Some(&op),
            None => r is None,
        },
{
    if iter.next_op < iter.ops.len() {
        let op = &iter.ops[iter.next_op];
        iter.next_op = iter.next_op + 1;
        Some(op)
    } else {
        None
    }
}

/// Reads the next operation as a part of the call or row `parent`.
pub(crate) fn read_child<'trace, V>(
    reader: &mut TraceReaderAdapter<'trace, V>,
    parent: Opid,
) -> (r: Result<&'trace TraceOp<V>, ReplayError>)
    ensures
        final(reader).ops == old(reader).ops,
        final(reader).next_op == after_read(old(reader).ops@, old(reader).next_op as int),
        match child_op(op_at(old(reader).ops@, old(reader).next_op as int), parent) {
            Ok(op) => r == Ok::<&TraceOp<V>, ReplayError>(&op),
            Err(e) => r == Err::<&TraceOp<V>, ReplayError>(e),
        },
{
    match advance_ref_iter(reader) {
        None => Err(ReplayError::TraceEnded),
        Some(op) => match op.parent_opid {
            None => Err(ReplayError::MissingParent),
            Some(p) => if p.0 == parent.0 {
                Ok(op)
            } else {
                Err(ReplayError::ParentMismatch)
            },
        },
    }
}

/// Replays the stream of starting vertices of one recorded call.
#[derive(Debug, PartialEq, Eq, Structural)]
pub struct TraceReaderStartingVerticesIter {
    pub exhausted: bool,
    pub parent_opid: Opid,
}

impl TraceReaderStartingVerticesIter {
    /// What the stream gives when `op` is the operation at the cursor: the
    /// recorded vertex, or `None` at the recorded end of the stream.
    pub open spec fn outcome<V>(self, op: Option<TraceOp<V>>) -> Result<Option<V>, ReplayError> {
        if self.exhausted {
            Err(ReplayError::AlreadyExhausted)
        } else {
            match child_op(op, self.parent_opid) {
                Err(e) => Err(e),
                Ok(found) => match found.content {
                    TraceOpContent::OutputIteratorExhausted => Ok(None),
                    TraceOpContent::YieldFrom(YieldValue::ResolveStartingVertices(vertex)) => Ok(
                        Some(vertex),
                    ),
                    _ => Err(ReplayError::UnexpectedOperation),
                },
            }
        }
    }

    /// The fault that the next step would meet, if it would meet one. Reads
    /// nothing.
    pub fn check_next<'trace, V>(&self, reader: &TraceReaderAdapter<'trace, V>) -> (r: Result<
        (),
        ReplayError,
    >)
        ensures
            match self.outcome(op_at(reader.ops@, reader.next_op as int)) {
                Ok(_) => r is Ok,
                Err(e) => r == Err::<(), ReplayError>(e),
            },
    {
        let mut state = TraceReaderStartingVerticesIter {
            exhausted: self.exhausted,
            parent_opid: self.parent_opid,
        };
        let mut ahead = TraceReaderAdapter { ops: reader.ops, next_op: reader.next_op };
        match state.step(&mut ahead) {
            Ok(_) => Ok(()),
            Err(e) => Err(e),
        }
    }

    /// The next starting vertex, as the trace recorded it: the vertex of the
    /// operation at the cursor, or `None` at the recorded end of the
    /// stream. The operation must belong to this stream and be one of the
    /// two; see [`TraceReaderStartingVerticesIter::check_next`].
    pub fn next<'trace, V>(&mut self, reader: &mut TraceReaderAdapter<'trace, V>) -> (r: Option<
        &'trace V,
    >)
        requires
            old(self).outcome(op_at(old(reader).ops@, old(reader).next_op as int)) is Ok,
        ensures
            match old(self).outcome(op_at(old(reader).ops@, old(reader).next_op as int))->Ok_0 {
                Some(vertex) => r == Some(&vertex),
                None => r is None,
            },
            final(self).parent_opid == old(self).parent_opid,
            final(self).exhausted == (r is None),
            final(reader).ops == old(reader).ops,
            final(reader).next_op == old(reader).next_op + 1,
    {
        self.step(reader).unwrap()
    }

    /// One step, or the fault it meets.
    fn step<'trace, V>(&mut self, reader: &mut TraceReaderAdapter<'trace, V>) -> (r: Result<
        Option<&'trace V>,
        ReplayError,
    >)
        ensures
            match old(self).outcome(op_at(old(reader).ops@, old(reader).next_op as int)) {
                Ok(Some(vertex)) => r == Ok::<Option<&V>, ReplayError>(Some(&vertex)),
                Ok(None) => r == Ok::<Option<&V>, ReplayError>(None),
                Err(e) => r == Err::<Option<&V>, ReplayError>(e),
            },
            final(self).parent_opid == old(self).parent_opid,
            final(self).exhausted == (old(self).exhausted || r == Ok::<Option<&V>, ReplayError>(
                None,
            )),
            final(reader).ops == old(reader).ops,
            final(reader).next_op == if old(self).exhausted {
                old(reader).next_op as int
            } else {
                after_read(old(reader).ops@, old(reader).next_op as int)
            },
    {
        if self.exhausted {
            return Err(ReplayError::AlreadyExhausted);
        }
        let trace_op = match read_child(reader, self.parent_opid) {
            Ok(op) => op,
            Err(e) => {
                return Err(e);
            },
        };
        match &trace_op.content {
            TraceOpContent::OutputIteratorExhausted => {
                self.exhausted = true;
                Ok(None)
            },
            TraceOpContent::YieldFrom(YieldValue::ResolveStartingVertices(vertex)) => Ok(
                Some(vertex),
            ),
            _ => Err(ReplayError::UnexpectedOperation),
        }
    }
}

/// Replays the neighbors of one row of one recorded call.
#[derive(Debug, PartialEq, Eq, Structural)]
pub struct TraceReaderNeighborIter {
    pub exhausted: bool,
    /// The operation that announced the row.
    pub parent_iterator_opid: Opid,
    /// The number that the next neighbor must have.
    pub next_index: usize,
}

impl TraceReaderNeighborIter {
    /// What the stream gives when `op` is the operation at the cursor: the
    /// recorded neighbor, if it has the number that is due, or `None` at
    /// the recorded end of the stream.
    pub open spec fn outcome<V>(self, op: Option<TraceOp<V>>) -> Result<Option<V>, ReplayError> {
        match child_op(op, self.parent_iterator_opid) {
            Err(e) => if e == ReplayError::TraceEnded || !self.exhausted {
                Err(e)
            } else {
                Err(ReplayError::AlreadyExhausted)
            },
            Ok(found) => if self.exhausted {
                Err(ReplayError::AlreadyExhausted)
            } else {
                match found.content {
                    TraceOpContent::OutputIteratorExhausted => Ok(None),
                    TraceOpContent::YieldFrom(YieldValue::ResolveNeighborsInner(index, vertex)) =>
                        if index == self.next_index {
                        Ok(Some(vertex))
                    } else {
                        Err(ReplayError::NeighborIndexMismatch)
                    },
                    _ => Err(ReplayError::UnexpectedOperation),
                }
            },
        }
    }

    /// The fault that the next step would meet, if it would meet one. Reads
    /// nothing.
    pub fn check_next<'trace, V>(&self, reader: &TraceReaderAdapter<'trace, V>) -> (r: Result<
        (),
        ReplayError,
    >)
        requires
            self.next_index < usize::MAX,
        ensures
            match self.outcome(op_at(reader.ops@, reader.next_op as int)) {
                Ok(_) => r is Ok,
                Err(e) => r == Err::<(), ReplayError>(e),
            },
    {
        let mut state = TraceReaderNeighborIter {
            exhausted: self.exhausted,
            parent_iterator_opid: self.parent_iterator_opid,
            next_index: self.next_index,
        };
        let mut ahead = TraceReaderAdapter { ops: reader.ops, next_op: reader.next_op };
        match state.step(&mut ahead) {
            Ok(_) => Ok(()),
            Err(e) => Err(e),
        }
    }

    /// The next neighbor of the row, as the trace recorded it: the vertex
    /// of the operation at the cursor, which carries the number that is
    /// due, or `None` at the recorded end of the stream. The operation must
    /// belong to this row and be one of the two, and a neighbor must carry
    /// the number that is due; see [`TraceReaderNeighborIter::check_next`].
    pub fn next<'trace, V>(&mut self, reader: &mut TraceReaderAdapter<'trace, V>) -> (r: Option<
        &'trace V,
    >)
        requires
            old(self).next_index < usize::MAX,
            old(self).outcome(op_at(old(reader).ops@, old(reader).next_op as int)) is Ok,
        ensures
            match old(self).outcome(op_at(old(reader).ops@, old(reader).next_op as int))->Ok_0 {
                Some(vertex) => r == Some(&vertex),
                None => r is None,
            },
            final(self).parent_iterator_opid == old(self).parent_iterator_opid,
            final(self).exhausted == (r is None),
            final(self).next_index == if r is Some {
                old(self).next_index + 1
            } else {
                old(self).next_index as int
            },
            final(reader).ops == old(reader).ops,
            final(reader).next_op == old(reader).next_op + 1,
    {
        self.step(reader).unwrap()
    }

    /// One step, or the fault it meets.
    fn step<'trace, V>(&mut self, reader: &mut TraceReaderAdapter<'trace, V>) -> (r: Result<
        Option<&'trace V>,
        ReplayError,
    >)
        requires
            old(self).next_index < usize::MAX,
        ensures
            match old(self).outcome(op_at(old(reader).ops@, old(reader).next_op as int)) {
                Ok(Some(vertex)) => r == Ok::<Option<&V>, ReplayError>(Some(&vertex)),
                Ok(None) => r == Ok::<Option<&V>, ReplayError>(None),
                Err(e) => r == Err::<Option<&V>, ReplayError>(e),
            },
            final(self).parent_iterator_opid == old(self).parent_iterator_opid,
            final(self).exhausted == (old(self).exhausted || r == Ok::<Option<&V>, ReplayError>(
                None,
            )),
            final(self).next_index == if r matches Ok(Some(_)) {
                old(self).next_index + 1
            } else {
                old(self).next_index as int
            },
            final(reader).ops == old(reader).ops,
            final(reader).next_op == after_read(old(reader).ops@, old(reader).next_op as int),
    {
        let trace_op = match advance_ref_iter(reader) {
            Some(op) => op,
            None => {
                return Err(ReplayError::TraceEnded);
            },
        };
        if self.exhausted {
            return Err(ReplayError::AlreadyExhausted);
        }
        match trace_op.parent_opid {
            None => {
                return Err(ReplayError::MissingParent);
            },
            Some(p) => {
                if p.0 != self.parent_iterator_opid.0 {
                    return Err(ReplayError::ParentMismatch);
                }
            },
        }
        match &trace_op.content {
            TraceOpContent::OutputIteratorExhausted => {
                self.exhausted = true;
                Ok(None)
            },
            TraceOpContent::YieldFrom(YieldValue::ResolveNeighborsInner(index, vertex)) => {
                if self.next_index != *index {
                    return Err(ReplayError::NeighborIndexMismatch);
                }
                self.next_index = self.next_index + 1;
                Ok(Some(vertex))
            },
            _ => Err(ReplayError::UnexpectedOperation),
        }
    }
}

} // verus!
