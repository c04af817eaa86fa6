//! What a filter against a tag says of a field: nothing before the query
//! runs, and for each row the tagged value once that row has it.
use crate::candidates::{CandidateValue, CandidateValueView};
use crate::context::DataContext;
use crate::hints::QueryInfo;
use crate::ir::{ContextField, IRQueryComponent, Vid};
use crate::value::{lemma_list_view, FieldValue, FieldValueView};
use std::sync::Arc;
use vstd::prelude::*;

verus! {

/// A hint that waits for the value of a tag.
#[derive(Debug)]
pub struct DynamicallyResolvedValue {
    pub query: QueryInfo,
    /// The vertex whose filter uses the tag.
    pub vid: Vid,
    /// The component in which the tagged field is looked up.
    pub resolve_on_component: Arc<IRQueryComponent>,
    /// The tagged field.
    pub context_field: ContextField,
    /// Whether the filter asks for membership in the tagged value.
    pub is_multiple: bool,
}

/// Whether the vertex `vid` of a row stands for an optional scope that had
/// no match: it is bound, and bound to nothing.
pub open spec fn scope_is_absent<V: PartialEq>(context: DataContext<V>, vid: Vid) -> bool {
    context.binding_position(vid) matches Some(i) && context.vertices[i].1 is None
}

impl DynamicallyResolvedValue {
    /// The values that the filter leaves once the tag has the value `value`
    /// in the row `context`.
    ///
    /// A tag of an optional scope that had no match leaves every value: a
    /// filter on such a tag always passes. A null of a scope that was there
    /// leaves null alone to an equality, and nothing to a membership. Any
    /// other value is left alone by an equality, and a list leaves its items
    /// to a membership.
    pub open spec fn candidate_for<V: PartialEq>(
        self,
        context: DataContext<V>,
        value: FieldValueView,
    ) -> CandidateValueView {
        match value {
            FieldValueView::Null => if scope_is_absent(context, self.context_field.vertex_id) {
                CandidateValueView::All
            } else if self.is_multiple {
                CandidateValueView::Impossible
            } else {
                CandidateValueView::Single(FieldValueView::Null)
            },
            FieldValueView::List(items) => if self.is_multiple {
                CandidateValueView::Multiple(items)
            } else {
                CandidateValueView::Single(value)
            },
            _ => CandidateValueView::Single(value),
        }
    }

    /// Whether `value` can be the tag's value in the row `context`: a
    /// membership needs a list or null, and a null needs the tagged vertex
    /// to be bound in the row, to something or to nothing.
    pub open spec fn fits<V: PartialEq>(
        self,
        context: DataContext<V>,
        value: FieldValueView,
    ) -> bool {
        &&& self.is_multiple ==> value is List || value is Null
        &&& value is Null ==> context.binding_position(self.context_field.vertex_id) is Some
    }

    /// The values that the filter leaves in one row; see
    /// [`DynamicallyResolvedValue::candidate_for`].
    pub fn candidate<V: PartialEq>(&self, context: &DataContext<V>, value: FieldValue) -> (r:
        CandidateValue)
        requires
            self.fits(*context, value@),
        ensures
            r@ == self.candidate_for(*context, value@),
    {
        match value {
            FieldValue::Null => {
                let absent = match context.binding(self.context_field.vertex_id) {
                    Some(bound) => bound.is_none(),
                    None => false,
                };
                if absent {
                    CandidateValue::All
                } else if self.is_multiple {
                    CandidateValue::Impossible
                } else {
                    CandidateValue::Single(FieldValue::Null)
                }
            },
            FieldValue::List(items) => {
                proof {
                    lemma_list_view(items);
                }
                if self.is_multiple {
                    CandidateValue::Multiple(items)
                } else {
                    CandidateValue::Single(FieldValue::List(items))
                }
            },
            other => CandidateValue::Single(other),
        }
    }

    /// Turns the tag's value in each row into the values that the filter
    /// leaves in that row. The rows come with the values that the tagged
    /// field was resolved to, and go out in the same order, each unchanged.
    pub fn resolve<V: PartialEq>(self, resolved: Vec<(DataContext<V>, FieldValue)>) -> (r: Vec<
        (DataContext<V>, CandidateValue),
    >)
        requires
            forall|i: int|
                0 <= i < resolved.len() ==> self.fits(
                    (#[trigger] resolved[i]).0,
                    resolved[i].1@,
                ),
        ensures
            r.len() == resolved.len(),
            forall|i: int|
                0 <= i < r.len() ==> (#[trigger] r[i]).0 == resolved[i].0 && r[i].1@
                    == self.candidate_for(resolved[i].0, resolved[i].1@),
    {
        let mut out: Vec<(DataContext<V>, CandidateValue)> = Vec::new();
        for pair in it: resolved
            invariant
                it.seq() == resolved@,
                out.len() == it.index(),
                forall|i: int|
                    0 <= i < resolved.len() ==> self.fits(
                        (#[trigger] resolved[i]).0,
                        resolved[i].1@,
                    ),
                forall|i: int|
                    0 <= i < out.len() ==> (#[trigger] out[i]).0 == resolved[i].0 && out[i].1@
                        == self.candidate_for(resolved[i].0, resolved[i].1@),
        {
            assert(pair == resolved[it.index() as int]);
            let (context, value) = pair;
            let candidate = self.candidate(&context, value);
            out.push((context, candidate));
        }
        out
    }
}

/// A filter on a tag of an optional scope that had no match passes for
/// every value: the hint for such a row leaves every value to the field.
pub proof fn absent_scope_leaves_every_value<V: PartialEq>(
    hint: DynamicallyResolvedValue,
    context: DataContext<V>,
    x: FieldValueView,
)
    requires
        scope_is_absent(context, hint.context_field.vertex_id),
    ensures
        hint.candidate_for(context, FieldValueView::Null).contains(x),
{
}

} // verus!
