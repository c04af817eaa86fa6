//! Run-time checks of what the hints take for granted of a query, for
//! callers that got the query from elsewhere.
use crate::context::{folded_keys, DataContext};
use crate::dynamic_hints::DynamicallyResolvedValue;
use crate::hints::{LocalQueryInfo, NeighboringQueryInfo, QueryInfo};
use crate::ir::{
    distinct_keys, first_key, lemma_first_key, lemma_no_key, Argument, Arguments, Eid,
    IRQueryComponent, IndexedQuery, Operation,
};
use crate::static_hints::{argument, argument_names, concerns_field, serves, serves_all};
use crate::value::{FieldValue, FieldValueView};
use vstd::prelude::*;

verus! {

/// Whether no name stands twice in a table of named values: the arguments
/// of a query, or a row of results.
pub fn arguments_are_distinct(arguments: &Arguments) -> (r: bool)
    ensures
        r == distinct_keys(argument_names(arguments@)),
{
    let mut i: usize = 0;
    while i < arguments.len()
        invariant
            i <= arguments.len(),
            forall|a: int, b: int|
                #![trigger argument_names(arguments@)[a], argument_names(arguments@)[b]]
                0 <= a < b < i ==> argument_names(arguments@)[a] != argument_names(
                    arguments@,
                )[b],
        decreases arguments.len() - i,
    {
        let mut j: usize = 0;
        while j < i
            invariant
                j <= i,
                i < arguments.len(),
                forall|a: int|
                    0 <= a < j ==> #[trigger] argument_names(arguments@)[a] != argument_names(
                        arguments@,
                    )[i as int],
            decreases i - j,
        {
            if arguments[j].0 == arguments[i].0 {
                assert(argument_names(arguments@)[j as int] == argument_names(
                    arguments@,
                )[i as int]);
                return false;
            }
            j += 1;
        }
        i += 1;
    }
    true
}

impl IndexedQuery {
    /// Whether no vertex is listed twice.
    fn lists_vertices_once(&self) -> (r: bool)
        ensures
            r == distinct_keys(self.vid_keys()),
    {
        let mut i: usize = 0;
        while i < self.vids.len()
            invariant
                i <= self.vids.len(),
                forall|a: int, b: int|
                    #![trigger self.vid_keys()[a], self.vid_keys()[b]]
                    0 <= a < b < i ==> self.vid_keys()[a] != self.vid_keys()[b],
            decreases self.vids.len() - i,
        {
            let mut j: usize = 0;
            while j < i
                invariant
                    j <= i,
                    i < self.vids.len(),
                    forall|a: int|
                        0 <= a < j ==> #[trigger] self.vid_keys()[a] != self.vid_keys()[i as int],
                decreases i - j,
            {
                if self.vids[j].0.0 == self.vids[i].0.0 {
                    assert(self.vid_keys()[j as int] == self.vid_keys()[i as int]);
                    return false;
                }
                j += 1;
            }
            i += 1;
        }
        true
    }

    /// Whether no edge is listed twice.
    fn lists_edges_once(&self) -> (r: bool)
        ensures
            r == distinct_keys(self.eid_keys()),
    {
        let mut i: usize = 0;
        while i < self.eids.len()
            invariant
                i <= self.eids.len(),
                forall|a: int, b: int|
                    #![trigger self.eid_keys()[a], self.eid_keys()[b]]
                    0 <= a < b < i ==> self.eid_keys()[a] != self.eid_keys()[b],
            decreases self.eids.len() - i,
        {
            let mut j: usize = 0;
            while j < i
                invariant
                    j <= i,
                    i < self.eids.len(),
                    forall|a: int|
                        0 <= a < j ==> #[trigger] self.eid_keys()[a] != self.eid_keys()[i as int],
                decreases i - j,
            {
                if self.eids[j].0.0 == self.eids[i].0.0 {
                    assert(self.eid_keys()[j as int] == self.eid_keys()[i as int]);
                    return false;
                }
                j += 1;
            }
            i += 1;
        }
        true
    }

    /// Whether the tables are those of a mapping; see
    /// [`IndexedQuery::ordered`].
    pub fn is_ordered(&self) -> (r: bool)
        ensures
            r == self.ordered(),
    {
        if !self.lists_vertices_once() || !self.lists_edges_once() {
            return false;
        }
        let mut i: usize = 0;
        while i < self.vids.len()
            invariant
                i <= self.vids.len(),
                forall|k: int| 0 <= k < i ==> (#[trigger] self.vids[k]).1.well_formed(),
            decreases self.vids.len() - i,
        {
            if !self.vids[i].1.is_well_formed() {
                return false;
            }
            i += 1;
        }
        true
    }

    /// Whether every edge and every fold of a component leads to a vertex
    /// of the query.
    pub open spec fn component_leads_within(&self, component: IRQueryComponent) -> bool {
        &&& forall|j: int|
            0 <= j < component.edges.len() ==> self.has_vertex(
                (#[trigger] component.edges[j]).to_vid,
            )
        &&& forall|j: int|
            0 <= j < component.folds.len() ==> self.has_vertex(
                (#[trigger] component.folds[j]).to_vid,
            )
    }

    fn leads_within(&self, component: &IRQueryComponent) -> (r: bool)
        ensures
            r == self.component_leads_within(*component),
    {
        let mut j: usize = 0;
        while j < component.edges.len()
            invariant
                j <= component.edges.len(),
                forall|k: int|
                    0 <= k < j ==> self.has_vertex((#[trigger] component.edges[k]).to_vid),
            decreases component.edges.len() - j,
        {
            if !self.holds_vertex(component.edges[j].to_vid) {
                return false;
            }
            j += 1;
        }
        let mut j: usize = 0;
        while j < component.folds.len()
            invariant
                j <= component.folds.len(),
                forall|k: int|
                    0 <= k < component.edges.len() ==> self.has_vertex(
                        (#[trigger] component.edges[k]).to_vid,
                    ),
                forall|k: int|
                    0 <= k < j ==> self.has_vertex((#[trigger] component.folds[k]).to_vid),
            decreases component.folds.len() - j,
        {
            if !self.holds_vertex(component.folds[j].to_vid) {
                return false;
            }
            j += 1;
        }
        true
    }

    /// Whether the tables hold what they promise; see
    /// [`IndexedQuery::well_formed`].
    pub fn is_well_formed(&self) -> (r: bool)
        ensures
            r == self.well_formed(),
    {
        if !self.is_ordered() {
            return false;
        }
        let mut i: usize = 0;
        while i < self.vids.len()
            invariant
                i <= self.vids.len(),
                self.ordered(),
                forall|k: int|
                    0 <= k < i ==> (#[trigger] self.vids[k]).1.vertex_position(self.vids[k].0)
                        is Some,
                forall|k: int|
                    0 <= k < i ==> self.component_leads_within(*(#[trigger] self.vids[k]).1),
            decreases self.vids.len() - i,
        {
            if self.vids[i].1.vertex(self.vids[i].0).is_none() {
                return false;
            }
            if !self.leads_within(&self.vids[i].1) {
                assert(!self.component_leads_within(*self.vids[i as int].1));
                return false;
            }
            i += 1;
        }
        let mut i: usize = 0;
        while i < self.eids.len()
            invariant
                i <= self.eids.len(),
                self.ordered(),
                forall|k: int|
                    0 <= k < self.vids.len() ==> (#[trigger] self.vids[k]).1.vertex_position(
                        self.vids[k].0,
                    ) is Some,
                forall|k: int|
                    0 <= k < self.vids.len() ==> self.component_leads_within(
                        *(#[trigger] self.vids[k]).1,
                    ),
                forall|k: int|
                    0 <= k < i ==> self.has_vertex((#[trigger] self.eids[k]).1.spec_to_vid()),
            decreases self.eids.len() - i,
        {
            if !self.holds_vertex(self.eids[i].1.to_vid()) {
                return false;
            }
            i += 1;
        }
        assert forall|a: int, b: int|
            0 <= a < self.vids.len() && 0 <= b < self.vids[a].1.edges.len() implies self.has_vertex(
            (#[trigger] self.vids[a].1.edges[b]).to_vid,
        ) by {
            assert(self.component_leads_within(*self.vids[a].1));
        }
        assert forall|a: int, b: int|
            0 <= a < self.vids.len() && 0 <= b < self.vids[a].1.folds.len() implies self.has_vertex(
            (#[trigger] self.vids[a].1.folds[b]).to_vid,
        ) by {
            assert(self.component_leads_within(*self.vids[a].1));
        }
        true
    }
}

impl QueryInfo {
    /// Whether the place is one of the query; see [`QueryInfo::well_formed`].
    pub fn is_well_formed(&self) -> (r: bool)
        ensures
            r == self.well_formed(),
    {
        if !self.query.indexed_query.is_well_formed() {
            return false;
        }
        if !arguments_are_distinct(&self.query.arguments) {
            return false;
        }
        if !self.query.indexed_query.holds_vertex(self.current_vertex) {
            return false;
        }
        match self.crossing_eid {
            Some(eid) => self.query.indexed_query.edge(eid).is_some(),
            None => true,
        }
    }
}

impl LocalQueryInfo {
    /// Whether the view is one of the query; see
    /// [`LocalQueryInfo::well_formed`].
    pub fn is_well_formed(&self) -> (r: bool)
        ensures
            r == self.well_formed(),
    {
        self.query.is_well_formed() && self.query.query.indexed_query.holds_vertex(
            self.current_vertex,
        )
    }
}

impl NeighboringQueryInfo {
    /// Whether the view is one of the query; see
    /// [`NeighboringQueryInfo::well_formed`].
    pub fn is_well_formed(&self) -> (r: bool)
        ensures
            r == self.well_formed(),
    {
        self.query.is_well_formed() && self.query.query.indexed_query.holds_vertex(
            self.starting_vertex,
        ) && self.query.query.indexed_query.holds_vertex(self.neighbor_vertex)
    }
}

/// Whether the arguments serve every filter of a list that stands on the
/// field `field_name`; see [`serves_all`].
pub fn arguments_serve(arguments: &Arguments, filters: &Vec<Operation>, field_name: &str) -> (r:
    bool)
    ensures
        r == serves_all(arguments@, filters@, field_name@),
{
    let name = field_name.to_owned();
    let mut i: usize = 0;
    while i < filters.len()
        invariant
            i <= filters.len(),
            name@ == field_name@,
            forall|k: int| 0 <= k < i ==> serves(arguments@, #[trigger] filters[k], field_name@),
        decreases filters.len() - i,
    {
        let served = !concerns_field(&filters[i], &name) || match &filters[i] {
            Operation::Equals(_, Argument::Variable(var)) => argument(
                arguments,
                &var.variable_name,
            ).is_some(),
            Operation::OneOf(_, Argument::Variable(var)) => match argument(
                arguments,
                &var.variable_name,
            ) {
                Some(FieldValue::List(_)) => true,
                _ => false,
            },
            _ => true,
        };
        if !served {
            assert(!serves(arguments@, filters[i as int], field_name@));
            return false;
        }
        i += 1;
    }
    true
}

impl DynamicallyResolvedValue {
    /// Whether `value` can be the tag's value in the row `context`; see
    /// [`DynamicallyResolvedValue::fits`].
    pub fn accepts<V: PartialEq>(&self, context: &DataContext<V>, value: &FieldValue) -> (r: bool)
        ensures
            r == self.fits(*context, value@),
    {
        match value {
            FieldValue::Null => context.binding(self.context_field.vertex_id).is_some(),
            FieldValue::List(_) => true,
            _ => !self.is_multiple,
        }
    }
}

impl<V: PartialEq> DataContext<V> {
    /// The folds whose rows the row holds, in order.
    pub open spec fn fold_keys(&self) -> Seq<Eid> {
        folded_keys(self.folded_contexts@)
    }

    /// Whether an output of a fold has one value for each row of the fold:
    /// the rows of the fold are there, and the output is a list as long as
    /// the rows are many.
    pub open spec fn fold_output_agrees(&self, eid: Eid, value: FieldValueView) -> bool {
        match first_key(self.fold_keys(), eid) {
            Some(k) => value matches FieldValueView::List(items) && items.len()
                == self.folded_contexts[k].1.len(),
            None => false,
        }
    }

    /// Whether every output of every fold has one value for each row of its
    /// fold.
    pub open spec fn fold_counts_agree(&self) -> bool {
        forall|i: int|
            0 <= i < self.folded_values.len() ==> self.fold_output_agrees(
                (#[trigger] self.folded_values[i]).0.0,
                self.folded_values[i].1@,
            )
    }

    /// The number of rows of the fold `eid`, if the row holds them.
    fn fold_count(&self, eid: Eid) -> (r: Option<usize>)
        ensures
            match first_key(self.fold_keys(), eid) {
                Some(k) => r == Some(self.folded_contexts[k].1.len()),
                None => r is None,
            },
    {
        let mut i: usize = 0;
        while i < self.folded_contexts.len()
            invariant
                i <= self.folded_contexts.len(),
                forall|j: int| 0 <= j < i ==> #[trigger] self.fold_keys()[j] != eid,
            decreases self.folded_contexts.len() - i,
        {
            if self.folded_contexts[i].0.0 == eid.0 {
                proof {
                    lemma_first_key(self.fold_keys(), eid, i as int);
                }
                return Some(self.folded_contexts[i].1.len());
            }
            i += 1;
        }
        proof {
            lemma_no_key(self.fold_keys(), eid);
        }
        None
    }

    /// Whether every output of every fold has one value for each row of its
    /// fold; see [`DataContext::fold_counts_agree`].
    pub fn has_agreeing_fold_counts(&self) -> (r: bool)
        ensures
            r == self.fold_counts_agree(),
    {
        let mut i: usize = 0;
        while i < self.folded_values.len()
            invariant
                i <= self.folded_values.len(),
                forall|k: int|
                    0 <= k < i ==> self.fold_output_agrees(
                        (#[trigger] self.folded_values[k]).0.0,
                        self.folded_values[k].1@,
                    ),
            decreases self.folded_values.len() - i,
        {
            let agrees = match (self.fold_count(self.folded_values[i].0.0), &self.folded_values[i].1) {
                (Some(count), FieldValue::List(items)) => {
                    proof {
                        crate::value::lemma_list_view(*items);
                    }
                    items.len() == count
                },
                _ => false,
            };
            if !agrees {
                assert(!self.fold_output_agrees(
                    self.folded_values[i as int].0.0,
                    self.folded_values[i as int].1@,
                ));
                return false;
            }
            i += 1;
        }
        true
    }
}

} // verus!
