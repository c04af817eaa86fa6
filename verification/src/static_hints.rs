//! What the filters of a vertex say of a field before the query runs: the
//! filters that compare with a variable of the query, or with null.
use crate::candidates::{
    merge_is_intersection, CandidateValue, CandidateValueView, RangeBoundKind,
    RangeBoundKindView, RangeEndpoint, RangeEndpointView,
};
use crate::ir::{
    first_key, lemma_first_key, lemma_no_key, Argument, Arguments, IRVertex, LocalField, Operation,
};
use crate::value::{lemma_list_view, list_view, FieldValue, FieldValueView};
use vstd::prelude::*;

verus! {

/// The names of the arguments, in order.
pub open spec fn argument_names(arguments: Seq<(String, FieldValue)>) -> Seq<Seq<char>> {
    arguments.map_values(|entry: (String, FieldValue)| entry.0@)
}

/// The value of the variable `name`, if the arguments give it one.
pub open spec fn argument_value(arguments: Seq<(String, FieldValue)>, name: Seq<char>) -> Option<
    FieldValue,
> {
    match first_key(argument_names(arguments), name) {
        Some(i) => Some(arguments[i].1),
        None => None,
    }
}

/// The value of the variable `name`, if the arguments give it one.
pub fn argument<'a>(arguments: &'a Arguments, name: &String) -> (r: Option<&'a FieldValue>)
    ensures
        match argument_value(arguments@, name@) {
            Some(value) => r == Some(&value),
            None => r is None,
        },
{
    let mut i: usize = 0;
    while i < arguments.len()
        invariant
            i <= arguments.len(),
            forall|j: int| 0 <= j < i ==> #[trigger] argument_names(arguments@)[j] != name@,
        decreases arguments.len() - i,
    {
        if arguments[i].0 == *name {
            proof {
                lemma_first_key(argument_names(arguments@), name@, i as int);
            }
            return Some(&arguments[i].1);
        }
        i += 1;
    }
    proof {
        lemma_no_key(argument_names(arguments@), name@);
    }
    None
}

/// The field that a filter stands on: its left-hand side.
pub open spec fn filtered_field(op: Operation) -> LocalField {
    match op {
        Operation::IsNull(field) => field,
        Operation::IsNotNull(field) => field,
        Operation::Equals(field, _) => field,
        Operation::NotEquals(field, _) => field,
        Operation::LessThan(field, _) => field,
        Operation::LessThanOrEqual(field, _) => field,
        Operation::GreaterThan(field, _) => field,
        Operation::GreaterThanOrEqual(field, _) => field,
        Operation::Contains(field, _) => field,
        Operation::NotContains(field, _) => field,
        Operation::OneOf(field, _) => field,
        Operation::NotOneOf(field, _) => field,
        Operation::HasPrefix(field, _) => field,
        Operation::NotHasPrefix(field, _) => field,
        Operation::HasSuffix(field, _) => field,
        Operation::NotHasSuffix(field, _) => field,
        Operation::HasSubstring(field, _) => field,
        Operation::NotHasSubstring(field, _) => field,
        Operation::RegexMatches(field, _) => field,
        Operation::NotRegexMatches(field, _) => field,
    }
}

/// Whether a filter stands on the field `name`.
pub open spec fn concerns(op: Operation, name: Seq<char>) -> bool {
    filtered_field(op).field_name@ == name
}

/// The field that a filter stands on.
pub fn filtered_field_of(op: &Operation) -> (r: &LocalField)
    ensures
        *r == filtered_field(*op),
{
    match op {
        Operation::IsNull(field) => field,
        Operation::IsNotNull(field) => field,
        Operation::Equals(field, _) => field,
        Operation::NotEquals(field, _) => field,
        Operation::LessThan(field, _) => field,
        Operation::LessThanOrEqual(field, _) => field,
        Operation::GreaterThan(field, _) => field,
        Operation::GreaterThanOrEqual(field, _) => field,
        Operation::Contains(field, _) => field,
        Operation::NotContains(field, _) => field,
        Operation::OneOf(field, _) => field,
        Operation::NotOneOf(field, _) => field,
        Operation::HasPrefix(field, _) => field,
        Operation::NotHasPrefix(field, _) => field,
        Operation::HasSuffix(field, _) => field,
        Operation::NotHasSuffix(field, _) => field,
        Operation::HasSubstring(field, _) => field,
        Operation::NotHasSubstring(field, _) => field,
        Operation::RegexMatches(field, _) => field,
        Operation::NotRegexMatches(field, _) => field,
    }
}

/// Whether a filter stands on the field `name`.
pub fn concerns_field(op: &Operation, name: &String) -> (r: bool)
    ensures
        r == concerns(*op, name@),
{
    filtered_field_of(op).field_name == *name
}

/// What one filter says of the values of the field `name`: an equality of
/// that field with a variable leaves the variable's value, a membership in a
/// variable leaves the items of the variable's list. Other filters, and
/// filters on other fields, say nothing here.
pub open spec fn hint_of(
    op: Operation,
    arguments: Seq<(String, FieldValue)>,
    name: Seq<char>,
) -> Option<CandidateValueView> {
    if !concerns(op, name) {
        None
    } else {
        hint_by_itself(op, arguments)
    }
}

/// What a filter says of the values of the field it stands on.
pub open spec fn hint_by_itself(op: Operation, arguments: Seq<(String, FieldValue)>) -> Option<
    CandidateValueView,
> {
    match op {
        Operation::Equals(_, Argument::Variable(var)) => match argument_value(
            arguments,
            var.variable_name@,
        ) {
            Some(value) => Some(CandidateValueView::Single(value@)),
            None => None,
        },
        Operation::OneOf(_, Argument::Variable(var)) => match argument_value(
            arguments,
            var.variable_name@,
        ) {
            Some(value) => match value@ {
                FieldValueView::List(items) => Some(CandidateValueView::Multiple(items)),
                _ => None,
            },
            None => None,
        },
        _ => None,
    }
}

/// Whether the arguments serve a filter as far as it stands on the field
/// `name`: a variable that an equality or a membership of that field names
/// has a value, and for a membership the value is a list.
pub open spec fn serves(
    arguments: Seq<(String, FieldValue)>,
    op: Operation,
    name: Seq<char>,
) -> bool {
    !concerns(op, name) || serves_by_itself(arguments, op)
}

/// Whether the arguments serve a filter.
pub open spec fn serves_by_itself(arguments: Seq<(String, FieldValue)>, op: Operation) -> bool {
    match op {
        Operation::Equals(_, Argument::Variable(var)) => argument_value(
            arguments,
            var.variable_name@,
        ) is Some,
        Operation::OneOf(_, Argument::Variable(var)) => argument_value(
            arguments,
            var.variable_name@,
        ) matches Some(value) && value@ is List,
        _ => true,
    }
}

/// Whether the arguments serve every filter of a list that stands on the
/// field `name`.
pub open spec fn serves_all(
    arguments: Seq<(String, FieldValue)>,
    filters: Seq<Operation>,
    name: Seq<char>,
) -> bool {
    forall|i: int| 0 <= i < filters.len() ==> serves(arguments, #[trigger] filters[i], name)
}

/// One more candidate, merged into what is known so far.
pub open spec fn narrowed(
    known: Option<CandidateValueView>,
    hint: Option<CandidateValueView>,
) -> Option<CandidateValueView> {
    match (known, hint) {
        (_, None) => known,
        (None, Some(c)) => Some(c),
        (Some(k), Some(c)) => Some(k.merge(c)),
    }
}

/// What is known after the first `count` filters, starting from `start`.
pub open spec fn merged_hints(
    filters: Seq<Operation>,
    arguments: Seq<(String, FieldValue)>,
    name: Seq<char>,
    start: Option<CandidateValueView>,
    count: int,
) -> Option<CandidateValueView>
    decreases count,
{
    if count <= 0 {
        start
    } else {
        narrowed(
            merged_hints(filters, arguments, name, start, count - 1),
            hint_of(filters[count - 1], arguments, name),
        )
    }
}

/// Whether some filter asks the field `name` for null.
pub open spec fn asks_null(filters: Seq<Operation>, name: Seq<char>) -> bool {
    exists|i: int|
        0 <= i < filters.len() && (#[trigger] filters[i]) is IsNull && concerns(filters[i], name)
}

/// Whether some filter asks the field `name` for anything but null.
pub open spec fn asks_not_null(filters: Seq<Operation>, name: Seq<char>) -> bool {
    exists|i: int|
        0 <= i < filters.len() && (#[trigger] filters[i]) is IsNotNull && concerns(
            filters[i],
            name,
        )
}

/// The values that the filters of a vertex leave to the field `name`. Only
/// the filters on that field count. Nothing is left where they ask for null
/// and for not null at once; else what the equalities and memberships with
/// variables leave, merged in the order of the filters, and with null where
/// a filter asks for it. `None` where no filter says a thing.
pub open spec fn static_candidate(
    filters: Seq<Operation>,
    arguments: Seq<(String, FieldValue)>,
    name: Seq<char>,
) -> Option<CandidateValueView> {
    if asks_null(filters, name) && asks_not_null(filters, name) {
        Some(CandidateValueView::Impossible)
    } else {
        merged_hints(
            filters,
            arguments,
            name,
            if asks_null(filters, name) {
                Some(CandidateValueView::Single(FieldValueView::Null))
            } else {
                None
            },
            filters.len() as int,
        )
    }
}

/// The model of a candidate that may be missing.
pub open spec fn candidate_view(candidate: Option<CandidateValue>) -> Option<CandidateValueView> {
    match candidate {
        Some(c) => Some(c@),
        None => None,
    }
}

/// Whether some filter of the vertex asks for null, and whether some asks
/// for anything but null.
fn null_filters(filters: &Vec<Operation>, name: &String) -> (r: (bool, bool))
    ensures
        r.0 == asks_null(filters@, name@),
        r.1 == asks_not_null(filters@, name@),
{
    let mut is_null = false;
    let mut is_not_null = false;
    let mut i: usize = 0;
    while i < filters.len()
        invariant
            i <= filters.len(),
            is_null == (exists|j: int|
                0 <= j < i && (#[trigger] filters[j]) is IsNull && concerns(filters[j], name@)),
            is_not_null == (exists|j: int|
                0 <= j < i && (#[trigger] filters[j]) is IsNotNull && concerns(
                    filters[j],
                    name@,
                )),
        decreases filters.len() - i,
    {
        if concerns_field(&filters[i], name) {
            match &filters[i] {
                Operation::IsNull(_) => {
                    is_null = true;
                },
                Operation::IsNotNull(_) => {
                    is_not_null = true;
                },
                _ => {},
            }
        }
        i += 1;
    }
    (is_null, is_not_null)
}

/// A copy of the items of a list.
fn copy_items(items: &Vec<FieldValue>) -> (r: Vec<FieldValue>)
    ensures
        list_view(r@) == list_view(items@),
{
    let mut out: Vec<FieldValue> = Vec::new();
    let mut i: usize = 0;
    while i < items.len()
        invariant
            i <= items.len(),
            out.len() == i,
            forall|j: int| 0 <= j < i ==> (#[trigger] out[j])@ == items[j]@,
        decreases items.len() - i,
    {
        out.push(items[i].clone());
        i += 1;
    }
    assert(list_view(out@) =~= list_view(items@));
    out
}

/// The values that the filters of `vertex` leave to the field
/// `field_name`; see [`static_candidate`]. The arguments are read only
/// where the filters do not contradict each other on null.
pub fn static_field_value_of(vertex: &IRVertex, arguments: &Arguments, field_name: &str) -> (r:
    Option<CandidateValue>)
    requires
        asks_null(vertex.filters@, field_name@) && asks_not_null(vertex.filters@, field_name@)
            || serves_all(arguments@, vertex.filters@, field_name@),
    ensures
        candidate_view(r) == static_candidate(vertex.filters@, arguments@, field_name@),
{
    let name = field_name.to_owned();
    let (is_null, is_not_null) = null_filters(&vertex.filters, &name);
    if is_null && is_not_null {
        return Some(CandidateValue::Impossible);
    }
    let mut candidate: Option<CandidateValue> = if is_null {
        Some(CandidateValue::Single(FieldValue::Null))
    } else {
        None
    };
    let ghost start = candidate_view(candidate);
    let mut i: usize = 0;
    while i < vertex.filters.len()
        invariant
            i <= vertex.filters.len(),
            name@ == field_name@,
            serves_all(arguments@, vertex.filters@, field_name@),
            candidate_view(candidate) == merged_hints(
                vertex.filters@,
                arguments@,
                field_name@,
                start,
                i as int,
            ),
        decreases vertex.filters.len() - i,
    {
        assert(serves(arguments@, vertex.filters[i as int], field_name@));
        let hint: Option<CandidateValue> = if !concerns_field(&vertex.filters[i], &name) {
            None
        } else {
            match &vertex.filters[i] {
            Operation::Equals(_, Argument::Variable(var)) => {
                match argument(arguments, &var.variable_name) {
                    Some(value) => Some(CandidateValue::Single(value.clone())),
                    None => None,
                }
            },
            Operation::OneOf(_, Argument::Variable(var)) => {
                match argument(arguments, &var.variable_name) {
                    Some(FieldValue::List(items)) => {
                        proof {
                            lemma_list_view(*items);
                        }
                        Some(CandidateValue::Multiple(copy_items(items)))
                    },
                    _ => None,
                }
            },
            _ => None,
            }
        };
        assert(candidate_view(hint) == hint_of(vertex.filters[i as int], arguments@, field_name@));
        match hint {
            Some(found) => {
                match candidate {
                    Some(mut known) => {
                        known.merge(found);
                        candidate = Some(known);
                    },
                    None => {
                        candidate = Some(found);
                    },
                }
            },
            None => {},
        }
        i += 1;
    }
    candidate
}

/// Whether the value `x` of the field `name` passes a filter, as far as
/// the filter compares that field with null or with a variable by equality
/// or membership. A filter on another field, and every other filter, lets
/// every value pass here.
pub open spec fn passes(
    op: Operation,
    arguments: Seq<(String, FieldValue)>,
    name: Seq<char>,
    x: FieldValueView,
) -> bool {
    if !concerns(op, name) {
        true
    } else {
        match op {
            Operation::IsNull(_) => x is Null,
            Operation::IsNotNull(_) => !(x is Null),
            Operation::Equals(_, Argument::Variable(_)) => hint_by_itself(
                op,
                arguments,
            ) matches Some(c) && c.contains(x),
            Operation::OneOf(_, Argument::Variable(_)) => hint_by_itself(
                op,
                arguments,
            ) matches Some(c) && c.contains(x),
            _ => true,
        }
    }
}

/// What is known so far holds every value that passes the filters so far.
proof fn lemma_merged_hints_hold(
    filters: Seq<Operation>,
    arguments: Seq<(String, FieldValue)>,
    name: Seq<char>,
    start: Option<CandidateValueView>,
    count: int,
    x: FieldValueView,
)
    requires
        0 <= count <= filters.len(),
        start matches Some(c) ==> c.contains(x),
        forall|i: int| 0 <= i < count ==> passes(#[trigger] filters[i], arguments, name, x),
    ensures
        merged_hints(filters, arguments, name, start, count) matches Some(c) ==> c.contains(x),
    decreases count,
{
    if count > 0 {
        lemma_merged_hints_hold(filters, arguments, name, start, count - 1, x);
        let before = merged_hints(filters, arguments, name, start, count - 1);
        let hint = hint_of(filters[count - 1], arguments, name);
        assert(passes(filters[count - 1], arguments, name, x));
        match (before, hint) {
            (Some(k), Some(c)) => {
                merge_is_intersection(k, c, x);
            },
            _ => {},
        }
    }
}

/// The hint is sound: a value of the field `name` that passes every filter
/// of the vertex on that field is among the values that the hint leaves to
/// the field. Filters on other fields do not bear on it.
pub proof fn static_hint_sound(
    filters: Seq<Operation>,
    arguments: Seq<(String, FieldValue)>,
    name: Seq<char>,
    x: FieldValueView,
)
    requires
        forall|i: int| 0 <= i < filters.len() ==> passes(#[trigger] filters[i], arguments, name, x),
    ensures
        static_candidate(filters, arguments, name) matches Some(c) ==> c.contains(x),
{
    if asks_null(filters, name) && asks_not_null(filters, name) {
        let i = choose|i: int|
            0 <= i < filters.len() && (#[trigger] filters[i]) is IsNull && concerns(filters[i], name);
        let j = choose|j: int|
            0 <= j < filters.len() && (#[trigger] filters[j]) is IsNotNull && concerns(
                filters[j],
                name,
            );
        assert(passes(filters[i], arguments, name, x));
        assert(passes(filters[j], arguments, name, x));
    } else {
        let start = if asks_null(filters, name) {
            Some(CandidateValueView::Single(FieldValueView::Null))
        } else {
            None
        };
        if asks_null(filters, name) {
            let i = choose|i: int|
                0 <= i < filters.len() && (#[trigger] filters[i]) is IsNull && concerns(
                    filters[i],
                    name,
                );
            assert(passes(filters[i], arguments, name, x));
        }
        lemma_merged_hints_hold(filters, arguments, name, start, filters.len() as int, x);
    }
}

/// Whether a hint leaves the value `x` to the field. A hint that is
/// missing leaves every value.
pub open spec fn leaves(hint: Option<CandidateValueView>, x: FieldValueView) -> bool {
    hint matches Some(c) ==> c.contains(x)
}

/// From a start that leaves no more, the same filters leave no more.
proof fn lemma_merged_hints_narrow(
    filters: Seq<Operation>,
    longer: Seq<Operation>,
    arguments: Seq<(String, FieldValue)>,
    name: Seq<char>,
    start: Option<CandidateValueView>,
    narrower: Option<CandidateValueView>,
    count: int,
    x: FieldValueView,
)
    requires
        0 <= count <= filters.len() <= longer.len(),
        forall|i: int| 0 <= i < count ==> #[trigger] longer[i] == filters[i],
        leaves(narrower, x) ==> leaves(start, x),
    ensures
        leaves(merged_hints(longer, arguments, name, narrower, count), x) ==> leaves(
            merged_hints(filters, arguments, name, start, count),
            x,
        ),
    decreases count,
{
    if count > 0 {
        lemma_merged_hints_narrow(filters, longer, arguments, name, start, narrower, count - 1, x);
        assert(longer[count - 1] == filters[count - 1]);
        let hint = hint_of(filters[count - 1], arguments, name);
        if let Some(c) = hint {
            if let Some(k) = merged_hints(longer, arguments, name, narrower, count - 1) {
                merge_is_intersection(k, c, x);
            }
            if let Some(k) = merged_hints(filters, arguments, name, start, count - 1) {
                merge_is_intersection(k, c, x);
            }
        }
    }
}

/// A further filter never widens the hint: a value that the filters of a
/// vertex leave to the field `name` with one more filter, they leave to it
/// without that filter.
pub proof fn further_filter_narrows(
    filters: Seq<Operation>,
    op: Operation,
    arguments: Seq<(String, FieldValue)>,
    name: Seq<char>,
    x: FieldValueView,
)
    ensures
        leaves(static_candidate(filters.push(op), arguments, name), x) ==> leaves(
            static_candidate(filters, arguments, name),
            x,
        ),
{
    let longer = filters.push(op);
    if asks_null(filters, name) {
        let i = choose|i: int|
            0 <= i < filters.len() && (#[trigger] filters[i]) is IsNull && concerns(filters[i], name);
        assert(longer[i] == filters[i]);
    }
    if asks_not_null(filters, name) {
        let i = choose|i: int|
            0 <= i < filters.len() && (#[trigger] filters[i]) is IsNotNull && concerns(
                filters[i],
                name,
            );
        assert(longer[i] == filters[i]);
    }
    if !(asks_null(longer, name) && asks_not_null(longer, name)) {
        let start = if asks_null(filters, name) {
            Some(CandidateValueView::Single(FieldValueView::Null))
        } else {
            None
        };
        let narrower = if asks_null(longer, name) {
            Some(CandidateValueView::Single(FieldValueView::Null))
        } else {
            None
        };
        let count = filters.len() as int;
        lemma_merged_hints_narrow(filters, longer, arguments, name, start, narrower, count, x);
        if let Some(c) = hint_of(op, arguments, name) {
            if let Some(k) = merged_hints(longer, arguments, name, narrower, count) {
                merge_is_intersection(k, c, x);
            }
        }
    }
}

/// The range that a bound at the variable `name` leaves: from the
/// variable's value upwards or downwards, with or without the value itself.
/// Only an integer bounds a range; any other value, and a variable without
/// a value, says nothing.
pub open spec fn bound_at(
    arguments: Seq<(String, FieldValue)>,
    name: Seq<char>,
    lower: bool,
    inclusive: bool,
) -> Option<CandidateValueView> {
    match argument_value(arguments, name) {
        Some(value) => if value@.integer() is Some {
            let endpoint = if inclusive {
                RangeEndpointView::Inclusive(value@)
            } else {
                RangeEndpointView::Exclusive(value@)
            };
            Some(
                CandidateValueView::Range(
                    if lower {
                        RangeBoundKindView::Lower(endpoint)
                    } else {
                        RangeBoundKindView::Upper(endpoint)
                    },
                ),
            )
        } else {
            None
        },
        None => None,
    }
}

/// What one filter says of the range of the field `name`: a comparison of
/// that field with a variable bounds the range at the variable's value.
/// Other filters, and filters on other fields, say nothing here.
pub open spec fn range_of(
    op: Operation,
    arguments: Seq<(String, FieldValue)>,
    name: Seq<char>,
) -> Option<CandidateValueView> {
    if !concerns(op, name) {
        None
    } else {
        range_by_itself(op, arguments)
    }
}

/// What a comparison says of the range of the field it stands on.
pub open spec fn range_by_itself(op: Operation, arguments: Seq<(String, FieldValue)>) -> Option<
    CandidateValueView,
> {
    match op {
        Operation::GreaterThanOrEqual(_, Argument::Variable(var)) => bound_at(
            arguments,
            var.variable_name@,
            true,
            true,
        ),
        Operation::GreaterThan(_, Argument::Variable(var)) => bound_at(
            arguments,
            var.variable_name@,
            true,
            false,
        ),
        Operation::LessThan(_, Argument::Variable(var)) => bound_at(
            arguments,
            var.variable_name@,
            false,
            false,
        ),
        Operation::LessThanOrEqual(_, Argument::Variable(var)) => bound_at(
            arguments,
            var.variable_name@,
            false,
            true,
        ),
        _ => None,
    }
}

/// The bounds of the first `count` filters, merged in their order.
pub open spec fn merged_ranges(
    filters: Seq<Operation>,
    arguments: Seq<(String, FieldValue)>,
    name: Seq<char>,
    count: int,
) -> Option<CandidateValueView>
    decreases count,
{
    if count <= 0 {
        None
    } else {
        narrowed(
            merged_ranges(filters, arguments, name, count - 1),
            range_of(filters[count - 1], arguments, name),
        )
    }
}

/// The range that the comparisons of the field `name` with variables leave
/// to it: the tightest bounds among them. `None` where no comparison bounds
/// the field, and where the bounds leave no value between them.
pub open spec fn static_range(
    filters: Seq<Operation>,
    arguments: Seq<(String, FieldValue)>,
    name: Seq<char>,
) -> Option<RangeBoundKindView> {
    match merged_ranges(filters, arguments, name, filters.len() as int) {
        Some(CandidateValueView::Range(range)) => Some(range),
        _ => None,
    }
}

/// The model of a range that may be missing.
pub open spec fn range_view(range: Option<RangeBoundKind>) -> Option<RangeBoundKindView> {
    match range {
        Some(r) => Some(r@),
        None => None,
    }
}

/// The range that a bound at the variable `name` leaves; see [`bound_at`].
fn bound_hint(arguments: &Arguments, name: &String, lower: bool, inclusive: bool) -> (r: Option<
    CandidateValue,
>)
    ensures
        candidate_view(r) == bound_at(arguments@, name@, lower, inclusive),
{
    match argument(arguments, name) {
        Some(value) => {
            if value.integer().is_some() {
                let endpoint = if inclusive {
                    RangeEndpoint::Inclusive(value.clone())
                } else {
                    RangeEndpoint::Exclusive(value.clone())
                };
                Some(
                    CandidateValue::Range(
                        if lower {
                            RangeBoundKind::Lower(endpoint)
                        } else {
                            RangeBoundKind::Upper(endpoint)
                        },
                    ),
                )
            } else {
                None
            }
        },
        None => None,
    }
}

/// The range that the comparisons of `vertex` with variables leave to the
/// field `field_name`; see [`static_range`].
pub fn static_field_range_of(vertex: &IRVertex, arguments: &Arguments, field_name: &str) -> (r:
    Option<RangeBoundKind>)
    ensures
        range_view(r) == static_range(vertex.filters@, arguments@, field_name@),
{
    let name = field_name.to_owned();
    let mut known: Option<CandidateValue> = None;
    let mut i: usize = 0;
    while i < vertex.filters.len()
        invariant
            i <= vertex.filters.len(),
            name@ == field_name@,
            candidate_view(known) == merged_ranges(
                vertex.filters@,
                arguments@,
                field_name@,
                i as int,
            ),
        decreases vertex.filters.len() - i,
    {
        let hint: Option<CandidateValue> = if !concerns_field(&vertex.filters[i], &name) {
            None
        } else {
            match &vertex.filters[i] {
            Operation::GreaterThanOrEqual(_, Argument::Variable(var)) => bound_hint(
                arguments,
                &var.variable_name,
                true,
                true,
            ),
            Operation::GreaterThan(_, Argument::Variable(var)) => bound_hint(
                arguments,
                &var.variable_name,
                true,
                false,
            ),
            Operation::LessThan(_, Argument::Variable(var)) => bound_hint(
                arguments,
                &var.variable_name,
                false,
                false,
            ),
            Operation::LessThanOrEqual(_, Argument::Variable(var)) => bound_hint(
                arguments,
                &var.variable_name,
                false,
                true,
            ),
            _ => None,
            }
        };
        match hint {
            Some(found) => {
                match known {
                    Some(mut so_far) => {
                        so_far.merge(found);
                        known = Some(so_far);
                    },
                    None => {
                        known = Some(found);
                    },
                }
            },
            None => {},
        }
        i += 1;
    }
    match known {
        Some(CandidateValue::Range(range)) => Some(range),
        _ => None,
    }
}

/// The merged bounds hold every value that lies within each bound so far.
proof fn lemma_merged_ranges_hold(
    filters: Seq<Operation>,
    arguments: Seq<(String, FieldValue)>,
    name: Seq<char>,
    count: int,
    x: FieldValueView,
)
    requires
        0 <= count <= filters.len(),
        forall|i: int|
            0 <= i < count ==> (range_of(#[trigger] filters[i], arguments, name) matches Some(c)
                ==> c.contains(x)),
    ensures
        merged_ranges(filters, arguments, name, count) matches Some(c) ==> c.contains(x),
    decreases count,
{
    if count > 0 {
        lemma_merged_ranges_hold(filters, arguments, name, count - 1, x);
        let before = merged_ranges(filters, arguments, name, count - 1);
        let hint = range_of(filters[count - 1], arguments, name);
        match (before, hint) {
            (Some(k), Some(c)) => {
                merge_is_intersection(k, c, x);
            },
            _ => {},
        }
    }
}

/// The range is sound: a value of the field `name` that lies within the
/// bound of every comparison of that field with a variable lies within the
/// range. Comparisons of other fields do not bear on it.
pub proof fn static_range_sound(
    filters: Seq<Operation>,
    arguments: Seq<(String, FieldValue)>,
    name: Seq<char>,
    x: FieldValueView,
)
    requires
        forall|i: int|
            0 <= i < filters.len() ==> (range_of(#[trigger] filters[i], arguments, name) matches Some(
                c,
            ) ==> c.contains(x)),
    ensures
        static_range(filters, arguments, name) matches Some(range) ==> range.contains(x),
{
    lemma_merged_ranges_hold(filters, arguments, name, filters.len() as int, x);
}

} // verus!
