//! Candidate values: what a field of a vertex may hold, as far as the
//! query's filters tell. Each candidate stands for a set of values, and
//! merging two candidates intersects their sets.
use crate::value::{
    lemma_equals_same_integer, equals_is_symmetric, equals_is_transitive, list_view,
    FieldValue, FieldValueView,
};
use vstd::prelude::*;

verus! {

/// One end of a range, with or without the end value itself.
#[derive(Debug)]
pub enum RangeEndpoint {
    Exclusive(FieldValue),
    Inclusive(FieldValue),
}

/// A range of values bounded from below, from above, or from both sides.
#[derive(Debug)]
pub enum RangeBoundKind {
    Lower(RangeEndpoint),
    Upper(RangeEndpoint),
    LowerAndUpper(RangeEndpoint, RangeEndpoint),
}

/// The values that a field may hold.
#[derive(Debug)]
pub enum CandidateValue {
    /// No value at all: the filters contradict each other.
    Impossible,
    Single(FieldValue),
    Multiple(Vec<FieldValue>),
    Range(RangeBoundKind),
    /// Any value: nothing is known.
    All,
}

/// The model of a range endpoint.
pub enum RangeEndpointView {
    Exclusive(FieldValueView),
    Inclusive(FieldValueView),
}

/// The model of a range.
pub enum RangeBoundKindView {
    Lower(RangeEndpointView),
    Upper(RangeEndpointView),
    LowerAndUpper(RangeEndpointView, RangeEndpointView),
}

/// The model of a candidate.
pub enum CandidateValueView {
    Impossible,
    Single(FieldValueView),
    Multiple(Seq<FieldValueView>),
    Range(RangeBoundKindView),
    All,
}

impl View for RangeEndpoint {
    type V = RangeEndpointView;

    open spec fn view(&self) -> RangeEndpointView {
        match self {
            RangeEndpoint::Exclusive(v) => RangeEndpointView::Exclusive(v@),
            RangeEndpoint::Inclusive(v) => RangeEndpointView::Inclusive(v@),
        }
    }
}

impl View for RangeBoundKind {
    type V = RangeBoundKindView;

    open spec fn view(&self) -> RangeBoundKindView {
        match self {
            RangeBoundKind::Lower(l) => RangeBoundKindView::Lower(l@),
            RangeBoundKind::Upper(u) => RangeBoundKindView::Upper(u@),
            RangeBoundKind::LowerAndUpper(l, u) => RangeBoundKindView::LowerAndUpper(l@, u@),
        }
    }
}

impl View for CandidateValue {
    type V = CandidateValueView;

    open spec fn view(&self) -> CandidateValueView {
        match self {
            CandidateValue::Impossible => CandidateValueView::Impossible,
            CandidateValue::Single(v) => CandidateValueView::Single(v@),
            CandidateValue::Multiple(vs) => CandidateValueView::Multiple(list_view(vs@)),
            CandidateValue::Range(r) => CandidateValueView::Range(r@),
            CandidateValue::All => CandidateValueView::All,
        }
    }
}

/// The model of an endpoint that may be missing.
pub open spec fn endpoint_view(endpoint: Option<RangeEndpoint>) -> Option<RangeEndpointView> {
    match endpoint {
        Some(e) => Some(e@),
        None => None,
    }
}

/// Whether a list holds a value equal to `x`.
pub open spec fn seq_has(items: Seq<FieldValueView>, x: FieldValueView) -> bool {
    exists|i: int| 0 <= i < items.len() && (#[trigger] items[i]).equals(x)
}

impl RangeEndpointView {
    /// The value at the end of the range.
    pub open spec fn value(self) -> FieldValueView {
        match self {
            RangeEndpointView::Exclusive(v) => v,
            RangeEndpointView::Inclusive(v) => v,
        }
    }

    /// The number at which the range ends. An endpoint that is no integer
    /// has none, and bounds nothing in: no value lies on its inner side.
    pub open spec fn key(self) -> Option<int> {
        self.value().integer()
    }

    /// Whether `x` lies on the upper side of this endpoint.
    pub open spec fn admits_above(self, x: FieldValueView) -> bool {
        match (self.key(), x.integer()) {
            (Some(k), Some(n)) => if self is Inclusive {
                k <= n
            } else {
                k < n
            },
            _ => false,
        }
    }

    /// Whether `x` lies on the lower side of this endpoint.
    pub open spec fn admits_below(self, x: FieldValueView) -> bool {
        match (self.key(), x.integer()) {
            (Some(k), Some(n)) => if self is Inclusive {
                n <= k
            } else {
                n < k
            },
            _ => false,
        }
    }

    /// Of two lower endpoints, the one that admits less.
    pub open spec fn tighter_lower(self, other: RangeEndpointView) -> RangeEndpointView {
        match (self.key(), other.key()) {
            (Some(a), Some(b)) => if a > b {
                self
            } else if b > a {
                other
            } else if self is Exclusive {
                self
            } else {
                other
            },
            (None, _) => self,
            (_, None) => other,
        }
    }

    /// Of two upper endpoints, the one that admits less.
    pub open spec fn tighter_upper(self, other: RangeEndpointView) -> RangeEndpointView {
        match (self.key(), other.key()) {
            (Some(a), Some(b)) => if a < b {
                self
            } else if b < a {
                other
            } else if self is Exclusive {
                self
            } else {
                other
            },
            (None, _) => self,
            (_, None) => other,
        }
    }
}

impl RangeBoundKindView {
    pub open spec fn lower(self) -> Option<RangeEndpointView> {
        match self {
            RangeBoundKindView::Lower(l) => Some(l),
            RangeBoundKindView::Upper(_) => None,
            RangeBoundKindView::LowerAndUpper(l, _) => Some(l),
        }
    }

    pub open spec fn upper(self) -> Option<RangeEndpointView> {
        match self {
            RangeBoundKindView::Lower(_) => None,
            RangeBoundKindView::Upper(u) => Some(u),
            RangeBoundKindView::LowerAndUpper(_, u) => Some(u),
        }
    }

    /// Whether `x` lies within the range.
    pub open spec fn contains(self, x: FieldValueView) -> bool {
        &&& self.lower() matches Some(l) ==> l.admits_above(x)
        &&& self.upper() matches Some(u) ==> u.admits_below(x)
    }

    /// The values that lie in both ranges.
    pub open spec fn intersect(self, other: RangeBoundKindView) -> CandidateValueView {
        let lower = match (self.lower(), other.lower()) {
            (Some(a), Some(b)) => Some(a.tighter_lower(b)),
            (Some(a), None) => Some(a),
            (None, b) => b,
        };
        let upper = match (self.upper(), other.upper()) {
            (Some(a), Some(b)) => Some(a.tighter_upper(b)),
            (Some(a), None) => Some(a),
            (None, b) => b,
        };
        bounded(lower, upper)
    }
}

/// The candidate for the values between two optional endpoints: a range
/// where some integer may lie between them, else `Impossible`.
pub open spec fn bounded(
    lower: Option<RangeEndpointView>,
    upper: Option<RangeEndpointView>,
) -> CandidateValueView {
    match (lower, upper) {
        (Some(l), Some(u)) => match (l.key(), u.key()) {
            (Some(a), Some(b)) => if a < b || (a == b && l is Inclusive && u is Inclusive) {
                CandidateValueView::Range(RangeBoundKindView::LowerAndUpper(l, u))
            } else {
                CandidateValueView::Impossible
            },
            _ => CandidateValueView::Impossible,
        },
        (Some(l), None) => if l.key() is Some {
            CandidateValueView::Range(RangeBoundKindView::Lower(l))
        } else {
            CandidateValueView::Impossible
        },
        (None, Some(u)) => if u.key() is Some {
            CandidateValueView::Range(RangeBoundKindView::Upper(u))
        } else {
            CandidateValueView::Impossible
        },
        (None, None) => CandidateValueView::All,
    }
}

/// The candidate for a list of values: `Impossible` for none of them,
/// `Single` for one, `Multiple` for more.
pub open spec fn from_list(items: Seq<FieldValueView>) -> CandidateValueView {
    if items.len() == 0 {
        CandidateValueView::Impossible
    } else if items.len() == 1 {
        CandidateValueView::Single(items[0])
    } else {
        CandidateValueView::Multiple(items)
    }
}

impl CandidateValueView {
    /// Whether `x` is one of the values that the candidate stands for.
    pub open spec fn contains(self, x: FieldValueView) -> bool {
        match self {
            CandidateValueView::Impossible => false,
            CandidateValueView::Single(v) => v.equals(x),
            CandidateValueView::Multiple(vs) => seq_has(vs, x),
            CandidateValueView::Range(r) => r.contains(x),
            CandidateValueView::All => true,
        }
    }

    /// The items of `items` that the candidate holds, in their order.
    pub open spec fn keep(self, items: Seq<FieldValueView>) -> Seq<FieldValueView> {
        items.filter(|v: FieldValueView| self.contains(v))
    }

    /// The candidate that stands for the values of both `self` and `other`.
    ///
    /// Nothing survives `Impossible`, and `All` gives way to the other side.
    /// A single value stays if the other side holds it, and where a single
    /// value meets a list or a range that holds it, the single value is
    /// left. A list keeps the items that another list or a range holds. Two
    /// ranges keep the tighter bounds.
    pub open spec fn merge(self, other: CandidateValueView) -> CandidateValueView {
        match self {
            CandidateValueView::Impossible => CandidateValueView::Impossible,
            CandidateValueView::All => other,
            CandidateValueView::Single(v) => if other.contains(v) {
                self
            } else {
                CandidateValueView::Impossible
            },
            CandidateValueView::Multiple(vs) => match other {
                CandidateValueView::Impossible => CandidateValueView::Impossible,
                CandidateValueView::All => self,
                CandidateValueView::Single(w) => if seq_has(vs, w) {
                    other
                } else {
                    CandidateValueView::Impossible
                },
                _ => from_list(other.keep(vs)),
            },
            CandidateValueView::Range(r) => match other {
                CandidateValueView::Impossible => CandidateValueView::Impossible,
                CandidateValueView::All => self,
                CandidateValueView::Single(w) => if r.contains(w) {
                    other
                } else {
                    CandidateValueView::Impossible
                },
                CandidateValueView::Multiple(ws) => from_list(self.keep(ws)),
                CandidateValueView::Range(r2) => r.intersect(r2),
            },
        }
    }
}

impl RangeEndpoint {
    /// The value at the end of the range.
    pub fn value(&self) -> (r: &FieldValue)
        ensures
            r@ == self@.value(),
    {
        match self {
            RangeEndpoint::Exclusive(v) => v,
            RangeEndpoint::Inclusive(v) => v,
        }
    }

    /// Whether the end value itself belongs to the range.
    pub fn is_inclusive(&self) -> (r: bool)
        ensures
            r == (self@ is Inclusive),
    {
        match self {
            RangeEndpoint::Exclusive(_) => false,
            RangeEndpoint::Inclusive(_) => true,
        }
    }

    /// Whether `x` lies on the upper side of this endpoint.
    pub fn admits_above(&self, x: &FieldValue) -> (r: bool)
        ensures
            r == self@.admits_above(x@),
    {
        match (self.value().integer(), x.integer()) {
            (Some(k), Some(n)) => if self.is_inclusive() {
                k <= n
            } else {
                k < n
            },
            _ => false,
        }
    }

    /// Whether `x` lies on the lower side of this endpoint.
    pub fn admits_below(&self, x: &FieldValue) -> (r: bool)
        ensures
            r == self@.admits_below(x@),
    {
        match (self.value().integer(), x.integer()) {
            (Some(k), Some(n)) => if self.is_inclusive() {
                n <= k
            } else {
                n < k
            },
            _ => false,
        }
    }

    fn tighter_lower(self, other: RangeEndpoint) -> (r: RangeEndpoint)
        ensures
            r@ == self@.tighter_lower(other@),
    {
        match (self.value().integer(), other.value().integer()) {
            (Some(a), Some(b)) => if a > b {
                self
            } else if b > a {
                other
            } else if !self.is_inclusive() {
                self
            } else {
                other
            },
            (None, _) => self,
            (_, None) => other,
        }
    }

    fn tighter_upper(self, other: RangeEndpoint) -> (r: RangeEndpoint)
        ensures
            r@ == self@.tighter_upper(other@),
    {
        match (self.value().integer(), other.value().integer()) {
            (Some(a), Some(b)) => if a < b {
                self
            } else if b < a {
                other
            } else if !self.is_inclusive() {
                self
            } else {
                other
            },
            (None, _) => self,
            (_, None) => other,
        }
    }
}

impl Clone for RangeEndpoint {
    fn clone(&self) -> (r: RangeEndpoint)
        ensures
            r@ == self@,
    {
        match self {
            RangeEndpoint::Exclusive(v) => RangeEndpoint::Exclusive(v.clone()),
            RangeEndpoint::Inclusive(v) => RangeEndpoint::Inclusive(v.clone()),
        }
    }
}

impl RangeBoundKind {
    /// Whether `x` lies within the range.
    pub fn contains(&self, x: &FieldValue) -> (r: bool)
        ensures
            r == self@.contains(x@),
    {
        match self {
            RangeBoundKind::Lower(l) => l.admits_above(x),
            RangeBoundKind::Upper(u) => u.admits_below(x),
            RangeBoundKind::LowerAndUpper(l, u) => l.admits_above(x) && u.admits_below(x),
        }
    }

    fn into_bounds(self) -> (r: (Option<RangeEndpoint>, Option<RangeEndpoint>))
        ensures
            endpoint_view(r.0) == self@.lower(),
            endpoint_view(r.1) == self@.upper(),
            r.0 is Some || r.1 is Some,
    {
        match self {
            RangeBoundKind::Lower(l) => (Some(l), None),
            RangeBoundKind::Upper(u) => (None, Some(u)),
            RangeBoundKind::LowerAndUpper(l, u) => (Some(l), Some(u)),
        }
    }

    fn intersect(self, other: RangeBoundKind) -> (r: CandidateValue)
        ensures
            r@ == self@.intersect(other@),
    {
        let (lower_a, upper_a) = self.into_bounds();
        let (lower_b, upper_b) = other.into_bounds();
        let lower = match (lower_a, lower_b) {
            (Some(a), Some(b)) => Some(a.tighter_lower(b)),
            (Some(a), None) => Some(a),
            (None, b) => b,
        };
        let upper = match (upper_a, upper_b) {
            (Some(a), Some(b)) => Some(a.tighter_upper(b)),
            (Some(a), None) => Some(a),
            (None, b) => b,
        };
        CandidateValue::bounded(lower, upper)
    }
}

impl Clone for RangeBoundKind {
    fn clone(&self) -> (r: RangeBoundKind)
        ensures
            r@ == self@,
    {
        match self {
            RangeBoundKind::Lower(l) => RangeBoundKind::Lower(l.clone()),
            RangeBoundKind::Upper(u) => RangeBoundKind::Upper(u.clone()),
            RangeBoundKind::LowerAndUpper(l, u) => RangeBoundKind::LowerAndUpper(
                l.clone(),
                u.clone(),
            ),
        }
    }
}

/// The filtered list of a list that ends in `last`.
proof fn lemma_keep_push(
    holder: CandidateValueView,
    items: Seq<FieldValueView>,
    last: FieldValueView,
)
    ensures
        holder.keep(items.push(last)) == if holder.contains(last) {
            holder.keep(items).push(last)
        } else {
            holder.keep(items)
        },
{
    reveal(Seq::filter);
    assert(items.push(last).drop_last() =~= items);
}

impl CandidateValue {
    /// Whether `x` is one of the values that the candidate stands for.
    pub fn contains(&self, x: &FieldValue) -> (r: bool)
        ensures
            r == self@.contains(x@),
    {
        match self {
            CandidateValue::Impossible => false,
            CandidateValue::Single(v) => v.equals(x),
            CandidateValue::Multiple(vs) => {
                let mut i: usize = 0;
                while i < vs.len()
                    invariant
                        i <= vs.len(),
                        self@ == CandidateValueView::Multiple(list_view(vs@)),
                        forall|j: int| 0 <= j < i ==> !(#[trigger] list_view(vs@)[j]).equals(x@),
                    decreases vs.len() - i,
                {
                    if vs[i].equals(x) {
                        assert(list_view(vs@)[i as int].equals(x@));
                        return true;
                    }
                    i += 1;
                }
                false
            },
            CandidateValue::Range(r) => r.contains(x),
            CandidateValue::All => true,
        }
    }

    fn bounded(lower: Option<RangeEndpoint>, upper: Option<RangeEndpoint>) -> (r: CandidateValue)
        ensures
            r@ == bounded(endpoint_view(lower), endpoint_view(upper)),
    {
        match (lower, upper) {
            (Some(l), Some(u)) => match (l.value().integer(), u.value().integer()) {
                (Some(a), Some(b)) => if a < b || (a == b && l.is_inclusive()
                    && u.is_inclusive()) {
                    CandidateValue::Range(RangeBoundKind::LowerAndUpper(l, u))
                } else {
                    CandidateValue::Impossible
                },
                _ => CandidateValue::Impossible,
            },
            (Some(l), None) => if l.value().integer().is_some() {
                CandidateValue::Range(RangeBoundKind::Lower(l))
            } else {
                CandidateValue::Impossible
            },
            (None, Some(u)) => if u.value().integer().is_some() {
                CandidateValue::Range(RangeBoundKind::Upper(u))
            } else {
                CandidateValue::Impossible
            },
            (None, None) => CandidateValue::All,
        }
    }

    /// The candidate for a list of values: `Impossible` for none of them,
    /// `Single` for one, `Multiple` for more.
    pub fn from_list(items: Vec<FieldValue>) -> (r: CandidateValue)
        ensures
            r@ == from_list(list_view(items@)),
    {
        let mut items = items;
        if items.len() == 0 {
            CandidateValue::Impossible
        } else if items.len() == 1 {
            match items.pop() {
                Some(only) => CandidateValue::Single(only),
                None => CandidateValue::Impossible,
            }
        } else {
            CandidateValue::Multiple(items)
        }
    }

    /// The items of `items` that the candidate holds, in their order.
    fn keep(&self, items: Vec<FieldValue>) -> (r: Vec<FieldValue>)
        ensures
            list_view(r@) == self@.keep(list_view(items@)),
    {
        let mut out: Vec<FieldValue> = Vec::new();
        proof {
            reveal(Seq::filter);
            assert(list_view(items@.take(0)) =~= Seq::<FieldValueView>::empty());
            assert(list_view(out@) =~= Seq::<FieldValueView>::empty());
        }
        for item in it: items
            invariant
                it.seq() == items@,
                list_view(out@) == self@.keep(list_view(items@.take(it.index() as int))),
        {
            proof {
                let done = list_view(items@.take(it.index() as int));
                assert(list_view(items@.take(it.index() + 1)) =~= done.push(item@));
                lemma_keep_push(self@, done, item@);
            }
            let ghost before = out@;
            if self.contains(&item) {
                out.push(item);
                assert(list_view(out@) =~= list_view(before).push(item@));
            }
        }
        assert(items@.take(items@.len() as int) =~= items@);
        out
    }

    /// The candidate that stands for the values of both `self` and `other`.
    fn merged(self, other: CandidateValue) -> (r: CandidateValue)
        ensures
            r@ == self@.merge(other@),
    {
        match self {
            CandidateValue::Impossible => CandidateValue::Impossible,
            CandidateValue::All => other,
            CandidateValue::Single(v) => if other.contains(&v) {
                CandidateValue::Single(v)
            } else {
                CandidateValue::Impossible
            },
            CandidateValue::Multiple(vs) => match other {
                CandidateValue::Impossible => CandidateValue::Impossible,
                CandidateValue::All => CandidateValue::Multiple(vs),
                CandidateValue::Single(w) => {
                    let list = CandidateValue::Multiple(vs);
                    if list.contains(&w) {
                        CandidateValue::Single(w)
                    } else {
                        CandidateValue::Impossible
                    }
                },
                _ => CandidateValue::from_list(other.keep(vs)),
            },
            CandidateValue::Range(r) => match other {
                CandidateValue::Impossible => CandidateValue::Impossible,
                CandidateValue::All => CandidateValue::Range(r),
                CandidateValue::Single(w) => if r.contains(&w) {
                    CandidateValue::Single(w)
                } else {
                    CandidateValue::Impossible
                },
                CandidateValue::Multiple(ws) => {
                    let range = CandidateValue::Range(r);
                    CandidateValue::from_list(range.keep(ws))
                },
                CandidateValue::Range(r2) => r.intersect(r2),
            },
        }
    }

    /// Narrows the candidate to the values that `other` holds too.
    pub fn merge(&mut self, other: CandidateValue)
        ensures
            final(self)@ == old(self)@.merge(other@),
    {
        let mut current = CandidateValue::Impossible;
        core::mem::swap(self, &mut current);
        *self = current.merged(other);
    }
}

impl Clone for CandidateValue {
    fn clone(&self) -> (r: CandidateValue)
        ensures
            r@ == self@,
    {
        match self {
            CandidateValue::Impossible => CandidateValue::Impossible,
            CandidateValue::Single(v) => CandidateValue::Single(v.clone()),
            CandidateValue::Multiple(vs) => {
                let mut out: Vec<FieldValue> = Vec::new();
                let mut i: usize = 0;
                while i < vs.len()
                    invariant
                        i <= vs.len(),
                        out.len() == i,
                        forall|j: int| 0 <= j < i ==> (#[trigger] out[j])@ == vs[j]@,
                    decreases vs.len() - i,
                {
                    out.push(vs[i].clone());
                    i += 1;
                }
                assert(list_view(out@) =~= list_view(vs@));
                CandidateValue::Multiple(out)
            },
            CandidateValue::Range(r) => CandidateValue::Range(r.clone()),
            CandidateValue::All => CandidateValue::All,
        }
    }
}

/// A candidate cannot tell equal values apart.
pub proof fn lemma_contains_equal(c: CandidateValueView, v: FieldValueView, x: FieldValueView)
    requires
        v.equals(x),
    ensures
        c.contains(v) == c.contains(x),
{
    equals_is_symmetric(v, x);
    match c {
        CandidateValueView::Single(w) => {
            if w.equals(v) {
                equals_is_transitive(w, v, x);
            }
            if w.equals(x) {
                equals_is_transitive(w, x, v);
            }
        },
        CandidateValueView::Multiple(ws) => {
            if seq_has(ws, v) {
                let i = choose|i: int| 0 <= i < ws.len() && (#[trigger] ws[i]).equals(v);
                equals_is_transitive(ws[i], v, x);
            }
            if seq_has(ws, x) {
                let i = choose|i: int| 0 <= i < ws.len() && (#[trigger] ws[i]).equals(x);
                equals_is_transitive(ws[i], x, v);
            }
        },
        CandidateValueView::Range(_) => {
            lemma_equals_same_integer(v, x);
        },
        _ => {},
    }
}

/// The kept items hold a value equal to `x` exactly when some item is equal
/// to `x` and held by the candidate.
pub proof fn lemma_keep_has(
    holder: CandidateValueView,
    items: Seq<FieldValueView>,
    x: FieldValueView,
)
    ensures
        seq_has(holder.keep(items), x) <==> exists|i: int|
            0 <= i < items.len() && (#[trigger] items[i]).equals(x) && holder.contains(items[i]),
    decreases items.len(),
{
    reveal(Seq::filter);
    if items.len() > 0 {
        let front = items.drop_last();
        let last = items.last();
        let kept = holder.keep(items);
        let kept_front = holder.keep(front);
        lemma_keep_has(holder, front, x);
        assert(front.push(last) =~= items);
        lemma_keep_push(holder, front, last);
        if seq_has(kept, x) {
            let k = choose|k: int| 0 <= k < kept.len() && (#[trigger] kept[k]).equals(x);
            if holder.contains(last) && k == kept.len() - 1 {
                assert(items[items.len() - 1].equals(x));
            } else {
                assert(kept_front[k].equals(x));
                let i = choose|i: int|
                    0 <= i < front.len() && (#[trigger] front[i]).equals(x) && holder.contains(
                        front[i],
                    );
                assert(items[i].equals(x));
            }
        }
        if exists|i: int|
            0 <= i < items.len() && (#[trigger] items[i]).equals(x) && holder.contains(items[i]) {
            let i = choose|i: int|
                0 <= i < items.len() && (#[trigger] items[i]).equals(x) && holder.contains(
                    items[i],
                );
            if i == items.len() - 1 {
                assert(kept[kept.len() - 1].equals(x));
            } else {
                assert(front[i].equals(x));
                let k = choose|k: int|
                    0 <= k < kept_front.len() && (#[trigger] kept_front[k]).equals(x);
                assert(kept[k].equals(x));
            }
        }
    }
}

/// The candidate for a list stands for the values of the list.
pub proof fn lemma_from_list_contains(items: Seq<FieldValueView>, x: FieldValueView)
    ensures
        from_list(items).contains(x) == seq_has(items, x),
{
    if items.len() == 1 {
        if seq_has(items, x) {
            let i = choose|i: int| 0 <= i < items.len() && (#[trigger] items[i]).equals(x);
            assert(i == 0);
        }
        if items[0].equals(x) {
            assert(seq_has(items, x));
        }
    }
}

/// The intersection of two ranges holds the values that lie in both.
pub proof fn lemma_intersect_contains(
    a: RangeBoundKindView,
    b: RangeBoundKindView,
    x: FieldValueView,
)
    ensures
        a.intersect(b).contains(x) == (a.contains(x) && b.contains(x)),
{
}

/// Merging intersects: the merged candidate holds a value exactly when both
/// sides hold it. So the result lies within either side, and loses nothing
/// that both sides allow.
pub proof fn merge_is_intersection(a: CandidateValueView, b: CandidateValueView, x: FieldValueView)
    ensures
        a.merge(b).contains(x) == (a.contains(x) && b.contains(x)),
{
    match a {
        CandidateValueView::Single(v) => {
            if v.equals(x) {
                lemma_contains_equal(b, v, x);
            }
        },
        CandidateValueView::Multiple(vs) => {
            match b {
                CandidateValueView::Impossible => {},
                CandidateValueView::All => {},
                CandidateValueView::Single(w) => {
                    if w.equals(x) {
                        lemma_contains_equal(a, w, x);
                    }
                },
                _ => {
                    lemma_from_list_contains(b.keep(vs), x);
                    lemma_keep_has(b, vs, x);
                    if seq_has(b.keep(vs), x) {
                        let i = choose|i: int|
                            0 <= i < vs.len() && (#[trigger] vs[i]).equals(x) && b.contains(vs[i]);
                        lemma_contains_equal(b, vs[i], x);
                    }
                    if seq_has(vs, x) && b.contains(x) {
                        let i = choose|i: int| 0 <= i < vs.len() && (#[trigger] vs[i]).equals(x);
                        lemma_contains_equal(b, vs[i], x);
                    }
                },
            }
        },
        CandidateValueView::Range(r) => {
            match b {
                CandidateValueView::Single(w) => {
                    if w.equals(x) {
                        lemma_contains_equal(a, w, x);
                    }
                },
                CandidateValueView::Multiple(ws) => {
                    lemma_from_list_contains(a.keep(ws), x);
                    lemma_keep_has(a, ws, x);
                    if seq_has(a.keep(ws), x) {
                        let i = choose|i: int|
                            0 <= i < ws.len() && (#[trigger] ws[i]).equals(x) && a.contains(ws[i]);
                        lemma_contains_equal(a, ws[i], x);
                    }
                    if seq_has(ws, x) && a.contains(x) {
                        let i = choose|i: int| 0 <= i < ws.len() && (#[trigger] ws[i]).equals(x);
                        lemma_contains_equal(a, ws[i], x);
                    }
                },
                CandidateValueView::Range(r2) => {
                    lemma_intersect_contains(r, r2, x);
                },
                _ => {},
            }
        },
        _ => {},
    }
}

/// Nothing survives a merge with `Impossible`, on either side.
pub proof fn merge_with_impossible(other: CandidateValueView)
    ensures
        CandidateValueView::Impossible.merge(other) == CandidateValueView::Impossible,
        other.merge(CandidateValueView::Impossible) == CandidateValueView::Impossible,
{
}

/// `All` gives way to the other side of a merge.
pub proof fn merge_with_all(other: CandidateValueView)
    ensures
        CandidateValueView::All.merge(other) == other,
        other.merge(CandidateValueView::All) == other,
{
}

} // verus!
