//! The same values as [`FieldValue`], kept apart as the form that is written
//! out untagged, one bare scalar or list per value.
use crate::value::{lemma_list_view, list_view, FieldValue, FieldValueView, FiniteF64, UtcTimestamp};
use vstd::prelude::*;

verus! {

/// Values of fields, in the form meant for untagged serialization.
///
/// The order of the variants matters to a reader that tries them in turn:
/// `Int64` stands before `Uint64`, which stands before `Float64`, so that an
/// integer is read as the exact type and never as a lossy float.
#[derive(Debug)]
pub enum TransparentValue {
    Null,
    Int64(i64),
    Uint64(u64),
    Float64(FiniteF64),
    String(String),
    Boolean(bool),
    DateTimeUtc(UtcTimestamp),
    Enum(String),
    List(Vec<TransparentValue>),
}

impl View for TransparentValue {
    type V = FieldValueView;

    open spec fn view(&self) -> FieldValueView
        decreases self,
    {
        match self {
            TransparentValue::Null => FieldValueView::Null,
            TransparentValue::Int64(i) => FieldValueView::Int64(*i),
            TransparentValue::Uint64(u) => FieldValueView::Uint64(*u),
            TransparentValue::Float64(f) => FieldValueView::Float64(f@),
            TransparentValue::String(s) => FieldValueView::String(s@),
            TransparentValue::Boolean(b) => FieldValueView::Boolean(*b),
            TransparentValue::DateTimeUtc(t) => FieldValueView::DateTimeUtc(*t),
            TransparentValue::Enum(s) => FieldValueView::Enum(s@),
            TransparentValue::List(l) => FieldValueView::List(
                Seq::new(
                    l.len() as nat,
                    |i: int|
                        if 0 <= i < l.len() {
                            l[i]@
                        } else {
                            FieldValueView::Null
                        },
                ),
            ),
        }
    }
}

/// The model of a list of transparent values: the models of its items, in order.
pub open spec fn transparent_list_view(items: Seq<TransparentValue>) -> Seq<FieldValueView> {
    Seq::new(items.len(), |i: int| items[i]@)
}

/// The model of a transparent list is the list of its items' models.
pub proof fn lemma_transparent_list_view(items: Vec<TransparentValue>)
    ensures
        TransparentValue::List(items)@ == FieldValueView::List(transparent_list_view(items@)),
{
    reveal_with_fuel(<TransparentValue as View>::view, 2);
    assert(TransparentValue::List(items)@->List_0 =~= transparent_list_view(items@));
}

impl TransparentValue {
    /// The same value as a [`FieldValue`].
    pub fn to_field_value(&self) -> (r: FieldValue)
        ensures
            r@ == self@,
        decreases *self,
    {
        match self {
            TransparentValue::Null => FieldValue::Null,
            TransparentValue::Int64(x) => FieldValue::Int64(*x),
            TransparentValue::Uint64(x) => FieldValue::Uint64(*x),
            TransparentValue::Float64(x) => FieldValue::Float64(*x),
            TransparentValue::String(x) => FieldValue::String(x.clone()),
            TransparentValue::Boolean(x) => FieldValue::Boolean(*x),
            TransparentValue::DateTimeUtc(x) => FieldValue::DateTimeUtc(*x),
            TransparentValue::Enum(x) => FieldValue::Enum(x.clone()),
            TransparentValue::List(l) => {
                let mut out: Vec<FieldValue> = Vec::new();
                let mut i: usize = 0;
                while i < l.len()
                    invariant
                        i <= l.len(),
                        out.len() == i,
                        *self == TransparentValue::List(*l),
                        forall|j: int| 0 <= j < i ==> (#[trigger] out[j])@ == l[j]@,
                    decreases l.len() - i,
                {
                    assert(decreases_to!(*self => self->List_0));
                    assert(decreases_to!(*l => l[i as int]));
                    let item = l[i].to_field_value();
                    out.push(item);
                    i += 1;
                }
                proof {
                    lemma_transparent_list_view(*l);
                    lemma_list_view(out);
                    assert(list_view(out@) =~= transparent_list_view(l@));
                }
                FieldValue::List(out)
            },
        }
    }

    /// The same value as a [`TransparentValue`].
    pub fn of_field_value(value: &FieldValue) -> (r: TransparentValue)
        ensures
            r@ == value@,
        decreases *value,
    {
        match value {
            FieldValue::Null => TransparentValue::Null,
            FieldValue::Int64(x) => TransparentValue::Int64(*x),
            FieldValue::Uint64(x) => TransparentValue::Uint64(*x),
            FieldValue::Float64(x) => TransparentValue::Float64(*x),
            FieldValue::String(x) => TransparentValue::String(x.clone()),
            FieldValue::Boolean(x) => TransparentValue::Boolean(*x),
            FieldValue::DateTimeUtc(x) => TransparentValue::DateTimeUtc(*x),
            FieldValue::Enum(x) => TransparentValue::Enum(x.clone()),
            FieldValue::List(l) => {
                let mut out: Vec<TransparentValue> = Vec::new();
                let mut i: usize = 0;
                while i < l.len()
                    invariant
                        i <= l.len(),
                        out.len() == i,
                        *value == FieldValue::List(*l),
                        forall|j: int| 0 <= j < i ==> (#[trigger] out[j])@ == l[j]@,
                    decreases l.len() - i,
                {
                    assert(decreases_to!(*value => value->List_0));
                    assert(decreases_to!(*l => l[i as int]));
                    let item = TransparentValue::of_field_value(&l[i]);
                    out.push(item);
                    i += 1;
                }
                proof {
                    lemma_list_view(*l);
                    lemma_transparent_list_view(out);
                    assert(transparent_list_view(out@) =~= list_view(l@));
                }
                TransparentValue::List(out)
            },
        }
    }
}

impl Clone for TransparentValue {
    fn clone(&self) -> (r: TransparentValue)
        ensures
            r@ == self@,
    {
        TransparentValue::of_field_value(&self.to_field_value())
    }
}

impl From<FieldValue> for TransparentValue {
    fn from(value: FieldValue) -> (r: TransparentValue)
        ensures
            r@ == value@,
    {
        TransparentValue::of_field_value(&value)
    }
}

impl From<TransparentValue> for FieldValue {
    fn from(value: TransparentValue) -> (r: FieldValue)
        ensures
            r@ == value@,
    {
        value.to_field_value()
    }
}

/// The converted value is pinned by its model alone, so the conversion
/// states its result on `from` and not through `from_spec`.
impl vstd::std_specs::convert::FromSpecImpl<FieldValue> for TransparentValue {
    open spec fn obeys_from_spec() -> bool {
        false
    }

    open spec fn from_spec(v: FieldValue) -> TransparentValue {
        choose|r: TransparentValue| r@ == v@
    }
}

impl vstd::std_specs::convert::FromSpecImpl<TransparentValue> for FieldValue {
    open spec fn obeys_from_spec() -> bool {
        false
    }

    open spec fn from_spec(v: TransparentValue) -> FieldValue {
        choose|r: FieldValue| r@ == v@
    }
}

} // verus!
