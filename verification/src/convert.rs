//! Conversions of plain Rust values into [`FieldValue`].
use crate::value::{FieldValue, FieldValueView, FiniteF64, UtcTimestamp};
use vstd::prelude::*;
use vstd::std_specs::convert::IntoSpec;

verus! {

impl From<i8> for FieldValue {
    fn from(v: i8) -> (r: FieldValue)
        ensures
            r@ == FieldValueView::Int64(v as i64),
    {
        FieldValue::Int64(v as i64)
    }
}

impl vstd::std_specs::convert::FromSpecImpl<i8> for FieldValue {
    open spec fn obeys_from_spec() -> bool {
        true
    }

    open spec fn from_spec(v: i8) -> FieldValue {
        FieldValue::Int64(v as i64)
    }
}

impl From<i16> for FieldValue {
    fn from(v: i16) -> (r: FieldValue)
        ensures
            r@ == FieldValueView::Int64(v as i64),
    {
        FieldValue::Int64(v as i64)
    }
}

impl vstd::std_specs::convert::FromSpecImpl<i16> for FieldValue {
    open spec fn obeys_from_spec() -> bool {
        true
    }

    open spec fn from_spec(v: i16) -> FieldValue {
        FieldValue::Int64(v as i64)
    }
}

impl From<i32> for FieldValue {
    fn from(v: i32) -> (r: FieldValue)
        ensures
            r@ == FieldValueView::Int64(v as i64),
    {
        FieldValue::Int64(v as i64)
    }
}

impl vstd::std_specs::convert::FromSpecImpl<i32> for FieldValue {
    open spec fn obeys_from_spec() -> bool {
        true
    }

    open spec fn from_spec(v: i32) -> FieldValue {
        FieldValue::Int64(v as i64)
    }
}

impl From<i64> for FieldValue {
    fn from(v: i64) -> (r: FieldValue)
        ensures
            r@ == FieldValueView::Int64(v),
    {
        FieldValue::Int64(v)
    }
}

impl vstd::std_specs::convert::FromSpecImpl<i64> for FieldValue {
    open spec fn obeys_from_spec() -> bool {
        true
    }

    open spec fn from_spec(v: i64) -> FieldValue {
        FieldValue::Int64(v)
    }
}

impl From<u8> for FieldValue {
    fn from(v: u8) -> (r: FieldValue)
        ensures
            r@ == FieldValueView::Uint64(v as u64),
    {
        FieldValue::Uint64(v as u64)
    }
}

impl vstd::std_specs::convert::FromSpecImpl<u8> for FieldValue {
    open spec fn obeys_from_spec() -> bool {
        true
    }

    open spec fn from_spec(v: u8) -> FieldValue {
        FieldValue::Uint64(v as u64)
    }
}

impl From<u16> for FieldValue {
    fn from(v: u16) -> (r: FieldValue)
        ensures
            r@ == FieldValueView::Uint64(v as u64),
    {
        FieldValue::Uint64(v as u64)
    }
}

impl vstd::std_specs::convert::FromSpecImpl<u16> for FieldValue {
    open spec fn obeys_from_spec() -> bool {
        true
    }

    open spec fn from_spec(v: u16) -> FieldValue {
        FieldValue::Uint64(v as u64)
    }
}

impl From<u32> for FieldValue {
    fn from(v: u32) -> (r: FieldValue)
        ensures
            r@ == FieldValueView::Uint64(v as u64),
    {
        FieldValue::Uint64(v as u64)
    }
}

impl vstd::std_specs::convert::FromSpecImpl<u32> for FieldValue {
    open spec fn obeys_from_spec() -> bool {
        true
    }

    open spec fn from_spec(v: u32) -> FieldValue {
        FieldValue::Uint64(v as u64)
    }
}

impl From<u64> for FieldValue {
    fn from(v: u64) -> (r: FieldValue)
        ensures
            r@ == FieldValueView::Uint64(v),
    {
        FieldValue::Uint64(v)
    }
}

impl vstd::std_specs::convert::FromSpecImpl<u64> for FieldValue {
    open spec fn obeys_from_spec() -> bool {
        true
    }

    open spec fn from_spec(v: u64) -> FieldValue {
        FieldValue::Uint64(v)
    }
}

impl From<bool> for FieldValue {
    fn from(v: bool) -> (r: FieldValue)
        ensures
            r@ == FieldValueView::Boolean(v),
    {
        FieldValue::Boolean(v)
    }
}

impl vstd::std_specs::convert::FromSpecImpl<bool> for FieldValue {
    open spec fn obeys_from_spec() -> bool {
        true
    }

    open spec fn from_spec(v: bool) -> FieldValue {
        FieldValue::Boolean(v)
    }
}

impl From<String> for FieldValue {
    fn from(v: String) -> (r: FieldValue)
        ensures
            r@ == FieldValueView::String(v@),
    {
        FieldValue::String(v)
    }
}

impl vstd::std_specs::convert::FromSpecImpl<String> for FieldValue {
    open spec fn obeys_from_spec() -> bool {
        true
    }

    open spec fn from_spec(v: String) -> FieldValue {
        FieldValue::String(v)
    }
}

impl From<&String> for FieldValue {
    fn from(v: &String) -> (r: FieldValue)
        ensures
            r@ == FieldValueView::String(v@),
    {
        FieldValue::String(v.clone())
    }
}

impl vstd::std_specs::convert::FromSpecImpl<&String> for FieldValue {
    open spec fn obeys_from_spec() -> bool {
        true
    }

    open spec fn from_spec(v: &String) -> FieldValue {
        FieldValue::String(*v)
    }
}

impl From<FiniteF64> for FieldValue {
    fn from(v: FiniteF64) -> (r: FieldValue)
        ensures
            r@ == FieldValueView::Float64(v@),
    {
        FieldValue::Float64(v)
    }
}

impl vstd::std_specs::convert::FromSpecImpl<FiniteF64> for FieldValue {
    open spec fn obeys_from_spec() -> bool {
        true
    }

    open spec fn from_spec(v: FiniteF64) -> FieldValue {
        FieldValue::Float64(v)
    }
}

impl From<UtcTimestamp> for FieldValue {
    fn from(v: UtcTimestamp) -> (r: FieldValue)
        ensures
            r@ == FieldValueView::DateTimeUtc(v),
    {
        FieldValue::DateTimeUtc(v)
    }
}

impl vstd::std_specs::convert::FromSpecImpl<UtcTimestamp> for FieldValue {
    open spec fn obeys_from_spec() -> bool {
        true
    }

    open spec fn from_spec(v: UtcTimestamp) -> FieldValue {
        FieldValue::DateTimeUtc(v)
    }
}

impl From<&str> for FieldValue {
    fn from(v: &str) -> (r: FieldValue)
        ensures
            r@ == FieldValueView::String(v@),
    {
        FieldValue::String(v.to_owned())
    }
}

/// An owned copy of a string slice is pinned by its characters alone, so the
/// conversion states its result on `from` and not through `from_spec`.
impl vstd::std_specs::convert::FromSpecImpl<&str> for FieldValue {
    open spec fn obeys_from_spec() -> bool {
        false
    }

    open spec fn from_spec(v: &str) -> FieldValue {
        choose|r: FieldValue| r@ == FieldValueView::String(v@)
    }
}

impl<T: Into<FieldValue>> From<Option<T>> for FieldValue {
    fn from(opt: Option<T>) -> (r: FieldValue)
        ensures
            opt is None ==> r == FieldValue::Null,
    {
        match opt {
            Some(inner) => inner.into(),
            None => FieldValue::Null,
        }
    }
}

impl<T: Into<FieldValue>> vstd::std_specs::convert::FromSpecImpl<Option<T>> for FieldValue {
    open spec fn obeys_from_spec() -> bool {
        T::obeys_into_spec()
    }

    open spec fn from_spec(opt: Option<T>) -> FieldValue {
        match opt {
            Some(inner) => inner.into_spec(),
            None => FieldValue::Null,
        }
    }
}

impl<T: Into<FieldValue>> From<Vec<T>> for FieldValue {
    fn from(vec: Vec<T>) -> (r: FieldValue)
        ensures
            r is List,
            r->List_0.len() == vec.len(),
            T::obeys_into_spec() ==> forall|i: int|
                0 <= i < vec.len() ==> r->List_0[i] == (#[trigger] vec[i]).into_spec(),
    {
        let mut out: Vec<FieldValue> = Vec::new();
        for item in it: vec
            invariant
                out.len() == it.index(),
                T::obeys_into_spec() ==> forall|i: int|
                    0 <= i < out.len() ==> out[i] == (#[trigger] it.seq()[i]).into_spec(),
        {
            out.push(item.into());
        }
        FieldValue::List(out)
    }
}

/// A list is pinned item by item, so the conversion states its result on
/// `from` and not through `from_spec`.
impl<T: Into<FieldValue>> vstd::std_specs::convert::FromSpecImpl<Vec<T>> for FieldValue {
    open spec fn obeys_from_spec() -> bool {
        false
    }

    open spec fn from_spec(vec: Vec<T>) -> FieldValue {
        choose|r: FieldValue|
            r is List && r->List_0.len() == vec.len() && forall|i: int|
                0 <= i < vec.len() ==> r->List_0[i] == (#[trigger] vec[i]).into_spec()
    }
}

} // verus!
