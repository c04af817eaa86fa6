//! Values of fields: a tagged union over scalars and lists.
use vstd::prelude::*;

verus! {

/// Clears the sign bit of an IEEE 754 binary64 bit pattern.
pub const MAGNITUDE_MASK: u64 = 0x7fff_ffff_ffff_ffff;

/// The bit pattern of positive infinity; every larger magnitude is a NaN.
pub const INFINITY_BITS: u64 = 0x7ff0_0000_0000_0000;

/// A binary64 bit pattern stands for a finite number exactly when its
/// magnitude lies below that of infinity.
pub open spec fn is_finite_bits(bits: u64) -> bool {
    (bits & MAGNITUDE_MASK) < INFINITY_BITS
}

/// Numeric equality of two finite binary64 bit patterns: the same pattern,
/// or the two zeros, which differ in the sign bit alone.
pub open spec fn float_bits_eq(a: u64, b: u64) -> bool {
    a == b || ((a & MAGNITUDE_MASK) == 0 && (b & MAGNITUDE_MASK) == 0)
}

/// A finite (neither infinite nor NaN) binary64 number, held as its bit pattern.
#[derive(Clone, Copy, Debug)]
pub struct FiniteF64 {
    bits: u64,
}

impl View for FiniteF64 {
    type V = u64;

    closed spec fn view(&self) -> u64 {
        self.bits
    }
}

impl FiniteF64 {
    #[verifier::type_invariant]
    spec fn finite(self) -> bool {
        is_finite_bits(self.bits)
    }

    /// Accepts the bit pattern of a finite number and rejects every other,
    /// handing the pattern back with the reason.
    pub fn from_bits(bits: u64) -> (r: Result<FiniteF64, (u64, &'static str)>)
        ensures
            is_finite_bits(bits) ==> (r matches Ok(f) && f@ == bits),
            !is_finite_bits(bits) ==> (r matches Err(e) && e.0 == bits && e.1@
                == "not a finite (non-infinite, not-NaN) value"@),
    {
        if (bits & MAGNITUDE_MASK) < INFINITY_BITS {
            Ok(FiniteF64 { bits })
        } else {
            Err((bits, "not a finite (non-infinite, not-NaN) value"))
        }
    }

    /// The bit pattern of the number.
    pub fn to_bits(&self) -> (r: u64)
        ensures
            r == self@,
            is_finite_bits(r),
    {
        proof {
            use_type_invariant(self);
        }
        self.bits
    }

    /// Numeric equality: the two zeros are equal to each other.
    pub fn equals(&self, other: &FiniteF64) -> (r: bool)
        ensures
            r == float_bits_eq(self@, other@),
    {
        self.bits == other.bits || ((self.bits & MAGNITUDE_MASK) == 0 && (other.bits
            & MAGNITUDE_MASK) == 0)
    }
}

/// An instant in UTC: whole seconds since the Unix epoch and the nanoseconds
/// within that second.
#[derive(Clone, Copy, Debug, PartialEq, Eq, Structural)]
pub struct UtcTimestamp {
    pub seconds: i64,
    pub nanoseconds: u32,
}

/// Values of fields.
#[derive(Debug)]
pub enum FieldValue {
    Null,
    /// AKA integer
    Int64(i64),
    Uint64(u64),
    /// AKA float; never infinite or NaN
    Float64(FiniteF64),
    String(String),
    Boolean(bool),
    DateTimeUtc(UtcTimestamp),
    Enum(String),
    List(Vec<FieldValue>),
}

/// The mathematical model of a field value.
pub enum FieldValueView {
    Null,
    Int64(i64),
    Uint64(u64),
    /// The bit pattern of the number.
    Float64(u64),
    String(Seq<char>),
    Boolean(bool),
    DateTimeUtc(UtcTimestamp),
    Enum(Seq<char>),
    List(Seq<FieldValueView>),
}

impl View for FieldValue {
    type V = FieldValueView;

    open spec fn view(&self) -> FieldValueView
        decreases self,
    {
        match self {
            FieldValue::Null => FieldValueView::Null,
            FieldValue::Int64(i) => FieldValueView::Int64(*i),
            FieldValue::Uint64(u) => FieldValueView::Uint64(*u),
            FieldValue::Float64(f) => FieldValueView::Float64(f@),
            FieldValue::String(s) => FieldValueView::String(s@),
            FieldValue::Boolean(b) => FieldValueView::Boolean(*b),
            FieldValue::DateTimeUtc(t) => FieldValueView::DateTimeUtc(*t),
            FieldValue::Enum(s) => FieldValueView::Enum(s@),
            FieldValue::List(l) => FieldValueView::List(
                Seq::new(
                    l.len() as nat,
                    |i: int|
                        if 0 <= i < l.len() {
                            l[i]@
                        } else {
                            FieldValueView::Null
                        },
                ),
            ),
        }
    }
}

/// The model of a list of values: the models of its items, in order.
pub open spec fn list_view(items: Seq<FieldValue>) -> Seq<FieldValueView> {
    Seq::new(items.len(), |i: int| items[i]@)
}

/// The model of a list value is the list of its items' models.
pub proof fn lemma_list_view(items: Vec<FieldValue>)
    ensures
        FieldValue::List(items)@ == FieldValueView::List(list_view(items@)),
{
    reveal_with_fuel(<FieldValue as View>::view, 2);
    assert(FieldValue::List(items)@->List_0 =~= list_view(items@));
}

impl FieldValueView {
    /// Equality of values: equal payloads within one variant, floats by
    /// number, lists item by item; values of different variants are unequal.
    pub open spec fn equals(self, other: FieldValueView) -> bool
        decreases self,
    {
        match (self, other) {
            (FieldValueView::Null, FieldValueView::Null) => true,
            (FieldValueView::Int64(a), FieldValueView::Int64(b)) => a == b,
            (FieldValueView::Uint64(a), FieldValueView::Uint64(b)) => a == b,
            (FieldValueView::Float64(a), FieldValueView::Float64(b)) => float_bits_eq(a, b),
            (FieldValueView::String(a), FieldValueView::String(b)) => a == b,
            (FieldValueView::Boolean(a), FieldValueView::Boolean(b)) => a == b,
            (FieldValueView::DateTimeUtc(a), FieldValueView::DateTimeUtc(b)) => a == b,
            (FieldValueView::Enum(a), FieldValueView::Enum(b)) => a == b,
            (FieldValueView::List(a), FieldValueView::List(b)) => a.len() == b.len()
                && forall|i: int| 0 <= i < a.len() ==> (#[trigger] a[i]).equals(b[i]),
            _ => false,
        }
    }

    /// The number that an integer value stands for; no other value has one.
    /// Values are ordered by this number.
    pub open spec fn integer(self) -> Option<int> {
        match self {
            FieldValueView::Int64(i) => Some(i as int),
            FieldValueView::Uint64(u) => Some(u as int),
            _ => None,
        }
    }

    /// The value as a signed integer, where it is an integer that fits.
    pub open spec fn as_i64(self) -> Option<i64> {
        match self {
            FieldValueView::Int64(i) => Some(i),
            FieldValueView::Uint64(u) => if u <= i64::MAX {
                Some(u as i64)
            } else {
                None
            },
            _ => None,
        }
    }

    /// The value as an unsigned integer, where it is an integer that fits.
    pub open spec fn as_u64(self) -> Option<u64> {
        match self {
            FieldValueView::Uint64(u) => Some(u),
            FieldValueView::Int64(i) => if i >= 0 {
                Some(i as u64)
            } else {
                None
            },
            _ => None,
        }
    }

    /// The value as a machine-sized unsigned integer, where it is an integer that fits.
    pub open spec fn as_usize(self) -> Option<usize> {
        match self {
            FieldValueView::Uint64(u) => if u <= usize::MAX {
                Some(u as usize)
            } else {
                None
            },
            FieldValueView::Int64(i) => if 0 <= i <= usize::MAX {
                Some(i as usize)
            } else {
                None
            },
            _ => None,
        }
    }
}

/// Equality of values is symmetric.
pub proof fn equals_is_symmetric(a: FieldValueView, b: FieldValueView)
    requires
        a.equals(b),
    ensures
        b.equals(a),
    decreases a,
{
    match (a, b) {
        (FieldValueView::List(x), FieldValueView::List(y)) => {
            assert forall|i: int| 0 <= i < y.len() implies (#[trigger] y[i]).equals(x[i]) by {
                assert(x[i].equals(y[i]));
                equals_is_symmetric(x[i], y[i]);
            }
        },
        _ => {},
    }
}

/// Equality of values is transitive.
pub proof fn equals_is_transitive(a: FieldValueView, b: FieldValueView, c: FieldValueView)
    requires
        a.equals(b),
        b.equals(c),
    ensures
        a.equals(c),
    decreases a,
{
    match (a, b, c) {
        (FieldValueView::List(x), FieldValueView::List(y), FieldValueView::List(z)) => {
            assert forall|i: int| 0 <= i < x.len() implies (#[trigger] x[i]).equals(z[i]) by {
                assert(x[i].equals(y[i]));
                assert(y[i].equals(z[i]));
                equals_is_transitive(x[i], y[i], z[i]);
            }
        },
        _ => {},
    }
}

/// Every value is equal to itself.
pub proof fn equals_is_reflexive(a: FieldValueView)
    ensures
        a.equals(a),
    decreases a,
{
    match a {
        FieldValueView::List(x) => {
            assert forall|i: int| 0 <= i < x.len() implies (#[trigger] x[i]).equals(x[i]) by {
                equals_is_reflexive(x[i]);
            }
        },
        _ => {},
    }
}

/// Equal values stand for the same number, or for none.
pub proof fn lemma_equals_same_integer(a: FieldValueView, b: FieldValueView)
    requires
        a.equals(b),
    ensures
        a.integer() == b.integer(),
{
}

impl FieldValue {
    pub fn as_i64(&self) -> (r: Option<i64>)
        ensures
            r == self@.as_i64(),
    {
        match self {
            FieldValue::Uint64(u) => {
                if *u <= 0x7fff_ffff_ffff_ffff {
                    Some(*u as i64)
                } else {
                    None
                }
            },
            FieldValue::Int64(i) => Some(*i),
            _ => None,
        }
    }

    pub fn as_u64(&self) -> (r: Option<u64>)
        ensures
            r == self@.as_u64(),
    {
        match self {
            FieldValue::Uint64(u) => Some(*u),
            FieldValue::Int64(i) => {
                if *i >= 0 {
                    Some(*i as u64)
                } else {
                    None
                }
            },
            _ => None,
        }
    }

    pub fn as_usize(&self) -> (r: Option<usize>)
        ensures
            r == self@.as_usize(),
    {
        match self {
            FieldValue::Uint64(u) => {
                if *u <= usize::MAX as u64 {
                    Some(*u as usize)
                } else {
                    None
                }
            },
            FieldValue::Int64(i) => {
                if *i >= 0 && *i as u64 <= usize::MAX as u64 {
                    Some(*i as usize)
                } else {
                    None
                }
            },
            _ => None,
        }
    }

    /// The number by which an integer value is ordered.
    pub fn integer(&self) -> (r: Option<i128>)
        ensures
            match self@.integer() {
                Some(n) => r == Some(n as i128),
                None => r is None,
            },
    {
        match self {
            FieldValue::Int64(i) => Some(*i as i128),
            FieldValue::Uint64(u) => Some(*u as i128),
            _ => None,
        }
    }

    pub fn as_str(&self) -> (r: Option<&str>)
        ensures
            match self@ {
                FieldValueView::String(s) => r matches Some(t) && t@ == s,
                _ => r is None,
            },
    {
        match self {
            FieldValue::String(s) => Some(s.as_str()),
            _ => None,
        }
    }

    pub fn as_bool(&self) -> (r: Option<bool>)
        ensures
            match self@ {
                FieldValueView::Boolean(b) => r == Some(b),
                _ => r is None,
            },
    {
        match self {
            FieldValue::Boolean(b) => Some(*b),
            _ => None,
        }
    }

    /// Whether two values are equal; see [`FieldValueView::equals`].
    pub fn equals(&self, other: &FieldValue) -> (r: bool)
        ensures
            r == self@.equals(other@),
        decreases *self,
    {
        match (self, other) {
            (FieldValue::Null, FieldValue::Null) => true,
            (FieldValue::Int64(a), FieldValue::Int64(b)) => *a == *b,
            (FieldValue::Uint64(a), FieldValue::Uint64(b)) => *a == *b,
            (FieldValue::Float64(a), FieldValue::Float64(b)) => a.equals(b),
            (FieldValue::String(a), FieldValue::String(b)) => *a == *b,
            (FieldValue::Boolean(a), FieldValue::Boolean(b)) => *a == *b,
            (FieldValue::DateTimeUtc(a), FieldValue::DateTimeUtc(b)) => *a == *b,
            (FieldValue::Enum(a), FieldValue::Enum(b)) => *a == *b,
            (FieldValue::List(a), FieldValue::List(b)) => {
                proof {
                    lemma_list_view(*a);
                    lemma_list_view(*b);
                }
                if a.len() != b.len() {
                    return false;
                }
                let mut i: usize = 0;
                while i < a.len()
                    invariant
                        i <= a.len(),
                        a.len() == b.len(),
                        *self == FieldValue::List(*a),
                        self@ == FieldValueView::List(list_view(a@)),
                        other@ == FieldValueView::List(list_view(b@)),
                        forall|j: int| 0 <= j < i ==> (#[trigger] a[j])@.equals(b[j]@),
                    decreases a.len() - i,
                {
                    assert(decreases_to!(*self => *a));
                    assert(decreases_to!(*a => a[i as int]));
                    if !a[i].equals(&b[i]) {
                        assert(!list_view(a@)[i as int].equals(list_view(b@)[i as int]));
                        return false;
                    }
                    i += 1;
                }
                assert forall|j: int| 0 <= j < a.len() implies (#[trigger] list_view(a@)[j]).equals(
                    list_view(b@)[j],
                ) by {
                    assert(a[j]@.equals(b[j]@));
                }
                true
            },
            _ => false,
        }
    }

    /// A copy of the value.
    pub fn duplicate(&self) -> (r: FieldValue)
        ensures
            r@ == self@,
        decreases *self,
    {
        match self {
            FieldValue::Null => FieldValue::Null,
            FieldValue::Int64(i) => FieldValue::Int64(*i),
            FieldValue::Uint64(u) => FieldValue::Uint64(*u),
            FieldValue::Float64(f) => FieldValue::Float64(*f),
            FieldValue::String(s) => FieldValue::String(s.clone()),
            FieldValue::Boolean(b) => FieldValue::Boolean(*b),
            FieldValue::DateTimeUtc(t) => FieldValue::DateTimeUtc(*t),
            FieldValue::Enum(s) => FieldValue::Enum(s.clone()),
            FieldValue::List(l) => {
                let mut out: Vec<FieldValue> = Vec::new();
                let mut i: usize = 0;
                while i < l.len()
                    invariant
                        i <= l.len(),
                        out.len() == i,
                        *self == FieldValue::List(*l),
                        forall|j: int| 0 <= j < i ==> (#[trigger] out[j])@ == l[j]@,
                    decreases l.len() - i,
                {
                    assert(decreases_to!(*self => self->List_0));
                    assert(decreases_to!(*l => l[i as int]));
                    let item = l[i].duplicate();
                    out.push(item);
                    i += 1;
                }
                proof {
                    lemma_list_view(*l);
                    lemma_list_view(out);
                    assert(list_view(out@) =~= list_view(l@));
                }
                FieldValue::List(out)
            },
        }
    }
}

impl FieldValue {
    /// Applies `inner` to the items of a list, front to back, and collects
    /// the results; gives up at the first item for which `inner` has none.
    pub fn as_vec<'a, T>(&'a self, inner: impl Fn(&'a FieldValue) -> Option<T>) -> (r: Option<
        Vec<T>,
    >)
        requires
            self matches FieldValue::List(l) ==> forall|i: int|
                0 <= i < l.len() ==> call_requires(inner, (&#[trigger] l[i],)),
        ensures
            !(self is List) ==> r is None,
            self matches FieldValue::List(l) ==> match r {
                Some(v) => v.len() == l.len() && forall|i: int|
                    0 <= i < l.len() ==> call_ensures(inner, (&l[i],), Some(#[trigger] v[i])),
                None => exists|i: int|
                    0 <= i < l.len() && call_ensures(inner, (&#[trigger] l[i],), None::<T>),
            },
    {
        match self {
            FieldValue::List(l) => {
                let mut out: Vec<T> = Vec::new();
                let mut i: usize = 0;
                while i < l.len()
                    invariant
                        i <= l.len(),
                        out.len() == i,
                        *self == FieldValue::List(*l),
                        forall|j: int|
                            0 <= j < l.len() ==> call_requires(inner, (&#[trigger] l[j],)),
                        forall|j: int|
                            0 <= j < i ==> call_ensures(inner, (&l[j],), Some(#[trigger] out[j])),
                    decreases l.len() - i,
                {
                    let outcome: Option<T> = inner(&l[i]);
                    match outcome {
                        Some(item) => {
                            out.push(item);
                        },
                        None => {
                            assert(self->List_0 == *l);
                            assert(call_ensures(inner, (&l[i as int],), None::<T>));
                            return None;
                        },
                    }
                    i += 1;
                }
                Some(out)
            },
            _ => None,
        }
    }
}

impl AsRef<FieldValue> for FieldValue {
    fn as_ref(&self) -> (r: &FieldValue)
        ensures
            *r == *self,
    {
        self
    }
}

impl Clone for FieldValue {
    fn clone(&self) -> (r: FieldValue)
        ensures
            r@ == self@,
    {
        self.duplicate()
    }
}

impl PartialEq for FieldValue {
    fn eq(&self, other: &FieldValue) -> (r: bool) {
        self.equals(other)
    }
}

impl Eq for FieldValue {

}

impl vstd::std_specs::cmp::PartialEqSpecImpl for FieldValue {
    open spec fn obeys_eq_spec() -> bool {
        true
    }

    open spec fn eq_spec(&self, other: &FieldValue) -> bool {
        self@.equals(other@)
    }
}

} // verus!
