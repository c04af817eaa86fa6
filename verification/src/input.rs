//! Query literals as they arrive from the query text, and their conversion
//! into [`FieldValue`].
use crate::value::{is_finite_bits, lemma_list_view, list_view, FieldValue, FieldValueView, FiniteF64};
use async_graphql_value::Number;
use vstd::prelude::*;

verus! {

/// `async_graphql_value::Number`, which is `serde_json::Number`: a JSON
/// number. The library carries it and asks it for its readings; it reads
/// nothing inside it.
#[verifier::external_type_specification]
#[verifier::external_body]
pub struct ExNumber(Number);

/// What `Number::as_i64` returns for a number: the number as a signed
/// integer, where it is an integer that fits.
pub uninterp spec fn number_i64(n: Number) -> Option<i64>;

/// What `Number::as_u64` returns for a number: the number as an unsigned
/// integer, where it is an integer that fits.
pub uninterp spec fn number_u64(n: Number) -> Option<u64>;

/// What `Number::as_f64` returns for a number, as the bit pattern of the
/// float.
pub uninterp spec fn number_float_bits(n: Number) -> Option<u64>;

/// Calls `Number::as_i64`. The result depends on the number alone.
#[verifier::external_body]
fn number_as_i64(n: &Number) -> (r: Option<i64>)
    ensures
        r == number_i64(*n),
{
    n.as_i64()
}

/// Calls `Number::as_u64`. The result depends on the number alone.
#[verifier::external_body]
fn number_as_u64(n: &Number) -> (r: Option<u64>)
    ensures
        r == number_u64(*n),
{
    n.as_u64()
}

/// Calls `Number::as_f64` and hands the float over as its bit pattern. The
/// result depends on the number alone. A JSON number is never infinite and
/// never NaN: a float that a number holds is always finite, and so is an
/// integer read as a float. So a float that comes back is finite.
#[verifier::external_body]
fn number_as_float_bits(n: &Number) -> (r: Option<u64>)
    ensures
        r == number_float_bits(*n),
        r matches Some(bits) ==> is_finite_bits(bits),
{
    match n.as_f64() {
        Some(x) => Some(x.to_bits()),
        None => None,
    }
}

/// Whether a conversion's result is the outcome that its model foretells:
/// the value with that model, or the error with that text.
pub open spec fn agrees(
    r: Result<FieldValue, String>,
    outcome: Result<FieldValueView, Seq<char>>,
) -> bool {
    match outcome {
        Ok(v) => r matches Ok(x) && x@ == v,
        Err(e) => r matches Err(x) && x@ == e,
    }
}

/// What a JSON number says of itself when asked for each numeric type.
#[derive(Clone, Copy, Debug, PartialEq, Eq, Structural)]
pub struct NumberReadings {
    pub as_i64: Option<i64>,
    pub as_u64: Option<u64>,
    /// The bit pattern of the number as a binary64 float.
    pub as_float_bits: Option<u64>,
}

impl NumberReadings {
    /// Whether the float reading, where there is one, is a finite float.
    pub open spec fn float_is_finite(self) -> bool {
        self.as_float_bits matches Some(bits) ==> is_finite_bits(bits)
    }

    /// The readings of a number.
    pub open spec fn readings_of(n: Number) -> NumberReadings {
        NumberReadings {
            as_i64: number_i64(n),
            as_u64: number_u64(n),
            as_float_bits: number_float_bits(n),
        }
    }

    /// Asks a JSON number for each of its readings. A float among them is
    /// finite.
    pub fn of(n: &Number) -> (r: NumberReadings)
        ensures
            r == Self::readings_of(*n),
            r.float_is_finite(),
    {
        NumberReadings {
            as_i64: number_as_i64(n),
            as_u64: number_as_u64(n),
            as_float_bits: number_as_float_bits(n),
        }
    }

    /// The value that the readings stand for: the signed integer where there
    /// is one, else the unsigned integer, else the float if it is finite.
    pub open spec fn value(self) -> Result<FieldValueView, Seq<char>> {
        if let Some(i) = self.as_i64 {
            Ok(FieldValueView::Int64(i))
        } else if let Some(u) = self.as_u64 {
            Ok(FieldValueView::Uint64(u))
        } else if let Some(bits) = self.as_float_bits {
            if is_finite_bits(bits) {
                Ok(FieldValueView::Float64(bits))
            } else {
                Err("not a finite (non-infinite, not-NaN) value"@)
            }
        } else {
            Err("not a number of any supported type"@)
        }
    }

    /// Picks the exact integer type before the lossy float: `Int64` before
    /// `Uint64` before `Float64`.
    pub fn to_field_value(&self) -> (r: Result<FieldValue, String>)
        ensures
            agrees(r, self.value()),
    {
        if let Some(i) = self.as_i64 {
            Ok(FieldValue::Int64(i))
        } else if let Some(u) = self.as_u64 {
            Ok(FieldValue::Uint64(u))
        } else if let Some(bits) = self.as_float_bits {
            match FiniteF64::from_bits(bits) {
                Ok(f) => Ok(FieldValue::Float64(f)),
                Err(e) => Err(e.1.to_owned()),
            }
        } else {
            Err("not a number of any supported type".to_owned())
        }
    }
}

/// Converts a JSON number to a [`FieldValue`]: to the value that its
/// readings stand for, the exact integer before the float. The conversion
/// fails for no other reason than that the number has none of the three
/// readings: its float is never rejected.
pub fn convert_number_to_field_value(n: &Number) -> (r: Result<FieldValue, String>)
    ensures
        agrees(r, NumberReadings::readings_of(*n).value()),
        match r {
            Ok(v) => v is Int64 || v is Uint64 || v is Float64,
            Err(e) => e@ == "not a number of any supported type"@,
        },
{
    NumberReadings::of(n).to_field_value()
}

/// A literal of the query text.
#[derive(Debug)]
pub enum InputValue {
    /// A variable, without the `$`.
    Variable(String),
    Null,
    Number(NumberReadings),
    String(String),
    Boolean(bool),
    Binary(Vec<u8>),
    /// An enum value, known by the name of its variant alone.
    Enum(String),
    List(Vec<InputValue>),
    /// An object: its keys with their values, in order.
    Object(Vec<(String, InputValue)>),
}

/// The outcome of converting a list, from the outcomes of its items: the
/// first error in order, or the list of all the values.
#[verifier::opaque]
pub open spec fn collect_outcomes(outcomes: Seq<Result<FieldValueView, Seq<char>>>) -> Result<
    FieldValueView,
    Seq<char>,
> {
    if forall|i: int| 0 <= i < outcomes.len() ==> (#[trigger] outcomes[i]) is Ok {
        Ok(FieldValueView::List(Seq::new(outcomes.len(), |i: int| outcomes[i]->Ok_0)))
    } else {
        let first = choose|i: int|
            0 <= i < outcomes.len() && (#[trigger] outcomes[i]) is Err && forall|j: int|
                0 <= j < i ==> (#[trigger] outcomes[j]) is Ok;
        Err(outcomes[first]->Err_0)
    }
}

/// Outcomes that are all values collect to the list of those values.
pub proof fn lemma_collect_values(
    outcomes: Seq<Result<FieldValueView, Seq<char>>>,
    values: Seq<FieldValueView>,
)
    requires
        outcomes.len() == values.len(),
        forall|i: int| 0 <= i < outcomes.len() ==> #[trigger] outcomes[i] == Ok::<
            FieldValueView,
            Seq<char>,
        >(values[i]),
    ensures
        collect_outcomes(outcomes) == Ok::<FieldValueView, Seq<char>>(FieldValueView::List(values)),
{
    reveal(collect_outcomes);
    assert(Seq::new(outcomes.len(), |i: int| outcomes[i]->Ok_0) =~= values);
}

/// Outcomes whose first error stands at `at` collect to that error.
pub proof fn lemma_collect_error(outcomes: Seq<Result<FieldValueView, Seq<char>>>, at: int)
    requires
        0 <= at < outcomes.len(),
        outcomes[at] is Err,
        forall|j: int| 0 <= j < at ==> (#[trigger] outcomes[j]) is Ok,
    ensures
        collect_outcomes(outcomes) == Err::<FieldValueView, Seq<char>>(outcomes[at]->Err_0),
{
    reveal(collect_outcomes);
    let first = choose|i: int|
        0 <= i < outcomes.len() && (#[trigger] outcomes[i]) is Err && forall|j: int|
            0 <= j < i ==> (#[trigger] outcomes[j]) is Ok;
    if first < at {
        assert(outcomes[first] is Ok);
    } else if at < first {
        assert(outcomes[at] is Ok);
    }
}

impl InputValue {
    /// The field value that a literal denotes, or why it denotes none.
    pub open spec fn outcome(self) -> Result<FieldValueView, Seq<char>>
        decreases self, 1nat,
    {
        match self {
            InputValue::Null => Ok(FieldValueView::Null),
            InputValue::Number(n) => n.value(),
            InputValue::String(s) => Ok(FieldValueView::String(s@)),
            InputValue::Boolean(b) => Ok(FieldValueView::Boolean(b)),
            InputValue::List(_) => collect_outcomes(self.item_outcomes()),
            InputValue::Enum(n) => Ok(FieldValueView::Enum(n@)),
            InputValue::Binary(_) => Err("Binary values are not supported"@),
            InputValue::Variable(_) => Err("Cannot use a variable reference"@),
            InputValue::Object(_) => Err("Object values are not supported"@),
        }
    }

    /// The outcomes of the items of a list literal, in order; empty for
    /// every other literal.
    pub open spec fn item_outcomes(self) -> Seq<Result<FieldValueView, Seq<char>>>
        decreases self, 0nat,
    {
        match self {
            InputValue::List(l) => Seq::new(
                l.len() as nat,
                |i: int|
                    if 0 <= i < l.len() {
                        l[i].outcome()
                    } else {
                        Ok(FieldValueView::Null)
                    },
            ),
            _ => Seq::empty(),
        }
    }

    /// The outcomes of the items of a list, in order.
    pub open spec fn outcomes(items: Seq<InputValue>) -> Seq<Result<FieldValueView, Seq<char>>> {
        Seq::new(items.len(), |i: int| items[i].outcome())
    }

    /// The outcome of a list is collected from the outcomes of its items.
    pub proof fn lemma_list_outcome(items: Vec<InputValue>)
        ensures
            InputValue::List(items).outcome() == collect_outcomes(Self::outcomes(items@)),
    {
        reveal_with_fuel(InputValue::item_outcomes, 2);
        assert(InputValue::List(items).item_outcomes() =~= Self::outcomes(items@));
    }

    /// Converts a literal into the field value it denotes.
    pub fn to_field_value(&self) -> (r: Result<FieldValue, String>)
        ensures
            agrees(r, self.outcome()),
        decreases *self,
    {
        match self {
            InputValue::Null => Ok(FieldValue::Null),
            InputValue::Number(n) => n.to_field_value(),
            InputValue::String(s) => Ok(FieldValue::String(s.clone())),
            InputValue::Boolean(b) => Ok(FieldValue::Boolean(*b)),
            InputValue::List(l) => {
                proof {
                    Self::lemma_list_outcome(*l);
                }
                let mut out: Vec<FieldValue> = Vec::new();
                let mut i: usize = 0;
                while i < l.len()
                    invariant
                        i <= l.len(),
                        out.len() == i,
                        *self == InputValue::List(*l),
                        self.outcome() == collect_outcomes(Self::outcomes(l@)),
                        forall|j: int|
                            0 <= j < i ==> l[j].outcome() == Ok::<FieldValueView, Seq<char>>(
                                (#[trigger] out[j])@,
                            ),
                    decreases l.len() - i,
                {
                    assert(decreases_to!(*self => self->List_0));
                    assert(decreases_to!(*l => l[i as int]));
                    match l[i].to_field_value() {
                        Ok(item) => {
                            out.push(item);
                        },
                        Err(e) => {
                            proof {
                                let outcomes = Self::outcomes(l@);
                                assert forall|j: int| 0 <= j < i implies (
                                #[trigger] outcomes[j]) is Ok by {
                                    assert(l[j].outcome() == Ok::<FieldValueView, Seq<char>>(
                                        out[j]@,
                                    ));
                                }
                                lemma_collect_error(outcomes, i as int);
                            }
                            return Err(e);
                        },
                    }
                    i += 1;
                }
                proof {
                    let outcomes = Self::outcomes(l@);
                    lemma_list_view(out);
                    assert forall|j: int| 0 <= j < outcomes.len() implies #[trigger] outcomes[j]
                        == Ok::<FieldValueView, Seq<char>>(list_view(out@)[j]) by {
                        assert(l[j].outcome() == Ok::<FieldValueView, Seq<char>>(out[j]@));
                    }
                    lemma_collect_values(outcomes, list_view(out@));
                }
                Ok(FieldValue::List(out))
            },
            InputValue::Enum(n) => Ok(FieldValue::Enum(n.clone())),
            InputValue::Binary(_) => Err("Binary values are not supported".to_owned()),
            InputValue::Variable(_) => Err("Cannot use a variable reference".to_owned()),
            InputValue::Object(_) => Err("Object values are not supported".to_owned()),
        }
    }
}

impl TryFrom<InputValue> for FieldValue {
    type Error = String;

    fn try_from(value: InputValue) -> (r: Result<FieldValue, String>)
        ensures
            agrees(r, value.outcome()),
    {
        value.to_field_value()
    }
}

/// The converted value is pinned by its model alone, so the conversion
/// states its result on `try_from` and not through `try_from_spec`.
impl vstd::std_specs::convert::TryFromSpecImpl<InputValue> for FieldValue {
    open spec fn obeys_try_from_spec() -> bool {
        false
    }

    open spec fn try_from_spec(v: InputValue) -> Result<FieldValue, String> {
        choose|r: Result<FieldValue, String>| #[trigger] agrees(r, v.outcome())
    }
}

} // verus!
