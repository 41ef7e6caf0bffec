//! Runtime values.

use vstd::prelude::*;
use crate::obj::Obj;

verus! {

/// Everything of a number's bit pattern but its sign.
pub const MAGNITUDE_MASK: u64 = 0x7fff_ffff_ffff_ffff;

/// The bit pattern of positive infinity; every larger magnitude is a NaN.
pub const INFINITY_BITS: u64 = 0x7ff0_0000_0000_0000;

/// The sign bit of a number's bit pattern.
pub const SIGN_BIT: u64 = 0x8000_0000_0000_0000;

/// A number's bit pattern with the sign cleared.
pub open spec fn magnitude(bits: u64) -> u64 {
    bits & MAGNITUDE_MASK
}

/// Whether the bit pattern has its sign bit set.
pub open spec fn is_negative(bits: u64) -> bool {
    bits & SIGN_BIT != 0
}

/// Whether the bit pattern is a NaN.
pub open spec fn is_nan(bits: u64) -> bool {
    magnitude(bits) > INFINITY_BITS
}

/// Where a number that is not a NaN stands on the number line, up to a
/// monotone relabelling: both zeros stand at 0.
pub open spec fn number_rank(bits: u64) -> int {
    if is_negative(bits) {
        -(magnitude(bits) as int)
    } else {
        magnitude(bits) as int
    }
}

/// Numeric equality of two bit patterns: a NaN equals nothing, and the two
/// zeros are equal.
pub open spec fn number_eq(a: u64, b: u64) -> bool {
    !is_nan(a) && !is_nan(b) && number_rank(a) == number_rank(b)
}

/// Numeric `a < b` on bit patterns; false when either is a NaN.
pub open spec fn number_lt(a: u64, b: u64) -> bool {
    !is_nan(a) && !is_nan(b) && number_rank(a) < number_rank(b)
}

/// The bit pattern of the arithmetic negation: the sign bit flipped.
pub open spec fn number_neg(bits: u64) -> u64 {
    bits ^ SIGN_BIT
}


/// Decides [`is_nan`].
pub fn number_is_nan(bits: u64) -> (res: bool)
    ensures
        res == is_nan(bits),
{
    (bits & MAGNITUDE_MASK) > INFINITY_BITS
}

/// Decides [`number_eq`].
pub fn number_equals(a: u64, b: u64) -> (res: bool)
    ensures
        res == number_eq(a, b),
{
    let ma: u64 = a & MAGNITUDE_MASK;
    let mb: u64 = b & MAGNITUDE_MASK;
    if ma > INFINITY_BITS || mb > INFINITY_BITS {
        return false;
    }
    proof {
        lemma_sign_and_magnitude(a);
        lemma_sign_and_magnitude(b);
    }
    a == b || (ma == 0 && mb == 0)
}

/// Decides [`number_lt`].
pub fn number_less(a: u64, b: u64) -> (res: bool)
    ensures
        res == number_lt(a, b),
{
    let ma: u64 = a & MAGNITUDE_MASK;
    let mb: u64 = b & MAGNITUDE_MASK;
    if ma > INFINITY_BITS || mb > INFINITY_BITS {
        return false;
    }
    let a_negative = (a & SIGN_BIT) != 0;
    let b_negative = (b & SIGN_BIT) != 0;
    if a_negative {
        if b_negative {
            mb < ma
        } else {
            ma != 0 || mb != 0
        }
    } else {
        !b_negative && ma < mb
    }
}

/// Computes [`number_neg`].
pub fn number_negate(bits: u64) -> (res: u64)
    ensures
        res == number_neg(bits),
{
    bits ^ SIGN_BIT
}

/// A bit pattern is its sign bit together with its magnitude.
pub proof fn lemma_sign_and_magnitude(bits: u64)
    ensures
        is_negative(bits) ==> bits == magnitude(bits) + SIGN_BIT,
        !is_negative(bits) ==> bits == magnitude(bits),
        magnitude(bits) <= MAGNITUDE_MASK,
{
    assert((bits & 0x8000_0000_0000_0000u64) != 0 ==> bits == (bits & 0x7fff_ffff_ffff_ffffu64)
        + 0x8000_0000_0000_0000u64) by (bit_vector);
    assert((bits & 0x8000_0000_0000_0000u64) == 0 ==> bits == (bits & 0x7fff_ffff_ffff_ffffu64))
        by (bit_vector);
    assert((bits & 0x7fff_ffff_ffff_ffffu64) <= 0x7fff_ffff_ffff_ffffu64) by (bit_vector);
}

/// Negation keeps the magnitude, flips the sign, and undoes itself.
pub proof fn lemma_negation(bits: u64)
    ensures
        magnitude(number_neg(bits)) == magnitude(bits),
        is_negative(number_neg(bits)) == !is_negative(bits),
        is_nan(number_neg(bits)) == is_nan(bits),
        number_rank(number_neg(bits)) == -number_rank(bits),
        number_neg(number_neg(bits)) == bits,
{
    assert(((bits ^ 0x8000_0000_0000_0000u64) & 0x7fff_ffff_ffff_ffffu64) == (bits
        & 0x7fff_ffff_ffff_ffffu64)) by (bit_vector);
    assert((((bits ^ 0x8000_0000_0000_0000u64) & 0x8000_0000_0000_0000u64) != 0) == !((bits
        & 0x8000_0000_0000_0000u64) != 0)) by (bit_vector);
    assert(((bits ^ 0x8000_0000_0000_0000u64) ^ 0x8000_0000_0000_0000u64) == bits)
        by (bit_vector);
}

/// A runtime value: what a constant holds and what a stack slot holds.
#[derive(Debug)]
pub enum Value {
    /// The absence of a value.
    Nil,
    /// A truth value.
    Boolean(bool),
    /// A double-precision number, held by its IEEE-754 bit pattern.
    Number(u64),
    /// A heap object.
    Obj(Box<Obj>),
}

/// What a [`Value`] denotes.
pub enum ValueView {
    Nil,
    Boolean(bool),
    Number(u64),
    Str(Seq<char>),
}

impl View for Value {
    type V = ValueView;

    open spec fn view(&self) -> ValueView {
        match self {
            Value::Nil => ValueView::Nil,
            Value::Boolean(b) => ValueView::Boolean(*b),
            Value::Number(bits) => ValueView::Number(*bits),
            Value::Obj(o) => ValueView::Str(o@),
        }
    }
}

impl ValueView {
    /// A value is falsy when it is `Nil` or `Boolean(false)`, and truthy
    /// otherwise.
    pub open spec fn is_falsey(self) -> bool {
        match self {
            ValueView::Nil => true,
            ValueView::Boolean(b) => !b,
            _ => false,
        }
    }

    /// Equality of values: same variant and equal contents. Two numbers are
    /// equal when they are the same number, bit for bit, or numerically equal
    /// by [`number_eq`], as the two zeros are. Values of different variants
    /// are never equal.
    pub open spec fn equals(self, other: ValueView) -> bool {
        match (self, other) {
            (ValueView::Nil, ValueView::Nil) => true,
            (ValueView::Boolean(a), ValueView::Boolean(b)) => a == b,
            (ValueView::Number(a), ValueView::Number(b)) => a == b || number_eq(a, b),
            (ValueView::Str(a), ValueView::Str(b)) => a == b,
            _ => false,
        }
    }

    /// The display form of a value: `nil`, `true` or `false`, and the text of
    /// a string as it is, without quotes. `None` for a number, whose display
    /// form is its decimal notation, which this library does not compute.
    pub open spec fn display(self) -> Option<Seq<char>> {
        match self {
            ValueView::Nil => Some("nil"@),
            ValueView::Boolean(b) => Some(
                if b {
                    "true"@
                } else {
                    "false"@
                },
            ),
            ValueView::Number(_) => None,
            ValueView::Str(text) => Some(text),
        }
    }

    /// Whether two values are of the same variant.
    pub open spec fn same_variant(self, other: ValueView) -> bool {
        match (self, other) {
            (ValueView::Nil, ValueView::Nil) => true,
            (ValueView::Boolean(_), ValueView::Boolean(_)) => true,
            (ValueView::Number(_), ValueView::Number(_)) => true,
            (ValueView::Str(_), ValueView::Str(_)) => true,
            _ => false,
        }
    }
}

/// The views of a sequence of values.
pub open spec fn views(values: Seq<Value>) -> Seq<ValueView> {
    values.map_values(|v: Value| v@)
}

impl Clone for Value {
    fn clone(&self) -> (res: Self)
        ensures
            res@ == self@,
    {
        match self {
            Value::Nil => Value::Nil,
            Value::Boolean(b) => Value::Boolean(*b),
            Value::Number(bits) => Value::Number(*bits),
            Value::Obj(o) => {
                let copy: Obj = (&**o).clone();
                Value::Obj(Box::new(copy))
            },
        }
    }
}

impl PartialEq for Value {
    fn eq(&self, other: &Self) -> (res: bool) {
        match (self, other) {
            (Value::Nil, Value::Nil) => true,
            (Value::Boolean(a), Value::Boolean(b)) => *a == *b,
            (Value::Number(a), Value::Number(b)) => *a == *b || number_equals(*a, *b),
            (Value::Obj(a), Value::Obj(b)) => *a.as_string() == *b.as_string(),
            _ => false,
        }
    }
}

impl vstd::std_specs::cmp::PartialEqSpecImpl for Value {
    open spec fn obeys_eq_spec() -> bool {
        true
    }

    open spec fn eq_spec(&self, other: &Self) -> bool {
        self@.equals(other@)
    }
}

impl Value {
    /// Whether the value counts as false in a boolean context.
    pub fn is_falsey(&self) -> (res: bool)
        ensures
            res == self@.is_falsey(),
            res <==> (self@ == ValueView::Nil || self@ == ValueView::Boolean(false)),
    {
        match self {
            Value::Nil => true,
            Value::Boolean(b) => !*b,
            Value::Number(_) => false,
            Value::Obj(_) => false,
        }
    }

    /// The display form of the value, where the library can give it: `None`
    /// for a number, which is for the caller to format.
    pub fn display(&self) -> (res: Option<String>)
        ensures
            match res {
                Some(text) => self@.display() == Some(text@),
                None => self@.display() is None,
            },
    {
        match self {
            Value::Nil => Some(String::from_str("nil")),
            Value::Boolean(b) => Some(
                if *b {
                    String::from_str("true")
                } else {
                    String::from_str("false")
                },
            ),
            Value::Number(_) => None,
            Value::Obj(o) => Some(o.as_string().clone()),
        }
    }

    /// A string value holding a copy of `text`.
    pub fn string(text: &str) -> (res: Value)
        ensures
            res@ == ValueView::Str(text@),
    {
        Value::Obj(Box::new(Obj::Str(String::from_str(text))))
    }
}

/// Equality is reflexive: every value equals itself.
pub proof fn lemma_equality_reflexive(v: ValueView)
    ensures
        v.equals(v),
{
}

/// Equality is symmetric.
pub proof fn lemma_equality_symmetric(a: ValueView, b: ValueView)
    ensures
        a.equals(b) == b.equals(a),
{
}

/// Values of different variants are never equal.
pub proof fn lemma_cross_variant_unequal(a: ValueView, b: ValueView)
    requires
        !a.same_variant(b),
    ensures
        !a.equals(b),
{
}

/// The only falsy values are `Nil` and `Boolean(false)`: every number and
/// every string is truthy, zero and the empty string included.
pub proof fn lemma_falsey_values(v: ValueView)
    ensures
        v.is_falsey() <==> (v == ValueView::Nil || v == ValueView::Boolean(false)),
        v is Number ==> !v.is_falsey(),
        v is Str ==> !v.is_falsey(),
{
}

/// A growable sequence of values.
#[derive(Debug)]
pub struct ValueArray {
    pub values: Vec<Value>,
}

impl View for ValueArray {
    type V = Seq<ValueView>;

    open spec fn view(&self) -> Seq<ValueView> {
        views(self.values@)
    }
}

impl ValueArray {
    /// An empty array.
    pub fn new() -> (res: ValueArray)
        ensures
            res@ == Seq::<ValueView>::empty(),
    {
        let res = ValueArray { values: Vec::new() };
        assert(res@ =~= Seq::<ValueView>::empty());
        res
    }

    /// Appends `value`.
    pub fn add(&mut self, value: Value)
        ensures
            final(self)@ == old(self)@.push(value@),
            final(self).values@ == old(self).values@.push(value),
    {
        self.values.push(value);
        assert(self@ =~= old(self)@.push(value@));
    }

    /// The number of values held.
    pub fn len(&self) -> (res: usize)
        ensures
            res == self@.len(),
    {
        self.values.len()
    }
}

} // verus!
