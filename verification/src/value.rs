//! The values that flow along the edges of a signal graph.
use vstd::prelude::*;

verus! {

/// The shape of an oscillator's output.
#[derive(Debug, Clone, Copy, PartialEq, Eq, Structural)]
pub enum Waveform {
    Sine,
    Square,
    Saw,
    Triangle,
}

/// A single sampled quantity.
#[derive(Debug, Clone, Copy, PartialEq, Eq, Structural)]
pub enum Scalar {
    /// A gate or a trigger.
    Bool(bool),
    /// A bit mask of eight channels.
    Byte(u8),
    /// A whole number, such as a window width.
    Count(u32),
    /// A fixed-point number.
    Num(i64),
    /// A waveform selection.
    Wave(Waveform),
}

/// What one node of the graph yields in one tick.
#[derive(Debug, Clone, Copy, PartialEq, Eq, Structural)]
pub enum Value {
    Bool(bool),
    Byte(u8),
    Count(u32),
    Num(i64),
    Wave(Waveform),
    Pair(Scalar, Scalar),
    Triple(i64, i64, i64),
}

impl Scalar {
    pub open spec fn value(self) -> Value {
        match self {
            Scalar::Bool(b) => Value::Bool(b),
            Scalar::Byte(b) => Value::Byte(b),
            Scalar::Count(n) => Value::Count(n),
            Scalar::Num(x) => Value::Num(x),
            Scalar::Wave(w) => Value::Wave(w),
        }
    }

    pub fn into_value(self) -> (v: Value)
        ensures
            v == self.value(),
    {
        match self {
            Scalar::Bool(b) => Value::Bool(b),
            Scalar::Byte(b) => Value::Byte(b),
            Scalar::Count(n) => Value::Count(n),
            Scalar::Num(x) => Value::Num(x),
            Scalar::Wave(w) => Value::Wave(w),
        }
    }
}

impl Value {
    /// The truth value held; `false` for anything but a `Bool`.
    pub open spec fn bool_spec(self) -> bool {
        match self {
            Value::Bool(b) => b,
            _ => false,
        }
    }

    /// The byte held; zero for anything but a `Byte`.
    pub open spec fn byte_spec(self) -> u8 {
        match self {
            Value::Byte(b) => b,
            _ => 0,
        }
    }

    /// The count held; zero for anything but a `Count`.
    pub open spec fn count_spec(self) -> u32 {
        match self {
            Value::Count(n) => n,
            _ => 0,
        }
    }

    /// The number held; zero for anything but a `Num`.
    pub open spec fn num_spec(self) -> i64 {
        match self {
            Value::Num(x) => x,
            _ => 0,
        }
    }

    /// The waveform held; `Sine` for anything but a `Wave`.
    pub open spec fn wave_spec(self) -> Waveform {
        match self {
            Value::Wave(w) => w,
            _ => Waveform::Sine,
        }
    }

    /// The value as one component of a pair; a compound value counts as the number zero.
    pub open spec fn scalar_spec(self) -> Scalar {
        match self {
            Value::Bool(b) => Scalar::Bool(b),
            Value::Byte(b) => Scalar::Byte(b),
            Value::Count(n) => Scalar::Count(n),
            Value::Num(x) => Scalar::Num(x),
            Value::Wave(w) => Scalar::Wave(w),
            _ => Scalar::Num(0),
        }
    }

    /// The first component of a pair or a triple; the number zero for anything else.
    pub open spec fn first_spec(self) -> Value {
        match self {
            Value::Pair(a, _) => a.value(),
            Value::Triple(a, _, _) => Value::Num(a),
            _ => Value::Num(0),
        }
    }

    /// The second component of a pair or a triple; the number zero for anything else.
    pub open spec fn second_spec(self) -> Value {
        match self {
            Value::Pair(_, b) => b.value(),
            Value::Triple(_, b, _) => Value::Num(b),
            _ => Value::Num(0),
        }
    }

    /// The third component of a triple; the number zero for anything else.
    pub open spec fn third_spec(self) -> Value {
        match self {
            Value::Triple(_, _, c) => Value::Num(c),
            _ => Value::Num(0),
        }
    }

    #[verifier::when_used_as_spec(bool_spec)]
    pub fn as_bool(self) -> (b: bool)
        ensures
            b == self.bool_spec(),
    {
        match self {
            Value::Bool(b) => b,
            _ => false,
        }
    }

    #[verifier::when_used_as_spec(byte_spec)]
    pub fn as_byte(self) -> (b: u8)
        ensures
            b == self.byte_spec(),
    {
        match self {
            Value::Byte(b) => b,
            _ => 0,
        }
    }

    #[verifier::when_used_as_spec(count_spec)]
    pub fn as_count(self) -> (n: u32)
        ensures
            n == self.count_spec(),
    {
        match self {
            Value::Count(n) => n,
            _ => 0,
        }
    }

    #[verifier::when_used_as_spec(num_spec)]
    pub fn as_num(self) -> (x: i64)
        ensures
            x == self.num_spec(),
    {
        match self {
            Value::Num(x) => x,
            _ => 0,
        }
    }

    #[verifier::when_used_as_spec(wave_spec)]
    pub fn as_wave(self) -> (w: Waveform)
        ensures
            w == self.wave_spec(),
    {
        match self {
            Value::Wave(w) => w,
            _ => Waveform::Sine,
        }
    }

    #[verifier::when_used_as_spec(scalar_spec)]
    pub fn as_scalar(self) -> (s: Scalar)
        ensures
            s == self.scalar_spec(),
    {
        match self {
            Value::Bool(b) => Scalar::Bool(b),
            Value::Byte(b) => Scalar::Byte(b),
            Value::Count(n) => Scalar::Count(n),
            Value::Num(x) => Scalar::Num(x),
            Value::Wave(w) => Scalar::Wave(w),
            _ => Scalar::Num(0),
        }
    }

    #[verifier::when_used_as_spec(first_spec)]
    pub fn first(self) -> (v: Value)
        ensures
            v == self.first_spec(),
    {
        match self {
            Value::Pair(a, _) => a.into_value(),
            Value::Triple(a, _, _) => Value::Num(a),
            _ => Value::Num(0),
        }
    }

    #[verifier::when_used_as_spec(second_spec)]
    pub fn second(self) -> (v: Value)
        ensures
            v == self.second_spec(),
    {
        match self {
            Value::Pair(_, b) => b.into_value(),
            Value::Triple(_, b, _) => Value::Num(b),
            _ => Value::Num(0),
        }
    }

    #[verifier::when_used_as_spec(third_spec)]
    pub fn third(self) -> (v: Value)
        ensures
            v == self.third_spec(),
    {
        match self {
            Value::Triple(_, _, c) => Value::Num(c),
            _ => Value::Num(0),
        }
    }
}

/// The `i`-th value of `got`, or the number zero where there is none.
pub open spec fn nth_spec(got: Seq<Value>, i: int) -> Value {
    if 0 <= i < got.len() {
        got[i]
    } else {
        Value::Num(0)
    }
}

/// A type of sample: a Rust type that a `Value` can carry.
pub trait Sample: Sized {
    /// The value that carries `self`.
    spec fn to_value(self) -> Value;

    /// The sample that `v` carries; a default where `v` is of another shape.
    spec fn of_value(v: Value) -> Self;

    /// A value carries its sample unharmed: what is read back is what was
    /// put in.
    proof fn law_round_trip(x: Self)
        ensures
            Self::of_value(x.to_value()) == x,
    ;

    fn into_value(self) -> (v: Value)
        ensures
            v == self.to_value(),
    ;

    fn from_value(v: Value) -> (s: Self)
        ensures
            s == Self::of_value(v),
    ;
}

impl Sample for bool {
    open spec fn to_value(self) -> Value {
        Value::Bool(self)
    }

    open spec fn of_value(v: Value) -> Self {
        v.bool_spec()
    }

    proof fn law_round_trip(x: Self) {
    }

    fn into_value(self) -> (v: Value) {
        Value::Bool(self)
    }

    fn from_value(v: Value) -> (s: Self) {
        v.as_bool()
    }
}

impl Sample for u8 {
    open spec fn to_value(self) -> Value {
        Value::Byte(self)
    }

    open spec fn of_value(v: Value) -> Self {
        v.byte_spec()
    }

    proof fn law_round_trip(x: Self) {
    }

    fn into_value(self) -> (v: Value) {
        Value::Byte(self)
    }

    fn from_value(v: Value) -> (s: Self) {
        v.as_byte()
    }
}

impl Sample for u32 {
    open spec fn to_value(self) -> Value {
        Value::Count(self)
    }

    open spec fn of_value(v: Value) -> Self {
        v.count_spec()
    }

    proof fn law_round_trip(x: Self) {
    }

    fn into_value(self) -> (v: Value) {
        Value::Count(self)
    }

    fn from_value(v: Value) -> (s: Self) {
        v.as_count()
    }
}

impl Sample for i64 {
    open spec fn to_value(self) -> Value {
        Value::Num(self)
    }

    open spec fn of_value(v: Value) -> Self {
        v.num_spec()
    }

    proof fn law_round_trip(x: Self) {
    }

    fn into_value(self) -> (v: Value) {
        Value::Num(self)
    }

    fn from_value(v: Value) -> (s: Self) {
        v.as_num()
    }
}

impl Sample for Waveform {
    open spec fn to_value(self) -> Value {
        Value::Wave(self)
    }

    open spec fn of_value(v: Value) -> Self {
        v.wave_spec()
    }

    proof fn law_round_trip(x: Self) {
    }

    fn into_value(self) -> (v: Value) {
        Value::Wave(self)
    }

    fn from_value(v: Value) -> (s: Self) {
        v.as_wave()
    }
}

impl Sample for Value {
    open spec fn to_value(self) -> Value {
        self
    }

    open spec fn of_value(v: Value) -> Self {
        v
    }

    proof fn law_round_trip(x: Self) {
    }

    fn into_value(self) -> (v: Value) {
        self
    }

    fn from_value(v: Value) -> (s: Self) {
        v
    }
}

/// A sample that is a single quantity, and so can be one half of a pair.
pub trait ScalarSample: Sample {
    /// The value that carries the sample is a scalar.
    proof fn law_scalar(x: Self)
        ensures
            x.to_value().scalar_spec().value() == x.to_value(),
    ;
}

impl ScalarSample for bool {
    proof fn law_scalar(x: Self) {
    }
}

impl ScalarSample for u8 {
    proof fn law_scalar(x: Self) {
    }
}

impl ScalarSample for u32 {
    proof fn law_scalar(x: Self) {
    }
}

impl ScalarSample for i64 {
    proof fn law_scalar(x: Self) {
    }
}

impl ScalarSample for Waveform {
    proof fn law_scalar(x: Self) {
    }
}

impl<A: ScalarSample, B: ScalarSample> Sample for (A, B) {
    open spec fn to_value(self) -> Value {
        Value::Pair(self.0.to_value().scalar_spec(), self.1.to_value().scalar_spec())
    }

    open spec fn of_value(v: Value) -> Self {
        (A::of_value(v.first_spec()), B::of_value(v.second_spec()))
    }

    proof fn law_round_trip(x: Self) {
        A::law_scalar(x.0);
        B::law_scalar(x.1);
        A::law_round_trip(x.0);
        B::law_round_trip(x.1);
    }

    fn into_value(self) -> (v: Value) {
        Value::Pair(self.0.into_value().as_scalar(), self.1.into_value().as_scalar())
    }

    fn from_value(v: Value) -> (s: Self) {
        (A::from_value(v.first()), B::from_value(v.second()))
    }
}

impl Sample for (i64, i64, i64) {
    open spec fn to_value(self) -> Value {
        Value::Triple(self.0, self.1, self.2)
    }

    open spec fn of_value(v: Value) -> Self {
        (v.first_spec().num_spec(), v.second_spec().num_spec(), v.third_spec().num_spec())
    }

    proof fn law_round_trip(x: Self) {
    }

    fn into_value(self) -> (v: Value) {
        Value::Triple(self.0, self.1, self.2)
    }

    fn from_value(v: Value) -> (s: Self) {
        (v.first().as_num(), v.second().as_num(), v.third().as_num())
    }
}

} // verus!
