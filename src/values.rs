//! The numeric/temporal taxonomy: the closed set of field kinds, the values a
//! field holds, the store's native values, and the conversions between them.
//!
//! The store natively holds 64-bit signed integers, 64-bit floats, text,
//! booleans, one temporal type and lists of those. Binding widens a declared
//! integer to the store's integer; reading narrows it back with a checked
//! conversion. Floats are carried as the bit patterns of their 64-bit form:
//! widening a 32-bit float, and narrowing it back, happen where the float is
//! produced and consumed.
use vstd::prelude::*;
use crate::error::{Error, ErrorView};

verus! {

/// A declared numeric type.
#[derive(Clone, Copy, Debug, PartialEq, Eq, Structural)]
pub enum Num {
    I8,
    I16,
    I32,
    I64,
    I128,
    U8,
    U16,
    U32,
    U64,
    U128,
    F32,
    F64,
    Isize,
    Usize,
}

/// What kind of value a field holds.
#[derive(Clone, Copy, Debug, PartialEq, Eq, Structural)]
pub enum Kind {
    Text,
    Boolean,
    Number(Num),
    DateTimeUtc,
    /// A list in the store's native list representation.
    Collection,
    /// Any other value, passed to and from the store as it is.
    Other,
}

/// A field's declared type: its kind, and whether it is wrapped in an `Option`.
#[derive(Clone, Copy, Debug, PartialEq, Eq, Structural)]
pub struct FieldType {
    pub kind: Kind,
    pub optional: bool,
}

impl FieldType {
    /// Whether values of this type may be absent.
    pub fn is_option(&self) -> (r: bool)
        ensures
            r == self.optional,
    {
        self.optional
    }
}

/// A point in time in UTC: seconds since the Unix epoch and the nanoseconds past them.
#[derive(Clone, Copy, Debug, PartialEq, Eq, Structural)]
pub struct Timestamp {
    pub secs: i64,
    pub nanos: u32,
}

/// A value of one of the declared integer types.
#[derive(Clone, Copy, Debug, PartialEq, Eq, Structural)]
pub enum Number {
    I8(i8),
    I16(i16),
    I32(i32),
    I64(i64),
    I128(i128),
    U8(u8),
    U16(u16),
    U32(u32),
    U64(u64),
    U128(u128),
    Isize(isize),
    Usize(usize),
}

/// An element of a native list.
#[derive(Clone, Debug, PartialEq, Eq)]
pub enum Scalar {
    Int(i64),
    /// A 64-bit float, by its bit pattern.
    Float(u64),
    Text(String),
    Bool(bool),
    DateTime(Timestamp),
}

/// A value as the store holds it.
#[derive(Clone, Debug, PartialEq, Eq)]
pub enum Value {
    Null,
    Int(i64),
    /// A 64-bit float, by its bit pattern.
    Float(u64),
    Text(String),
    Bool(bool),
    DateTime(Timestamp),
    List(Vec<Scalar>),
}

/// A value of a field, as the record declares it.
#[derive(Clone, Debug, PartialEq, Eq)]
pub enum FieldValue {
    /// No value, for an optional field.
    Absent,
    Text(String),
    Bool(bool),
    Number(Number),
    /// A value of a float kind, by the bit pattern of its 64-bit form.
    Float(u64),
    DateTime(Timestamp),
    List(Vec<Scalar>),
    /// A value of kind [`Kind::Other`].
    Other(Value),
}

pub enum ScalarView {
    Int(i64),
    Float(u64),
    Text(Seq<char>),
    Bool(bool),
    DateTime(Timestamp),
}

pub enum ValueView {
    Null,
    Int(i64),
    Float(u64),
    Text(Seq<char>),
    Bool(bool),
    DateTime(Timestamp),
    List(Seq<ScalarView>),
}

pub enum FieldValueView {
    Absent,
    Text(Seq<char>),
    Bool(bool),
    Number(Number),
    Float(u64),
    DateTime(Timestamp),
    List(Seq<ScalarView>),
    Other(ValueView),
}

impl View for Scalar {
    type V = ScalarView;

    open spec fn view(&self) -> ScalarView {
        match self {
            Scalar::Int(i) => ScalarView::Int(*i),
            Scalar::Float(b) => ScalarView::Float(*b),
            Scalar::Text(s) => ScalarView::Text(s@),
            Scalar::Bool(b) => ScalarView::Bool(*b),
            Scalar::DateTime(t) => ScalarView::DateTime(*t),
        }
    }
}

pub open spec fn scalars_view(l: Seq<Scalar>) -> Seq<ScalarView> {
    l.map_values(|s: Scalar| s@)
}

impl View for Value {
    type V = ValueView;

    open spec fn view(&self) -> ValueView {
        match self {
            Value::Null => ValueView::Null,
            Value::Int(i) => ValueView::Int(*i),
            Value::Float(b) => ValueView::Float(*b),
            Value::Text(s) => ValueView::Text(s@),
            Value::Bool(b) => ValueView::Bool(*b),
            Value::DateTime(t) => ValueView::DateTime(*t),
            Value::List(l) => ValueView::List(scalars_view(l@)),
        }
    }
}

impl View for FieldValue {
    type V = FieldValueView;

    open spec fn view(&self) -> FieldValueView {
        match self {
            FieldValue::Absent => FieldValueView::Absent,
            FieldValue::Text(s) => FieldValueView::Text(s@),
            FieldValue::Bool(b) => FieldValueView::Bool(*b),
            FieldValue::Number(n) => FieldValueView::Number(*n),
            FieldValue::Float(b) => FieldValueView::Float(*b),
            FieldValue::DateTime(t) => FieldValueView::DateTime(*t),
            FieldValue::List(l) => FieldValueView::List(scalars_view(l@)),
            FieldValue::Other(v) => FieldValueView::Other(v@),
        }
    }
}

pub open spec fn field_values_view(vs: Seq<FieldValue>) -> Seq<FieldValueView> {
    vs.map_values(|v: FieldValue| v@)
}

/// Whether a numeric kind is one of the integer types.
pub open spec fn is_integer(k: Num) -> bool {
    k != Num::F32 && k != Num::F64
}

/// The least value of an integer kind.
pub open spec fn num_min(k: Num) -> int {
    match k {
        Num::I8 => i8::MIN as int,
        Num::I16 => i16::MIN as int,
        Num::I32 => i32::MIN as int,
        Num::I64 => i64::MIN as int,
        Num::I128 => i128::MIN as int,
        Num::Isize => isize::MIN as int,
        _ => 0,
    }
}

/// The greatest value of an integer kind.
pub open spec fn num_max(k: Num) -> int {
    match k {
        Num::I8 => i8::MAX as int,
        Num::I16 => i16::MAX as int,
        Num::I32 => i32::MAX as int,
        Num::I64 => i64::MAX as int,
        Num::I128 => i128::MAX as int,
        Num::U8 => u8::MAX as int,
        Num::U16 => u16::MAX as int,
        Num::U32 => u32::MAX as int,
        Num::U64 => u64::MAX as int,
        Num::U128 => u128::MAX as int,
        Num::Isize => isize::MAX as int,
        Num::Usize => usize::MAX as int,
        _ => -1,
    }
}

/// The kind of a number.
pub open spec fn number_kind(n: Number) -> Num {
    match n {
        Number::I8(_) => Num::I8,
        Number::I16(_) => Num::I16,
        Number::I32(_) => Num::I32,
        Number::I64(_) => Num::I64,
        Number::I128(_) => Num::I128,
        Number::U8(_) => Num::U8,
        Number::U16(_) => Num::U16,
        Number::U32(_) => Num::U32,
        Number::U64(_) => Num::U64,
        Number::U128(_) => Num::U128,
        Number::Isize(_) => Num::Isize,
        Number::Usize(_) => Num::Usize,
    }
}

/// The mathematical value of a number.
pub open spec fn number_int(n: Number) -> int {
    match n {
        Number::I8(x) => x as int,
        Number::I16(x) => x as int,
        Number::I32(x) => x as int,
        Number::I64(x) => x as int,
        Number::I128(x) => x as int,
        Number::U8(x) => x as int,
        Number::U16(x) => x as int,
        Number::U32(x) => x as int,
        Number::U64(x) => x as int,
        Number::U128(x) => x as int,
        Number::Isize(x) => x as int,
        Number::Usize(x) => x as int,
    }
}

/// The number of integer kind `k` whose value is `v`; meaningful when `v` is in range.
pub open spec fn number_of(k: Num, v: int) -> Number {
    match k {
        Num::I8 => Number::I8(v as i8),
        Num::I16 => Number::I16(v as i16),
        Num::I32 => Number::I32(v as i32),
        Num::I128 => Number::I128(v as i128),
        Num::U8 => Number::U8(v as u8),
        Num::U16 => Number::U16(v as u16),
        Num::U32 => Number::U32(v as u32),
        Num::U64 => Number::U64(v as u64),
        Num::U128 => Number::U128(v as u128),
        Num::Isize => Number::Isize(v as isize),
        Num::Usize => Number::Usize(v as usize),
        _ => Number::I64(v as i64),
    }
}

/// The checked narrowing of a stored integer to kind `k`.
pub open spec fn narrow(k: Num, v: i64) -> Option<Number> {
    if is_integer(k) && num_min(k) <= v && v <= num_max(k) {
        Some(number_of(k, v as int))
    } else {
        None
    }
}

/// The stored integer of a number: its value, taken modulo 2^64 into the signed
/// range when it does not fit.
pub open spec fn widen(n: Number) -> i64 {
    number_int(n) as i64
}

pub open spec fn fits_i64(n: Number) -> bool {
    i64::MIN <= number_int(n) <= i64::MAX
}

/// Whether a value is one that `t` declares.
pub open spec fn fits(t: FieldType, v: FieldValueView) -> bool {
    match v {
        FieldValueView::Absent => t.optional,
        FieldValueView::Text(_) => t.kind == Kind::Text,
        FieldValueView::Bool(_) => t.kind == Kind::Boolean,
        FieldValueView::Number(n) => t.kind == Kind::Number(number_kind(n)),
        FieldValueView::Float(_) => t.kind == Kind::Number(Num::F32) || t.kind == Kind::Number(Num::F64),
        FieldValueView::DateTime(_) => t.kind == Kind::DateTimeUtc,
        FieldValueView::List(_) => t.kind == Kind::Collection,
        FieldValueView::Other(x) => t.kind == Kind::Other && x != ValueView::Null,
    }
}

/// Whether binding keeps a value exactly: numbers must lie in the store's integer range.
pub open spec fn in_store_range(v: FieldValueView) -> bool {
    match v {
        FieldValueView::Number(n) => fits_i64(n),
        _ => true,
    }
}

/// The store value a field value is bound as.
pub open spec fn encode(v: FieldValueView) -> ValueView {
    match v {
        FieldValueView::Absent => ValueView::Null,
        FieldValueView::Text(s) => ValueView::Text(s),
        FieldValueView::Bool(b) => ValueView::Bool(b),
        FieldValueView::Number(n) => ValueView::Int(widen(n)),
        FieldValueView::Float(b) => ValueView::Float(b),
        FieldValueView::DateTime(t) => ValueView::DateTime(t),
        FieldValueView::List(l) => ValueView::List(l),
        FieldValueView::Other(x) => x,
    }
}

/// Why reading a field failed.
pub enum ReadFailure {
    Missing,
    Mismatch,
}

/// Reads a present store value as kind `k`, if the kind takes it.
pub open spec fn decode_present(k: Kind, v: ValueView) -> Option<FieldValueView> {
    match (k, v) {
        (Kind::Text, ValueView::Text(s)) => Some(FieldValueView::Text(s)),
        (Kind::Boolean, ValueView::Bool(b)) => Some(FieldValueView::Bool(b)),
        (Kind::Number(n), ValueView::Int(i)) => match narrow(n, i) {
            Some(x) => Some(FieldValueView::Number(x)),
            None => None,
        },
        (Kind::Number(n), ValueView::Float(b)) => if n == Num::F32 || n == Num::F64 {
            Some(FieldValueView::Float(b))
        } else {
            None
        },
        (Kind::DateTimeUtc, ValueView::DateTime(t)) => Some(FieldValueView::DateTime(t)),
        (Kind::Collection, ValueView::List(l)) => Some(FieldValueView::List(l)),
        (Kind::Other, x) => Some(FieldValueView::Other(x)),
        _ => None,
    }
}

/// Reconstructs a field of type `t` from what the record held under its name
/// (`None` when it held nothing). A null counts as nothing. An optional field
/// resolves to absent where a required one fails.
pub open spec fn decode(t: FieldType, got: Option<ValueView>) -> Result<FieldValueView, ReadFailure> {
    match got {
        Some(v) if v != ValueView::Null => match decode_present(t.kind, v) {
            Some(x) => Ok(x),
            None => if t.optional {
                Ok(FieldValueView::Absent)
            } else {
                Err(ReadFailure::Mismatch)
            },
        },
        _ => if t.optional {
            Ok(FieldValueView::Absent)
        } else {
            Err(ReadFailure::Missing)
        },
    }
}

/// A read result with the field's name put on its failure.
pub open spec fn named(r: Result<FieldValueView, ReadFailure>, name: Seq<char>) -> Result<FieldValueView, ErrorView> {
    match r {
        Ok(v) => Ok(v),
        Err(ReadFailure::Missing) => Err(ErrorView::MissingField(name)),
        Err(ReadFailure::Mismatch) => Err(ErrorView::TypeMismatch(name)),
    }
}

pub open spec fn result_view(r: Result<FieldValue, Error>) -> Result<FieldValueView, ErrorView> {
    match r {
        Ok(v) => Ok(v@),
        Err(e) => Err(e@),
    }
}

/// Binding a value and reading it back from a record that echoes it gives the
/// value again, for every kind the taxonomy holds, provided a number lies in the
/// store's integer range.
pub proof fn lemma_round_trip(t: FieldType, v: FieldValueView)
    requires
        fits(t, v),
        in_store_range(v),
    ensures
        decode(t, Some(encode(v))) == Ok::<FieldValueView, ReadFailure>(v),
{
    if let FieldValueView::Number(n) = v {
        let i = widen(n);
        assert(i as int == number_int(n));
        assert(narrow(number_kind(n), i) == Some(n));
    }
}

impl Scalar {
    /// A copy of this element.
    pub fn copy(&self) -> (r: Scalar)
        ensures
            r@ == self@,
    {
        match self {
            Scalar::Int(i) => Scalar::Int(*i),
            Scalar::Float(b) => Scalar::Float(*b),
            Scalar::Text(s) => Scalar::Text(s.clone()),
            Scalar::Bool(b) => Scalar::Bool(*b),
            Scalar::DateTime(t) => Scalar::DateTime(*t),
        }
    }
}

/// A copy of a native list.
pub fn copy_scalars(l: &Vec<Scalar>) -> (r: Vec<Scalar>)
    ensures
        scalars_view(r@) == scalars_view(l@),
{
    let mut out: Vec<Scalar> = Vec::new();
    let mut i: usize = 0;
    while i < l.len()
        invariant
            i <= l.len(),
            scalars_view(out@) == scalars_view(l@.take(i as int)),
        decreases l.len() - i,
    {
        let ghost before = out@;
        out.push(l[i].copy());
        assert(l@.take(i as int + 1) =~= l@.take(i as int).push(l@[i as int]));
        assert(scalars_view(out@) =~= scalars_view(before).push(l@[i as int]@));
        assert(scalars_view(l@.take(i as int + 1)) =~= scalars_view(l@.take(i as int)).push(
            l@[i as int]@,
        ));
        i = i + 1;
    }
    assert(l@.take(l.len() as int) =~= l@);
    out
}

impl Value {
    /// A copy of this value.
    pub fn copy(&self) -> (r: Value)
        ensures
            r@ == self@,
    {
        match self {
            Value::Null => Value::Null,
            Value::Int(i) => Value::Int(*i),
            Value::Float(b) => Value::Float(*b),
            Value::Text(s) => Value::Text(s.clone()),
            Value::Bool(b) => Value::Bool(*b),
            Value::DateTime(t) => Value::DateTime(*t),
            Value::List(l) => Value::List(copy_scalars(l)),
        }
    }

    /// Whether this is the store's null.
    pub fn is_null(&self) -> (r: bool)
        ensures
            r == (self@ == ValueView::Null),
    {
        match self {
            Value::Null => true,
            _ => false,
        }
    }
}

impl FieldValue {
    /// A copy of this value.
    pub fn copy(&self) -> (r: FieldValue)
        ensures
            r@ == self@,
    {
        match self {
            FieldValue::Absent => FieldValue::Absent,
            FieldValue::Text(s) => FieldValue::Text(s.clone()),
            FieldValue::Bool(b) => FieldValue::Bool(*b),
            FieldValue::Number(n) => FieldValue::Number(*n),
            FieldValue::Float(b) => FieldValue::Float(*b),
            FieldValue::DateTime(t) => FieldValue::DateTime(*t),
            FieldValue::List(l) => FieldValue::List(copy_scalars(l)),
            FieldValue::Other(v) => FieldValue::Other(v.copy()),
        }
    }
}

/// Whether `v` is a value that `t` declares.
pub fn value_fits(t: FieldType, v: &FieldValue) -> (r: bool)
    ensures
        r == fits(t, v@),
{
    match v {
        FieldValue::Absent => t.optional,
        FieldValue::Text(_) => t.kind == Kind::Text,
        FieldValue::Bool(_) => t.kind == Kind::Boolean,
        FieldValue::Number(n) => t.kind == Kind::Number(number_kind_of(n)),
        FieldValue::Float(_) => t.kind == Kind::Number(Num::F32) || t.kind == Kind::Number(Num::F64),
        FieldValue::DateTime(_) => t.kind == Kind::DateTimeUtc,
        FieldValue::List(_) => t.kind == Kind::Collection,
        FieldValue::Other(x) => t.kind == Kind::Other && !x.is_null(),
    }
}

/// The kind of a number.
pub fn number_kind_of(n: &Number) -> (r: Num)
    ensures
        r == number_kind(*n),
{
    match n {
        Number::I8(_) => Num::I8,
        Number::I16(_) => Num::I16,
        Number::I32(_) => Num::I32,
        Number::I64(_) => Num::I64,
        Number::I128(_) => Num::I128,
        Number::U8(_) => Num::U8,
        Number::U16(_) => Num::U16,
        Number::U32(_) => Num::U32,
        Number::U64(_) => Num::U64,
        Number::U128(_) => Num::U128,
        Number::Isize(_) => Num::Isize,
        Number::Usize(_) => Num::Usize,
    }
}

/// The store value a field value is bound as.
pub fn encode_field(v: &FieldValue) -> (r: Value)
    ensures
        r@ == encode(v@),
{
    match v {
        FieldValue::Absent => Value::Null,
        FieldValue::Text(s) => Value::Text(s.clone()),
        FieldValue::Bool(b) => Value::Bool(*b),
        FieldValue::Number(n) => Value::Int(bind_number(*n)),
        FieldValue::Float(b) => Value::Float(*b),
        FieldValue::DateTime(t) => Value::DateTime(*t),
        FieldValue::List(l) => Value::List(copy_scalars(l)),
        FieldValue::Other(x) => x.copy(),
    }
}

pub open spec fn opt_value_view(got: Option<Value>) -> Option<ValueView> {
    match got {
        Some(v) => Some(v@),
        None => None,
    }
}

/// Reads a present store value as kind `k`, if the kind takes it.
fn decode_present_value(k: Kind, v: Value) -> (r: Option<FieldValue>)
    ensures
        match r {
            Some(x) => decode_present(k, v@) == Some(x@),
            None => decode_present(k, v@) is None,
        },
{
    match (k, v) {
        (Kind::Text, Value::Text(s)) => Some(FieldValue::Text(s)),
        (Kind::Boolean, Value::Bool(b)) => Some(FieldValue::Bool(b)),
        (Kind::Number(n), Value::Int(i)) => match narrow_number(n, i) {
            Some(x) => Some(FieldValue::Number(x)),
            None => None,
        },
        (Kind::Number(n), Value::Float(b)) => if n == Num::F32 || n == Num::F64 {
            Some(FieldValue::Float(b))
        } else {
            None
        },
        (Kind::DateTimeUtc, Value::DateTime(t)) => Some(FieldValue::DateTime(t)),
        (Kind::Collection, Value::List(l)) => Some(FieldValue::List(l)),
        (Kind::Other, x) => Some(FieldValue::Other(x)),
        _ => None,
    }
}

/// Reconstructs a field of type `t` named `name` from what the record held
/// under that name.
pub fn read_field(t: FieldType, name: &str, got: Option<Value>) -> (r: Result<FieldValue, Error>)
    ensures
        result_view(r) == named(decode(t, opt_value_view(got)), name@),
{
    let present = match &got {
        Some(v) => !v.is_null(),
        None => false,
    };
    if present {
        let v = got.unwrap();
        match decode_present_value(t.kind, v) {
            Some(x) => Ok(x),
            None => if t.optional {
                Ok(FieldValue::Absent)
            } else {
                Err(Error::TypeMismatch(String::from_str(name)))
            },
        }
    } else if t.optional {
        Ok(FieldValue::Absent)
    } else {
        Err(Error::MissingField(String::from_str(name)))
    }
}

impl Num {
    /// The type a value of this kind is cast to when it is bound as a parameter,
    /// where it is not bound as it is.
    pub fn param_cast(&self) -> (r: Option<Num>)
        ensures
            r == match *self {
                Num::Usize | Num::Isize | Num::U64 | Num::U128 | Num::I128 => Some(Num::I64),
                Num::U8 => Some(Num::I16),
                _ => None::<Num>,
            },
    {
        match self {
            Num::Usize => Some(Num::I64),
            Num::Isize => Some(Num::I64),
            Num::U8 => Some(Num::I16),
            Num::U64 => Some(Num::I64),
            Num::U128 => Some(Num::I64),
            Num::I128 => Some(Num::I64),
            _ => None,
        }
    }

    /// Whether reading this kind back needs a checked conversion.
    pub fn map_uses_try_from(&self) -> (r: bool)
        ensures
            r == (is_integer(*self) && *self != Num::I64),
    {
        match self {
            Num::F32 => false,
            Num::F64 => false,
            Num::I64 => false,
            _ => true,
        }
    }

    /// The type read from the record before converting, where it differs from this kind.
    pub fn map_getter_type_arg(&self) -> (r: Option<Num>)
        ensures
            r == match *self {
                Num::F32 => Some(Num::F64),
                Num::F64 | Num::I64 => None::<Num>,
                _ => Some(Num::I64),
            },
    {
        match self {
            Num::F32 => Some(Num::F64),
            Num::F64 => None,
            Num::I64 => None,
            _ => Some(Num::I64),
        }
    }

    /// The type a read value is narrowed to by truncation, where one is needed.
    pub fn map_cast(&self) -> (r: Option<Num>)
        ensures
            r == (if *self == Num::F32 { Some(Num::F32) } else { None::<Num> }),
    {
        match self {
            Num::F32 => Some(Num::F32),
            _ => None,
        }
    }
}

/// The Rust name of a numeric kind.
pub open spec fn num_name(k: Num) -> Seq<char> {
    match k {
        Num::I8 => "i8"@,
        Num::I16 => "i16"@,
        Num::I32 => "i32"@,
        Num::I64 => "i64"@,
        Num::I128 => "i128"@,
        Num::U8 => "u8"@,
        Num::U16 => "u16"@,
        Num::U32 => "u32"@,
        Num::U64 => "u64"@,
        Num::U128 => "u128"@,
        Num::F32 => "f32"@,
        Num::F64 => "f64"@,
        Num::Isize => "isize"@,
        Num::Usize => "usize"@,
    }
}

impl Num {
    /// The numeric kind a type name denotes, if any.
    pub fn from_name(name: &str) -> (r: Option<Num>)
        ensures
            match r {
                Some(k) => name@ == num_name(k),
                None => forall|k: Num| name@ != #[trigger] num_name(k),
            },
    {
        if crate::format::same_text(name, "i8") {
            Some(Num::I8)
        } else if crate::format::same_text(name, "i16") {
            Some(Num::I16)
        } else if crate::format::same_text(name, "i32") {
            Some(Num::I32)
        } else if crate::format::same_text(name, "i64") {
            Some(Num::I64)
        } else if crate::format::same_text(name, "i128") {
            Some(Num::I128)
        } else if crate::format::same_text(name, "u8") {
            Some(Num::U8)
        } else if crate::format::same_text(name, "u16") {
            Some(Num::U16)
        } else if crate::format::same_text(name, "u32") {
            Some(Num::U32)
        } else if crate::format::same_text(name, "u64") {
            Some(Num::U64)
        } else if crate::format::same_text(name, "u128") {
            Some(Num::U128)
        } else if crate::format::same_text(name, "f32") {
            Some(Num::F32)
        } else if crate::format::same_text(name, "f64") {
            Some(Num::F64)
        } else if crate::format::same_text(name, "isize") {
            Some(Num::Isize)
        } else if crate::format::same_text(name, "usize") {
            Some(Num::Usize)
        } else {
            None
        }
    }

    /// The Rust name of this kind.
    pub fn name(&self) -> (r: String)
        ensures
            r@ == num_name(*self),
    {
        let s = match self {
            Num::I8 => "i8",
            Num::I16 => "i16",
            Num::I32 => "i32",
            Num::I64 => "i64",
            Num::I128 => "i128",
            Num::U8 => "u8",
            Num::U16 => "u16",
            Num::U32 => "u32",
            Num::U64 => "u64",
            Num::U128 => "u128",
            Num::F32 => "f32",
            Num::F64 => "f64",
            Num::Isize => "isize",
            Num::Usize => "usize",
        };
        String::from_str(s)
    }
}

/// Widens a number to the store's integer.
pub fn bind_number(n: Number) -> (r: i64)
    ensures
        r == widen(n),
        fits_i64(n) ==> r as int == number_int(n),
{
    match n {
        Number::I8(x) => x as i64,
        Number::I16(x) => x as i64,
        Number::I32(x) => x as i64,
        Number::I64(x) => x,
        Number::I128(x) => x as i64,
        Number::U8(x) => x as i64,
        Number::U16(x) => x as i64,
        Number::U32(x) => x as i64,
        Number::U64(x) => x as i64,
        Number::U128(x) => x as i64,
        Number::Isize(x) => x as i64,
        Number::Usize(x) => x as i64,
    }
}

/// Narrows a stored integer to kind `k` with a checked conversion.
pub fn narrow_number(k: Num, v: i64) -> (r: Option<Number>)
    ensures
        r == narrow(k, v),
{
    match k {
        Num::I8 => if -128 <= v && v <= 127 {
            Some(Number::I8(v as i8))
        } else {
            None
        },
        Num::I16 => if -32768 <= v && v <= 32767 {
            Some(Number::I16(v as i16))
        } else {
            None
        },
        Num::I32 => if -2147483648 <= v && v <= 2147483647 {
            Some(Number::I32(v as i32))
        } else {
            None
        },
        Num::I64 => Some(Number::I64(v)),
        Num::I128 => Some(Number::I128(v as i128)),
        Num::U8 => if 0 <= v && v <= 255 {
            Some(Number::U8(v as u8))
        } else {
            None
        },
        Num::U16 => if 0 <= v && v <= 65535 {
            Some(Number::U16(v as u16))
        } else {
            None
        },
        Num::U32 => if 0 <= v && v <= 4294967295 {
            Some(Number::U32(v as u32))
        } else {
            None
        },
        Num::U64 => if 0 <= v {
            Some(Number::U64(v as u64))
        } else {
            None
        },
        Num::U128 => if 0 <= v {
            Some(Number::U128(v as u128))
        } else {
            None
        },
        Num::Isize => if isize::MIN as i128 <= v as i128 && v as i128 <= isize::MAX as i128 {
            Some(Number::Isize(v as isize))
        } else {
            None
        },
        Num::Usize => if 0 <= v && v as u128 <= usize::MAX as u128 {
            Some(Number::Usize(v as usize))
        } else {
            None
        },
        Num::F32 => None,
        Num::F64 => None,
    }
}

} // verus!
