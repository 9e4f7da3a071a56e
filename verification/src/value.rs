//! The scalar value model: one dynamically typed SQL value, which may be
//! null, together with the type tags a coercion request can name.

use vstd::prelude::*;

verus! {

/// Tag naming one of the scalar types a host can deliver an argument as, or
/// be asked to coerce an argument to.
#[derive(Clone, Copy, Debug, PartialEq, Eq, Structural)]
pub enum SqlType {
    /// 64-bit signed integer.
    Int,
    /// Floating-point number, carried by its bit pattern.
    Real,
    /// Text value.
    Text,
    /// Exact decimal, carried in its textual form.
    Decimal,
}

/// One scalar argument value for one call frame.
///
/// A value is a closed tagged union: its tag is fixed when the call frame is
/// built, and every accessor is total, answering `None` rather than failing
/// when asked for a representation the value does not have.
///
/// A `Real` is carried as the bit pattern of a 64-bit IEEE 754 number: the
/// protocol layer only stores and moves such a value, it never computes with
/// it, and a host-side adapter can convert losslessly in both directions.
#[derive(Debug)]
pub enum SqlValue {
    /// 64-bit signed integer.
    Int(i64),
    /// Floating-point number, as its 64-bit IEEE 754 bit pattern.
    Real(u64),
    /// Text value.
    Text(String),
    /// Exact decimal in textual form.
    Decimal(String),
    /// The null value, inspectable regardless of the declared type.
    Null,
}

/// The mathematical shape of a [`SqlValue`]: the same tags, with text held
/// as a sequence of characters.
pub ghost enum ValueView {
    Int(i64),
    Real(u64),
    Text(Seq<char>),
    Decimal(Seq<char>),
    Null,
}

impl View for SqlValue {
    type V = ValueView;

    open spec fn view(&self) -> ValueView {
        match self {
            SqlValue::Int(i) => ValueView::Int(*i),
            SqlValue::Real(b) => ValueView::Real(*b),
            SqlValue::Text(s) => ValueView::Text(s@),
            SqlValue::Decimal(s) => ValueView::Decimal(s@),
            SqlValue::Null => ValueView::Null,
        }
    }
}

/// What [`SqlValue::as_int`] answers for a given value.
pub open spec fn spec_as_int(v: ValueView) -> Option<i64> {
    match v {
        ValueView::Int(i) => Some(i),
        _ => None,
    }
}

/// What [`SqlValue::as_real`] answers for a given value.
pub open spec fn spec_as_real(v: ValueView) -> Option<u64> {
    match v {
        ValueView::Real(b) => Some(b),
        _ => None,
    }
}

/// What [`SqlValue::as_text`] answers for a given value: text and decimal
/// values both have a textual representation.
pub open spec fn spec_as_text(v: ValueView) -> Option<Seq<char>> {
    match v {
        ValueView::Text(s) => Some(s),
        ValueView::Decimal(s) => Some(s),
        _ => None,
    }
}

impl SqlValue {
    /// Whether this value is null; legal to ask of every value.
    pub fn is_null(&self) -> (r: bool)
        ensures
            r == (self@ is Null),
    {
        matches!(self, SqlValue::Null)
    }

    /// This value as an integer, if it is one; `None` for a null and for
    /// every other tag.
    pub fn as_int(&self) -> (r: Option<i64>)
        ensures
            r == spec_as_int(self@),
    {
        match self {
            SqlValue::Int(i) => Some(*i),
            _ => None,
        }
    }

    /// This value as the bit pattern of a floating-point number, if it is
    /// one; `None` for a null and for every other tag.
    pub fn as_real(&self) -> (r: Option<u64>)
        ensures
            r == spec_as_real(self@),
    {
        match self {
            SqlValue::Real(b) => Some(*b),
            _ => None,
        }
    }

    /// This value as text, if it has a textual representation (text and
    /// decimal values do); `None` for a null and for every other tag.
    pub fn as_text(&self) -> (r: Option<&str>)
        ensures
            match r {
                Some(s) => spec_as_text(self@) == Some(s@),
                None => spec_as_text(self@) is None,
            },
    {
        match self {
            SqlValue::Text(s) => Some(s.as_str()),
            SqlValue::Decimal(s) => Some(s.as_str()),
            _ => None,
        }
    }

    /// An owned copy of this value, equal to it under the view.
    pub fn dup(&self) -> (r: SqlValue)
        ensures
            r@ == self@,
    {
        match self {
            SqlValue::Int(i) => SqlValue::Int(*i),
            SqlValue::Real(b) => SqlValue::Real(*b),
            SqlValue::Text(s) => SqlValue::Text(s.clone()),
            SqlValue::Decimal(s) => SqlValue::Decimal(s.clone()),
            SqlValue::Null => SqlValue::Null,
        }
    }
}

} // verus!
