//! The loosely typed parameter bag of an operation, and lookups into it that
//! fall back to a default when a key is missing or holds another kind of value.

use vstd::prelude::*;
use crate::number::{Decimal, integer_decimal};

verus! {

/// One loosely typed parameter value.
#[derive(Clone, Debug)]
pub enum ParamValue {
    /// A number written without a fraction.
    Integer(i64),
    /// A number written with a fraction.
    Fraction(Decimal),
    Text(String),
    Flag(bool),
    /// Anything else (null, a list, a nested object).
    Other,
}

/// One key of a parameter bag with its value.
#[derive(Clone, Debug)]
pub struct Param {
    pub key: String,
    pub value: ParamValue,
}

/// The value under `key` in `entries` from position `i` on: the first match.
pub open spec fn lookup_from(entries: Seq<Param>, key: Seq<char>, i: int) -> Option<ParamValue>
    decreases entries.len() - i,
{
    if i < 0 || i >= entries.len() {
        None
    } else if entries[i].key@ == key {
        Some(entries[i].value)
    } else {
        lookup_from(entries, key, i + 1)
    }
}

/// The value under `key`: that of the first entry with that key.
pub open spec fn lookup(entries: Seq<Param>, key: Seq<char>) -> Option<ParamValue> {
    lookup_from(entries, key, 0)
}

/// A value read as a number: integers and fractions both count.
pub open spec fn number_of(v: Option<ParamValue>) -> Option<Decimal> {
    match v {
        Some(ParamValue::Integer(i)) => Some(integer_decimal(i)),
        Some(ParamValue::Fraction(d)) => if d.readable() { Some(d) } else { None },
        _ => None,
    }
}

/// A value read as an integer: a number without a fraction, or a whole number
/// written with one (`100.0`). A fraction that is not whole (`100.5`) is not
/// read, so the caller's default applies.
pub open spec fn integer_of(v: Option<ParamValue>) -> Option<i64> {
    match v {
        Some(ParamValue::Integer(i)) => Some(i),
        Some(ParamValue::Fraction(d)) => d.whole_value(),
        _ => None,
    }
}

/// A value read as text.
pub open spec fn text_of(v: Option<ParamValue>) -> Option<Seq<char>> {
    match v {
        Some(ParamValue::Text(s)) => Some(s@),
        _ => None,
    }
}

/// Position of the first entry under `key`, if any.
fn find(entries: &Vec<Param>, key: &String) -> (r: Option<usize>)
    ensures
        match r {
            Some(i) => i < entries@.len() && lookup(entries@, key@) == Some(entries@[i as int].value),
            None => lookup(entries@, key@) is None,
        },
{
    let mut i: usize = 0;
    while i < entries.len()
        invariant
            i <= entries@.len(),
            lookup(entries@, key@) == lookup_from(entries@, key@, i as int),
        decreases entries@.len() - i,
    {
        if entries[i].key == *key {
            return Some(i);
        }
        i = i + 1;
    }
    None
}

/// The number under `key`, if there is one.
pub fn number_param(entries: &Vec<Param>, key: &String) -> (r: Option<Decimal>)
    ensures
        r == number_of(lookup(entries@, key@)),
{
    match find(entries, key) {
        Some(i) => match &entries[i].value {
            ParamValue::Integer(n) => Some(Decimal::from_integer(*n)),
            ParamValue::Fraction(d) => if d.scale <= crate::number::MAX_SCALE { Some(*d) } else { None },
            _ => None,
        },
        None => None,
    }
}

/// The number under `key`, or `default` where there is none.
pub fn number_or(entries: &Vec<Param>, key: &String, default: Decimal) -> (r: Decimal)
    ensures
        r == match number_of(lookup(entries@, key@)) {
            Some(d) => d,
            None => default,
        },
{
    match number_param(entries, key) {
        Some(d) => d,
        None => default,
    }
}

/// The integer under `key`, or `default` where there is none.
pub fn integer_or(entries: &Vec<Param>, key: &String, default: i64) -> (r: i64)
    ensures
        r == match integer_of(lookup(entries@, key@)) {
            Some(i) => i,
            None => default,
        },
{
    match find(entries, key) {
        Some(i) => match &entries[i].value {
            ParamValue::Integer(n) => *n,
            ParamValue::Fraction(d) => match d.whole() {
                Some(n) => n,
                None => default,
            },
            _ => default,
        },
        None => default,
    }
}

/// The text under `key`, or `default` where there is none.
pub fn text_or(entries: &Vec<Param>, key: &String, default: &str) -> (r: String)
    ensures
        r@ == match text_of(lookup(entries@, key@)) {
            Some(t) => t,
            None => default@,
        },
{
    match find(entries, key) {
        Some(i) => match &entries[i].value {
            ParamValue::Text(t) => t.clone(),
            _ => String::from_str(default),
        },
        None => String::from_str(default),
    }
}

} // verus!
