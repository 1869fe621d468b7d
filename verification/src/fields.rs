//! The fields of a provider's response, one by one.
//!
//! A field is missing, or it holds a value of the right shape, or it holds
//! something else. This module says which, for each shape that a flight
//! record knows: a string, the identifier of a time zone, a timestamp, an
//! altitude, a latitude and a longitude.

use vstd::prelude::*;
use crate::calendar::{instant_of, is_timezone, parse_instant, timezone_known};
use crate::degrees::{degrees_within, latitude_of, longitude_of};
use crate::json::{Leaf, LeafView};
use crate::models::Timestamp;
use crate::viewport::{LAT_LIMIT, LON_LIMIT};

verus! {

/// What became of one field of a response.
#[derive(Clone, Copy, Debug, PartialEq, Eq)]
pub enum Field<T> {
    /// The provider left the field out, or sent `null` for it.
    Missing,
    /// The field holds a value of the shape that was asked for.
    Value(T),
    /// The field is there and holds something else.
    Malformed,
}

impl<T> Field<T> {
    /// The value, where there is one.
    pub open spec fn value(self) -> Option<T> {
        match self {
            Field::Value(v) => Some(v),
            _ => None,
        }
    }
}

/// A field that holds a string, with the string as a sequence of
/// characters.
pub open spec fn field_text(field: Field<String>) -> Field<Seq<char>> {
    match field {
        Field::Missing => Field::Missing,
        Field::Value(s) => Field::Value(s@),
        Field::Malformed => Field::Malformed,
    }
}

/// A string field: any string will do.
pub open spec fn text_of(leaf: LeafView) -> Field<Seq<char>> {
    match leaf {
        LeafView::Absent => Field::Missing,
        LeafView::Null => Field::Missing,
        LeafView::Text(s) => Field::Value(s),
        _ => Field::Malformed,
    }
}

/// A time zone: a string that is the identifier of one.
pub open spec fn zone_of(leaf: LeafView) -> Field<Seq<char>> {
    match leaf {
        LeafView::Absent => Field::Missing,
        LeafView::Null => Field::Missing,
        LeafView::Text(s) => if timezone_known(s) {
            Field::Value(s)
        } else {
            Field::Malformed
        },
        _ => Field::Malformed,
    }
}

/// A timestamp: a string that denotes an instant.
pub open spec fn instant_field_of(leaf: LeafView) -> Field<Timestamp> {
    match leaf {
        LeafView::Absent => Field::Missing,
        LeafView::Null => Field::Missing,
        LeafView::Text(s) => match instant_of(s) {
            Some(instant) => Field::Value(Timestamp { secs: instant.0, nanos: instant.1 }),
            None => Field::Malformed,
        },
        _ => Field::Malformed,
    }
}

/// An altitude: a number written as an integer that fits 32 bits with a
/// sign.
pub open spec fn altitude_of(leaf: LeafView) -> Field<i32> {
    match leaf {
        LeafView::Absent => Field::Missing,
        LeafView::Null => Field::Missing,
        LeafView::Number { integer: Some(n), bits } => if i32::MIN <= n <= i32::MAX {
            Field::Value(n as i32)
        } else {
            Field::Malformed
        },
        _ => Field::Malformed,
    }
}

/// An angle: a number that rounds to at most `limit` millionths of a degree
/// either side of zero.
pub open spec fn angle_of(leaf: LeafView, limit: int) -> Field<i64> {
    match leaf {
        LeafView::Absent => Field::Missing,
        LeafView::Null => Field::Missing,
        LeafView::Number { integer, bits: Some(b) } => match degrees_within(b, limit) {
            Some(v) => Field::Value(v),
            None => Field::Malformed,
        },
        _ => Field::Malformed,
    }
}

/// Reads a leaf as a string field.
pub fn text_field(leaf: Leaf) -> (r: Field<String>)
    ensures
        field_text(r) == text_of(leaf@),
{
    match leaf {
        Leaf::Absent => Field::Missing,
        Leaf::Null => Field::Missing,
        Leaf::Text(s) => Field::Value(s),
        _ => Field::Malformed,
    }
}

/// Reads a leaf as the identifier of a time zone. The identifier is kept as
/// the provider wrote it.
pub fn zone_field(leaf: Leaf) -> (r: Field<String>)
    ensures
        field_text(r) == zone_of(leaf@),
{
    match leaf {
        Leaf::Absent => Field::Missing,
        Leaf::Null => Field::Missing,
        Leaf::Text(s) => {
            if is_timezone(s.as_str()) {
                Field::Value(s)
            } else {
                Field::Malformed
            }
        },
        _ => Field::Malformed,
    }
}

/// Reads a leaf as a timestamp.
pub fn instant_field(leaf: &Leaf) -> (r: Field<Timestamp>)
    ensures
        r == instant_field_of(leaf@),
{
    match leaf {
        Leaf::Absent => Field::Missing,
        Leaf::Null => Field::Missing,
        Leaf::Text(s) => checked(parse_instant(s.as_str())),
        _ => Field::Malformed,
    }
}

/// A value that was present and went through a check: it passed, or the
/// field is malformed.
pub fn checked<T>(outcome: Option<T>) -> (r: Field<T>)
    ensures
        r == match outcome {
            Some(v) => Field::<T>::Value(v),
            None => Field::<T>::Malformed,
        },
{
    match outcome {
        Some(v) => Field::Value(v),
        None => Field::Malformed,
    }
}

/// Reads a leaf as an altitude.
pub fn altitude_field(leaf: &Leaf) -> (r: Field<i32>)
    ensures
        r == altitude_of(leaf@),
{
    match leaf {
        Leaf::Absent => Field::Missing,
        Leaf::Null => Field::Missing,
        Leaf::Number { integer: Some(n), bits: _ } => {
            if -0x8000_0000 <= *n && *n <= 0x7fff_ffff {
                Field::Value(*n as i32)
            } else {
                Field::Malformed
            }
        },
        _ => Field::Malformed,
    }
}

/// Reads a leaf as a latitude in millionths of a degree.
pub fn latitude_field(leaf: &Leaf) -> (r: Field<i64>)
    ensures
        r == angle_of(leaf@, LAT_LIMIT as int),
{
    match leaf {
        Leaf::Absent => Field::Missing,
        Leaf::Null => Field::Missing,
        Leaf::Number { integer: _, bits: Some(b) } => checked(latitude_of(*b)),
        _ => Field::Malformed,
    }
}

/// Reads a leaf as a longitude in millionths of a degree.
pub fn longitude_field(leaf: &Leaf) -> (r: Field<i64>)
    ensures
        r == angle_of(leaf@, LON_LIMIT as int),
{
    match leaf {
        Leaf::Absent => Field::Missing,
        Leaf::Null => Field::Missing,
        Leaf::Number { integer: _, bits: Some(b) } => checked(longitude_of(*b)),
        _ => Field::Malformed,
    }
}

} // verus!
