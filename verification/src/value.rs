//! The values that travel over the editor's remote-procedure-call channel, as
//! far as this library reads them.

use vstd::prelude::*;

verus! {

/// A value received from, or sent to, the editor.
///
/// Only what the library inspects is kept apart: strings, non-negative
/// integers, arrays and maps. Every other kind of value is `Other`.
#[derive(Debug, PartialEq, Eq)]
pub enum RpcValue {
    /// A string of valid text.
    Text(String),
    /// An integer that is not negative.
    Unsigned(u64),
    /// An array of values.
    List(Vec<RpcValue>),
    /// A map, as the pairs of its keys and values in the order received.
    Table(Vec<(RpcValue, RpcValue)>),
    /// Anything else: nil, a boolean, a negative integer, binary data.
    Other,
}

impl RpcValue {
    /// The characters of a string value.
    pub open spec fn text(&self) -> Option<Seq<char>> {
        match self {
            RpcValue::Text(s) => Some(s@),
            _ => None,
        }
    }

    /// The number of a non-negative integer value.
    pub open spec fn unsigned(&self) -> Option<u64> {
        match self {
            RpcValue::Unsigned(n) => Some(*n),
            _ => None,
        }
    }

    /// The items of an array value.
    pub open spec fn items(&self) -> Option<Seq<RpcValue>> {
        match self {
            RpcValue::List(items) => Some(items@),
            _ => None,
        }
    }

    /// The pairs of a map value.
    pub open spec fn pairs(&self) -> Option<Seq<(RpcValue, RpcValue)>> {
        match self {
            RpcValue::Table(pairs) => Some(pairs@),
            _ => None,
        }
    }

    /// The string that the value holds, if it is one.
    pub fn as_str(&self) -> (found: Option<&str>)
        ensures
            found.is_some() == self.text().is_some(),
            found matches Some(s) ==> Some(s@) == self.text(),
    {
        match self {
            RpcValue::Text(s) => Some(s.as_str()),
            _ => None,
        }
    }

    /// The number that the value holds, if it is a non-negative integer.
    pub fn as_u64(&self) -> (found: Option<u64>)
        ensures
            found == self.unsigned(),
    {
        match self {
            RpcValue::Unsigned(n) => Some(*n),
            _ => None,
        }
    }

    /// The items that the value holds, if it is an array.
    pub fn as_array(&self) -> (found: Option<&Vec<RpcValue>>)
        ensures
            found.is_some() == self.items().is_some(),
            found matches Some(items) ==> Some(items@) == self.items(),
    {
        match self {
            RpcValue::List(items) => Some(items),
            _ => None,
        }
    }

    /// The pairs that the value holds, if it is a map.
    pub fn as_map(&self) -> (found: Option<&Vec<(RpcValue, RpcValue)>>)
        ensures
            found.is_some() == self.pairs().is_some(),
            found matches Some(pairs) ==> Some(pairs@) == self.pairs(),
    {
        match self {
            RpcValue::Table(pairs) => Some(pairs),
            _ => None,
        }
    }
}

} // verus!
