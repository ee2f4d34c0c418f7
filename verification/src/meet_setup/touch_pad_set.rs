//! Touch-pad timing hardware configuration of a meet.

use crate::text::str_eq;
use vstd::prelude::*;

verus! {

/// Which touch-pad sets are installed in the pool.
#[derive(Debug, Clone, Copy, PartialEq, Eq, Structural)]
pub enum TouchPadSet {
    /// One set of touch pads.
    OneSet,
    /// Two sets of touch pads.
    TwoSet,
    /// No touch pads; manual timing.
    NoPads,
}

/// Rejection of a touch-pad token.
#[derive(Debug, Clone, PartialEq, Eq)]
pub enum Error {
    /// The token is not one of `ONE SET`, `TWO SET`, `NO`; carries the
    /// input.
    UnknownSet(String),
}

impl TouchPadSet {
    /// The closed token table: `ONE SET`, `TWO SET` and `NO`.
    pub open spec fn decode_spec(s: Seq<char>) -> Option<TouchPadSet> {
        if s == "ONE SET"@ {
            Some(TouchPadSet::OneSet)
        } else if s == "TWO SET"@ {
            Some(TouchPadSet::TwoSet)
        } else if s == "NO"@ {
            Some(TouchPadSet::NoPads)
        } else {
            None
        }
    }

    /// Decode a touch-pad configuration token.
    pub fn decode(s: &str) -> (r: Result<TouchPadSet, Error>)
        ensures
            r matches Ok(v) ==> Self::decode_spec(s@) == Some(v),
            r is Err <==> Self::decode_spec(s@) is None,
            r matches Err(e) ==> (e matches Error::UnknownSet(t) && t@ == s@),
    {
        if str_eq(s, "ONE SET") {
            Ok(TouchPadSet::OneSet)
        } else if str_eq(s, "TWO SET") {
            Ok(TouchPadSet::TwoSet)
        } else if str_eq(s, "NO") {
            Ok(TouchPadSet::NoPads)
        } else {
            Err(Error::UnknownSet(String::from_str(s)))
        }
    }
}

} // verus!
