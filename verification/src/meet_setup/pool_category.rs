//! Measuring category of the competition pool.

use crate::text::str_eq;
use vstd::prelude::*;

verus! {

/// Unit the pool is measured in; the vendor data only uses meters.
#[derive(Debug, Clone, Copy, PartialEq, Eq, Structural)]
pub enum PoolCategory {
    /// Pool measured in meters.
    Meters,
}

/// Rejection of a pool-category token.
#[derive(Debug, Clone, PartialEq, Eq)]
pub enum Error {
    /// The token is not `METERS`; carries the input.
    UnknownVariant(String),
}

impl PoolCategory {
    /// The closed token table: `METERS`.
    pub open spec fn decode_spec(s: Seq<char>) -> Option<PoolCategory> {
        if s == "METERS"@ {
            Some(PoolCategory::Meters)
        } else {
            None
        }
    }

    /// Decode a pool-category token.
    pub fn decode(s: &str) -> (r: Result<PoolCategory, Error>)
        ensures
            r matches Ok(v) ==> Self::decode_spec(s@) == Some(v),
            r is Err <==> Self::decode_spec(s@) is None,
            r matches Err(e) ==> (e matches Error::UnknownVariant(t) && t@ == s@),
    {
        if str_eq(s, "METERS") {
            Ok(PoolCategory::Meters)
        } else {
            Err(Error::UnknownVariant(String::from_str(s)))
        }
    }
}

} // verus!
