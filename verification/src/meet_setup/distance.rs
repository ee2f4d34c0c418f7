//! Distance of an event, individual or relay, with the ambiguity rule for
//! bare totals.

use super::individual_distance::{Error as IndividualError, Individual};
use super::team_distance::{Error as TeamError, Team};
use crate::text::str_eq;
use vstd::prelude::*;

verus! {

/// Distance of one event.
#[derive(Debug, Clone, Copy, PartialEq, Eq, Structural)]
pub enum Distance {
    /// Swum by one athlete.
    Individual(Individual),
    /// Swum by a relay team.
    Team(Team),
}

/// Rejection of a distance value.
#[derive(Debug, Clone, PartialEq, Eq)]
pub enum Error {
    /// A bare total that both an individual distance and a legacy relay
    /// encoding share; the decoder refuses to guess. Carries the input.
    IndistinguishableDistance(String),
    /// Neither table matched; carries the rejection of each.
    TryFrom(IndividualError, TeamError),
}

impl Distance {
    /// Relay tokens are matched first (the `N*M` notation is
    /// unambiguous), then the bare totals 400 and 800 are refused as
    /// shared between the individual table and legacy relay encodings,
    /// and only then is a bare numeral read as an individual distance.
    pub open spec fn decode_spec(s: Seq<char>) -> Option<Distance> {
        match Team::decode_spec(s) {
            Some(t) => Some(Distance::Team(t)),
            None => if s == "400"@ || s == "800"@ {
                None
            } else {
                match Individual::decode_spec(s) {
                    Some(i) => Some(Distance::Individual(i)),
                    None => None,
                }
            },
        }
    }

    /// Decode a distance token.
    ///
    /// The bare numerals `400` and `800` always fail with
    /// [`Error::IndistinguishableDistance`], never silently resolving to
    /// an individual distance.
    pub fn decode(s: &str) -> (r: Result<Distance, Error>)
        ensures
            r matches Ok(v) ==> Self::decode_spec(s@) == Some(v),
            r is Err <==> Self::decode_spec(s@) is None,
            (r matches Err(e) && e is IndistinguishableDistance) <==> (s@ == "400"@ || s@
                == "800"@),
            r matches Err(e) ==> match e {
                Error::IndistinguishableDistance(t) => t@ == s@,
                Error::TryFrom(ie, te) => Team::decode_spec(s@) is None
                    && Individual::decode_spec(s@) is None,
            },
    {
        proof {
            reveal_strlit("400");
            reveal_strlit("800");
            reveal_strlit("4*25");
            reveal_strlit("4*50");
            reveal_strlit("6*50");
            reveal_strlit("4*100");
            reveal_strlit("8*50");
            reveal_strlit("4*200");
            reveal_strlit("4*400");
            reveal_strlit("1000");
            assert("400"@.len() == 3);
            assert("800"@.len() == 3);
            assert("4*25"@.len() == 4);
            assert("4*50"@.len() == 4);
            assert("6*50"@.len() == 4);
            assert("4*100"@.len() == 5);
            assert("8*50"@.len() == 4);
            assert("4*200"@.len() == 5);
            assert("4*400"@.len() == 5);
            assert("1000"@.len() == 4);
        }
        let team_err = match Team::decode(s) {
            Ok(t) => {
                return Ok(Distance::Team(t));
            },
            Err(e) => e,
        };
        if str_eq(s, "400") || str_eq(s, "800") {
            return Err(Error::IndistinguishableDistance(String::from_str(s)));
        }
        let individual_err = match Individual::decode(s) {
            Ok(i) => {
                return Ok(Distance::Individual(i));
            },
            Err(e) => e,
        };
        Err(Error::TryFrom(individual_err, team_err))
    }

    /// The canonical token of the distance.
    pub open spec fn display_spec(self) -> Seq<char> {
        match self {
            Distance::Individual(i) => i.display_spec(),
            Distance::Team(t) => t.display_spec(),
        }
    }

    /// Canonical token of the distance, the same spelling the decoder
    /// accepts (except the refused bare `400` and `800`).
    pub fn display_string(&self) -> (r: String)
        ensures
            r@ == self.display_spec(),
    {
        match self {
            Distance::Individual(i) => i.display_string(),
            Distance::Team(t) => t.display_string(),
        }
    }

    /// Whether the distance is sanctioned for record keeping.
    pub open spec fn is_official_spec(self) -> bool {
        match self {
            Distance::Individual(i) => i.is_official_spec(),
            Distance::Team(t) => t.is_official_spec(),
        }
    }

    /// Whether the distance is sanctioned for record keeping: official
    /// individual distances are 50, 100, 200, 400, 800 and 1500 m,
    /// official relays 4 x 50, 4 x 100 and 4 x 200 m; everything else is
    /// unofficial.
    pub fn is_official(&self) -> (r: bool)
        ensures
            r == self.is_official_spec(),
    {
        match self {
            Distance::Individual(i) => i.is_official(),
            Distance::Team(t) => t.is_official(),
        }
    }
}

/// Law: decoding the canonical token of any distance yields that distance
/// back, except for the individual 400 m and 800 m, whose bare tokens the
/// decoder always refuses as indistinguishable from legacy relay totals.
pub proof fn lemma_distance_token_round_trip()
    ensures
        forall|d: Distance|
            d.display_spec() != "400"@ && d.display_spec() != "800"@ ==> Distance::decode_spec(
                #[trigger] d.display_spec(),
            ) == Some(d),
        Distance::decode_spec("400"@) is None,
        Distance::decode_spec("800"@) is None,
{
    reveal_strlit("400");
    reveal_strlit("800");
    reveal_strlit("4*25");
    reveal_strlit("4*50");
    reveal_strlit("6*50");
    reveal_strlit("4*100");
    reveal_strlit("8*50");
    reveal_strlit("4*200");
    reveal_strlit("4*400");
    reveal_strlit("1000");
    reveal_strlit("25");
    reveal_strlit("50");
    reveal_strlit("100");
    reveal_strlit("150");
    reveal_strlit("200");
    reveal_strlit("1500");
    reveal_with_fuel(crate::text::digits_int, 6);
    assert forall|d: Distance|
        d.display_spec() != "400"@ && d.display_spec() != "800"@ implies Distance::decode_spec(
        d.display_spec(),
    ) == Some(d) by {
        match d {
            Distance::Individual(i) => {
                match i {
                    Individual::Distance25 => {
                        assert(Distance::decode_spec("25"@) == Some(d));
                    },
                    Individual::Distance50 => {
                        assert(Distance::decode_spec("50"@) == Some(d));
                    },
                    Individual::Distance100 => {
                        assert(Distance::decode_spec("100"@) == Some(d));
                    },
                    Individual::Distance150 => {
                        assert(Distance::decode_spec("150"@) == Some(d));
                    },
                    Individual::Distance200 => {
                        assert(Distance::decode_spec("200"@) == Some(d));
                    },
                    Individual::Distance400 => {
                        assert(d.display_spec() == "400"@);
                    },
                    Individual::Distance800 => {
                        assert(d.display_spec() == "800"@);
                    },
                    Individual::Distance1500 => {
                        assert(Distance::decode_spec("1500"@) == Some(d));
                    },
                }
            },
            Distance::Team(t) => {
                match t {
                    Team::Distance4x25 => {
                        assert(Distance::decode_spec("4*25"@) == Some(d));
                    },
                    Team::Distance4x50 => {
                        assert(Distance::decode_spec("4*50"@) == Some(d));
                    },
                    Team::Distance6x50 => {
                        assert(Distance::decode_spec("6*50"@) == Some(d));
                    },
                    Team::Distance4x100 => {
                        assert(Distance::decode_spec("4*100"@) == Some(d));
                    },
                    Team::Distance8x50 => {
                        assert(Distance::decode_spec("8*50"@) == Some(d));
                    },
                    Team::Distance4x200 => {
                        assert(Distance::decode_spec("4*200"@) == Some(d));
                    },
                    Team::Distance4x400 => {
                        assert(Distance::decode_spec("4*400"@) == Some(d));
                    },
                    Team::Distance1000 => {
                        assert(Distance::decode_spec("1000"@) == Some(d));
                    },
                }
            },
        }
    }
}

} // verus!
