//! Swimming style of an event: a single stroke or a medley sequence.

use crate::text::str_eq;
use vstd::prelude::*;

verus! {

/// One swimming stroke.
#[derive(Debug, Clone, Copy, PartialEq, Eq, Structural)]
pub enum Stroke {
    /// Backstroke.
    BackStroke,
    /// Breaststroke.
    BreastStroke,
    /// Freestyle.
    FreeStyle,
    /// Butterfly.
    Butterfly,
}

/// The stroke order of an individual medley: butterfly, backstroke,
/// breaststroke, freestyle.
pub const INDIVIDUAL_MEDLEY: [Stroke; 4] = [
    Stroke::Butterfly,
    Stroke::BackStroke,
    Stroke::BreastStroke,
    Stroke::FreeStyle,
];

/// The stroke order of a team medley relay: backstroke, breaststroke,
/// butterfly, freestyle. Distinct from [`INDIVIDUAL_MEDLEY`]; the two
/// orders must never be conflated.
pub const TEAM_MEDLEY: [Stroke; 4] = [
    Stroke::BackStroke,
    Stroke::BreastStroke,
    Stroke::Butterfly,
    Stroke::FreeStyle,
];

/// Style of an event: one stroke, or four strokes swum in sequence.
#[derive(Debug, Clone, Copy, PartialEq, Eq)]
pub enum Style {
    /// A single stroke.
    Single(Stroke),
    /// Four strokes combined in one event, in the order they are swum.
    Medley([Stroke; 4]),
}

/// Rejection of a style token.
#[derive(Debug, Clone, PartialEq, Eq)]
pub enum Error {
    /// The token names no style; carries the input.
    StyleDoesNotExists(String),
}

impl Style {
    /// A style the decoder can produce: any single stroke, or one of the
    /// two medley orders.
    pub open spec fn wf(self) -> bool {
        match self {
            Style::Single(_) => true,
            Style::Medley(order) => order == INDIVIDUAL_MEDLEY || order == TEAM_MEDLEY,
        }
    }

    /// The closed token table: each stroke under its long English name
    /// and its two-letter abbreviation, and the two medley sequences.
    pub open spec fn decode_spec(s: Seq<char>) -> Option<Style> {
        if s == "FREESTYLE"@ || s == "FR"@ {
            Some(Style::Single(Stroke::FreeStyle))
        } else if s == "BUTTERFLY"@ || s == "BU"@ {
            Some(Style::Single(Stroke::Butterfly))
        } else if s == "BACKSTROKE"@ || s == "RY"@ {
            Some(Style::Single(Stroke::BackStroke))
        } else if s == "BREASTSTROKE"@ || s == "BR"@ {
            Some(Style::Single(Stroke::BreastStroke))
        } else if s == "INDIVIDUALMEDLEY"@ || s == "IM"@ {
            Some(Style::Medley(INDIVIDUAL_MEDLEY))
        } else if s == "MEDLEYRELAY"@ || s == "LM"@ {
            Some(Style::Medley(TEAM_MEDLEY))
        } else {
            None
        }
    }

    /// Decode a style token. Both the long vendor spellings and the
    /// two-letter abbreviations are in use in the source data, so both
    /// are accepted.
    pub fn decode(s: &str) -> (r: Result<Style, Error>)
        ensures
            r matches Ok(v) ==> Self::decode_spec(s@) == Some(v) && v.wf(),
            r is Err <==> Self::decode_spec(s@) is None,
            r matches Err(e) ==> (e matches Error::StyleDoesNotExists(t) && t@ == s@),
    {
        if str_eq(s, "FREESTYLE") || str_eq(s, "FR") {
            Ok(Style::Single(Stroke::FreeStyle))
        } else if str_eq(s, "BUTTERFLY") || str_eq(s, "BU") {
            Ok(Style::Single(Stroke::Butterfly))
        } else if str_eq(s, "BACKSTROKE") || str_eq(s, "RY") {
            Ok(Style::Single(Stroke::BackStroke))
        } else if str_eq(s, "BREASTSTROKE") || str_eq(s, "BR") {
            Ok(Style::Single(Stroke::BreastStroke))
        } else if str_eq(s, "INDIVIDUALMEDLEY") || str_eq(s, "IM") {
            Ok(Style::Medley(INDIVIDUAL_MEDLEY))
        } else if str_eq(s, "MEDLEYRELAY") || str_eq(s, "LM") {
            Ok(Style::Medley(TEAM_MEDLEY))
        } else {
            Err(Error::StyleDoesNotExists(String::from_str(s)))
        }
    }

    /// The human-readable name of the style.
    pub open spec fn display_spec(self) -> Seq<char> {
        match self {
            Style::Single(Stroke::BackStroke) => "backstroke"@,
            Style::Single(Stroke::FreeStyle) => "freestyle"@,
            Style::Single(Stroke::Butterfly) => "butterfly"@,
            Style::Single(Stroke::BreastStroke) => "breaststroke"@,
            Style::Medley(order) => if order == TEAM_MEDLEY {
                "team medley"@
            } else {
                "individual medley"@
            },
        }
    }

    /// Human-readable style name, as the table printers show it. The two
    /// medley orders are told apart by their first stroke.
    pub fn display_string(&self) -> (r: String)
        requires
            self.wf(),
        ensures
            r@ == self.display_spec(),
    {
        match self {
            Style::Single(Stroke::BackStroke) => String::from_str("backstroke"),
            Style::Single(Stroke::FreeStyle) => String::from_str("freestyle"),
            Style::Single(Stroke::Butterfly) => String::from_str("butterfly"),
            Style::Single(Stroke::BreastStroke) => String::from_str("breaststroke"),
            Style::Medley(order) => {
                let first = order[0];
                if matches!(first, Stroke::BackStroke) {
                    String::from_str("team medley")
                } else {
                    String::from_str("individual medley")
                }
            },
        }
    }
}

} // verus!
