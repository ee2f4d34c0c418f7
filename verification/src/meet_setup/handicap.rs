//! Disability classification: an affected stroke group and a numeric
//! grade.

use crate::text::{
    all_digits, digit_chars, digits_int, lemma_digit_chars_all_digits, lemma_digit_chars_concat,
    lemma_digit_chars_of_digits, str_starts_with,
};
use vstd::prelude::*;

verus! {

/// Range of strokes a disability classification applies to.
#[derive(Debug, Clone, Copy, PartialEq, Eq, Structural)]
pub enum StyleGroup {
    /// Freestyle, backstroke and butterfly (prefix `S`).
    FreestyleBackstrokeButterfly,
    /// Breaststroke (prefix `SB`).
    BreastStroke,
    /// Medley (prefix `SM`).
    Medley,
}

/// Disability classification of an athlete.
#[derive(Debug, Clone, Copy, PartialEq, Eq, Structural)]
pub struct Handicap {
    /// Range of styles this disability classification affects.
    pub style_group: StyleGroup,
    /// Disability grade, `1..=15`:
    /// 1-10 movement disability (higher is a higher degree), 11-13
    /// reduced eye sight up to full blindness, 14 mental disability,
    /// 15 hearing loss.
    pub disability_type: u8,
}

/// Rejection of a handicap token or grade.
#[derive(Debug, Clone, PartialEq, Eq)]
pub enum Error {
    /// The digits of the token do not form a grade; carries the input.
    ParseError(String),
    /// The token does not start with `S`, `SB` or `SM`.
    InvalidHandicapStyleGroup,
    /// A grade outside `1..=15`.
    InvalidDisabilityGrade,
}

impl Handicap {
    /// The grade is in the decodable range `1..=15`.
    pub open spec fn valid(self) -> bool {
        1 <= self.disability_type <= 15
    }

    /// Style group read off the token prefix: `SB`, `SM`, or a bare
    /// leading `S`.
    pub open spec fn style_group_spec(s: Seq<char>) -> Option<StyleGroup> {
        if s.len() >= 2 && s.subrange(0, 2) == "SB"@ {
            Some(StyleGroup::BreastStroke)
        } else if s.len() >= 2 && s.subrange(0, 2) == "SM"@ {
            Some(StyleGroup::Medley)
        } else if s.len() >= 1 && s.subrange(0, 1) == "S"@ {
            Some(StyleGroup::FreestyleBackstrokeButterfly)
        } else {
            None
        }
    }

    /// A handicap token decodes when its prefix names a style group and
    /// the digits scattered through the rest form a grade `1..=15`.
    pub open spec fn decode_spec(s: Seq<char>) -> Option<Handicap> {
        match Self::style_group_spec(s) {
            None => None,
            Some(g) => {
                let dc = digit_chars(s);
                if dc.len() > 0 && 1 <= digits_int(dc) <= 15 {
                    Some(Handicap { style_group: g, disability_type: digits_int(dc) as u8 })
                } else {
                    None
                }
            },
        }
    }

    /// Decode a handicap token such as `SB7`.
    ///
    /// The prefix `SB` means breaststroke, `SM` medley, and a bare `S`
    /// the freestyle-backstroke-butterfly group; the numeric part must
    /// be a grade between 1 and 15 inclusive — grade 0 and grades above
    /// 15 fail at construction.
    pub fn decode(s: &str) -> (r: Result<Handicap, Error>)
        ensures
            r matches Ok(h) ==> Self::decode_spec(s@) == Some(h) && h.valid(),
            r is Err <==> Self::decode_spec(s@) is None,
            r matches Err(e) ==> match e {
                Error::InvalidHandicapStyleGroup => Self::style_group_spec(s@) is None,
                Error::ParseError(t) => t@ == s@ && Self::style_group_spec(s@) is Some
                    && digit_chars(s@).len() == 0,
                Error::InvalidDisabilityGrade => Self::style_group_spec(s@) is Some && digit_chars(
                    s@,
                ).len() > 0 && (digits_int(digit_chars(s@)) < 1 || digits_int(digit_chars(s@))
                    > 15),
            },
    {
        proof {
            reveal_strlit("S");
            reveal_strlit("SB");
            reveal_strlit("SM");
            assert("S"@.len() == 1);
            assert("SB"@.len() == 2);
            assert("SM"@.len() == 2);
        }
        let style_group = if str_starts_with(s, "SB") {
            StyleGroup::BreastStroke
        } else if str_starts_with(s, "SM") {
            StyleGroup::Medley
        } else if str_starts_with(s, "S") {
            StyleGroup::FreestyleBackstrokeButterfly
        } else {
            return Err(Error::InvalidHandicapStyleGroup);
        };
        let n = s.unicode_len();
        let mut i: usize = 0;
        let mut acc: u32 = 0;
        let mut count: usize = 0;
        proof {
            assert(s@.subrange(0, 0) =~= Seq::<char>::empty());
        }
        while i < n
            invariant
                i <= n,
                n == s@.len(),
                count <= i,
                count == digit_chars(s@.subrange(0, i as int)).len(),
                all_digits(digit_chars(s@.subrange(0, i as int))),
                (digits_int(digit_chars(s@.subrange(0, i as int))) <= 15 && acc == digits_int(
                    digit_chars(s@.subrange(0, i as int)),
                )) || (digits_int(digit_chars(s@.subrange(0, i as int))) > 15 && 15 < acc <= 169),
            decreases n - i,
        {
            let ghost old_dc = digit_chars(s@.subrange(0, i as int));
            let c = s.get_char(i);
            let u = c as u32;
            proof {
                assert(s@.subrange(0, i as int + 1).drop_last() =~= s@.subrange(0, i as int));
                assert(s@.subrange(0, i as int + 1).last() == s@[i as int]);
            }
            if 48 <= u && u <= 57 {
                let d = u - 48;
                proof {
                    let new_dc = digit_chars(s@.subrange(0, i as int + 1));
                    assert(new_dc == old_dc.push(s@[i as int]));
                    assert(new_dc.drop_last() == old_dc);
                    assert(digits_int(new_dc) == digits_int(old_dc) * 10 + d);
                }
                if acc > 15 {
                    acc = 16;
                } else {
                    acc = acc * 10 + d;
                }
                count = count + 1;
            }
            i = i + 1;
        }
        proof {
            assert(s@.subrange(0, n as int) =~= s@);
        }
        if count == 0 {
            return Err(Error::ParseError(String::from_str(s)));
        }
        if acc < 1 || acc > 15 {
            return Err(Error::InvalidDisabilityGrade);
        }
        Ok(Handicap { style_group, disability_type: acc as u8 })
    }

    /// The token prefix of the style group.
    pub open spec fn prefix_spec(self) -> Seq<char> {
        match self.style_group {
            StyleGroup::FreestyleBackstrokeButterfly => "S"@,
            StyleGroup::BreastStroke => "SB"@,
            StyleGroup::Medley => "SM"@,
        }
    }

    /// Decimal token of a grade `1..=15`; other values have no token.
    pub open spec fn grade_token(g: int) -> Seq<char> {
        if g == 1 {
            "1"@
        } else if g == 2 {
            "2"@
        } else if g == 3 {
            "3"@
        } else if g == 4 {
            "4"@
        } else if g == 5 {
            "5"@
        } else if g == 6 {
            "6"@
        } else if g == 7 {
            "7"@
        } else if g == 8 {
            "8"@
        } else if g == 9 {
            "9"@
        } else if g == 10 {
            "10"@
        } else if g == 11 {
            "11"@
        } else if g == 12 {
            "12"@
        } else if g == 13 {
            "13"@
        } else if g == 14 {
            "14"@
        } else if g == 15 {
            "15"@
        } else {
            Seq::empty()
        }
    }

    /// Display form of a handicap: the style-group prefix, a comma, and
    /// the grade.
    pub open spec fn display_spec(self) -> Seq<char> {
        self.prefix_spec() + ","@ + Self::grade_token(self.disability_type as int)
    }

    /// Display the handicap as `<prefix>,<grade>`, for example `SB,7`.
    pub fn display_string(&self) -> (r: String)
        requires
            self.valid(),
        ensures
            r@ == self.display_spec(),
    {
        let prefix = match self.style_group {
            StyleGroup::FreestyleBackstrokeButterfly => "S",
            StyleGroup::BreastStroke => "SB",
            StyleGroup::Medley => "SM",
        };
        let grade: &str = if self.disability_type == 1 {
            "1"
        } else if self.disability_type == 2 {
            "2"
        } else if self.disability_type == 3 {
            "3"
        } else if self.disability_type == 4 {
            "4"
        } else if self.disability_type == 5 {
            "5"
        } else if self.disability_type == 6 {
            "6"
        } else if self.disability_type == 7 {
            "7"
        } else if self.disability_type == 8 {
            "8"
        } else if self.disability_type == 9 {
            "9"
        } else if self.disability_type == 10 {
            "10"
        } else if self.disability_type == 11 {
            "11"
        } else if self.disability_type == 12 {
            "12"
        } else if self.disability_type == 13 {
            "13"
        } else if self.disability_type == 14 {
            "14"
        } else {
            "15"
        };
        String::from_str(prefix).concat(",").concat(grade)
    }

    /// The grade ranges of the explanation, exhaustive over `1..=15`:
    /// 1-10 movement, 11-13 eye sight, 14 mental, 15 hearing.
    pub open spec fn explain_spec(self) -> Seq<char> {
        let grade = if 1 <= self.disability_type <= 10 {
            "movement and mobility"@
        } else if 11 <= self.disability_type <= 13 {
            "reduced eye sight or blind"@
        } else if self.disability_type == 14 {
            "mental disability"@
        } else {
            "deaf"@
        };
        let styles = match self.style_group {
            StyleGroup::FreestyleBackstrokeButterfly => "freestyle, backstroke and butterfly"@,
            StyleGroup::BreastStroke => "breaststroke"@,
            StyleGroup::Medley => "medley"@,
        };
        grade + " in "@ + styles
    }

    /// Describe the disability classification in words.
    ///
    /// Grades outside `1..=15` have no description and are refused with
    /// an error rather than aborting.
    pub fn explain(&self) -> (r: Result<String, Error>)
        ensures
            r is Ok <==> self.valid(),
            r matches Ok(t) ==> t@ == self.explain_spec(),
            r matches Err(e) ==> e is InvalidDisabilityGrade,
    {
        if self.disability_type < 1 || self.disability_type > 15 {
            return Err(Error::InvalidDisabilityGrade);
        }
        let grade: &str = if self.disability_type <= 10 {
            "movement and mobility"
        } else if self.disability_type <= 13 {
            "reduced eye sight or blind"
        } else if self.disability_type == 14 {
            "mental disability"
        } else {
            "deaf"
        };
        let styles: &str = match self.style_group {
            StyleGroup::FreestyleBackstrokeButterfly => "freestyle, backstroke and butterfly",
            StyleGroup::BreastStroke => "breaststroke",
            StyleGroup::Medley => "medley",
        };
        Ok(String::from_str(grade).concat(" in ").concat(styles))
    }
}

/// The decimal token of each grade `1..=15` is made of digits and reads
/// back as that grade.
proof fn lemma_grade_token_value(g: int)
    requires
        1 <= g <= 15,
    ensures
        all_digits(Handicap::grade_token(g)),
        Handicap::grade_token(g).len() > 0,
        digits_int(Handicap::grade_token(g)) == g,
{
    reveal_strlit("1");
    reveal_strlit("2");
    reveal_strlit("3");
    reveal_strlit("4");
    reveal_strlit("5");
    reveal_strlit("6");
    reveal_strlit("7");
    reveal_strlit("8");
    reveal_strlit("9");
    reveal_strlit("10");
    reveal_strlit("11");
    reveal_strlit("12");
    reveal_strlit("13");
    reveal_strlit("14");
    reveal_strlit("15");
    reveal_with_fuel(crate::text::digits_int, 3);
    if g <= 9 {
        assert(Handicap::grade_token(g).len() == 1);
        assert(all_digits(Handicap::grade_token(g)));
        assert(digits_int(Handicap::grade_token(g)) == g);
    } else {
        assert(Handicap::grade_token(g).len() == 2);
        assert(all_digits(Handicap::grade_token(g)));
        assert(digits_int(Handicap::grade_token(g)) == g);
    }
}

/// Law: a valid handicap survives the round trip through its display
/// form: decoding `<prefix>,<grade>` restores the same style group and
/// grade.
pub proof fn lemma_handicap_display_round_trip(h: Handicap)
    requires
        h.valid(),
    ensures
        Handicap::decode_spec(h.display_spec()) == Some(h),
{
    reveal_strlit("S");
    reveal_strlit("SB");
    reveal_strlit("SM");
    reveal_strlit(",");
    let g = h.disability_type as int;
    let gt = Handicap::grade_token(g);
    let pfx = h.prefix_spec();
    let d = h.display_spec();
    lemma_grade_token_value(g);
    // The style group survives: the comma stops a bare `S` prefix from
    // being read as `SB` or `SM`.
    assert("S"@.len() == 1);
    assert("SB"@.len() == 2);
    assert("SM"@.len() == 2);
    assert(","@.len() == 1);
    match h.style_group {
        StyleGroup::FreestyleBackstrokeButterfly => {
            assert(d.len() == 2 + gt.len());
            assert(d[0] == 'S');
            assert(d[1] == ',');
            assert(d.subrange(0, 2) != "SB"@) by {
                assert(d.subrange(0, 2)[1] == ',');
            }
            assert(d.subrange(0, 2) != "SM"@) by {
                assert(d.subrange(0, 2)[1] == ',');
            }
            assert(d.subrange(0, 1) =~= "S"@);
        },
        StyleGroup::BreastStroke => {
            assert(d.len() == 3 + gt.len());
            assert(d.subrange(0, 2) =~= "SB"@);
        },
        StyleGroup::Medley => {
            assert(d.len() == 3 + gt.len());
            assert(d.subrange(0, 2) != "SB"@) by {
                assert(d.subrange(0, 2)[1] == 'M');
            }
            assert(d.subrange(0, 2) =~= "SM"@);
        },
    }
    assert(Handicap::style_group_spec(d) == Some(h.style_group));
    // The digits of the display form are exactly the grade token.
    let head = pfx + ","@;
    assert(d =~= head + gt);
    lemma_digit_chars_concat(head, gt);
    lemma_digit_chars_of_digits(gt);
    assert(digit_chars(head) =~= Seq::<char>::empty()) by {
        reveal_with_fuel(crate::text::digit_chars, 4);
        match h.style_group {
            StyleGroup::FreestyleBackstrokeButterfly => {
                assert(head =~= seq!['S', ',']);
            },
            StyleGroup::BreastStroke => {
                assert(head =~= seq!['S', 'B', ',']);
            },
            StyleGroup::Medley => {
                assert(head =~= seq!['S', 'M', ',']);
            },
        }
    }
    assert(digit_chars(d) == gt);
}

} // verus!
