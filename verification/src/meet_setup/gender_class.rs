//! Composite three-character token combining gender and class.

use super::class::Class;
use super::gender_group::GenderGroup;
use crate::text::{digit_val, is_digit, str_eq};
use vstd::prelude::*;

verus! {

/// Gender and class of one enrollment, decoded from a single token such
/// as `MSR` or `K95`.
#[derive(Debug, Clone, Copy, PartialEq, Eq)]
pub struct GenderClass {
    /// Gender of the athlete or team.
    pub gender_group: GenderGroup,
    /// Class of the athlete or team.
    pub class: Class,
}

/// Rejection of a gender-class token.
#[derive(Debug, Clone, PartialEq, Eq)]
pub enum Error {
    /// The two trailing characters are not a two-digit birth year;
    /// carries the input.
    InvalidClassYearStr(String),
    /// The token is not exactly three characters long.
    InvalidStrLen,
    /// The leading character is neither `M` nor `K`.
    InvalidGender,
}

impl GenderClass {
    /// Exactly three characters: one of the six fixed tokens, or a
    /// gender letter (`M` male, `K` female) followed by a two-digit
    /// birth year.
    pub open spec fn decode_spec(s: Seq<char>) -> Option<GenderClass> {
        if s.len() != 3 {
            None
        } else if s == "MSR"@ {
            Some(GenderClass { gender_group: GenderGroup::Male, class: Class::Senior })
        } else if s == "MJS"@ {
            Some(GenderClass { gender_group: GenderGroup::Male, class: Class::Junior(None) })
        } else if s == "KSR"@ {
            Some(GenderClass { gender_group: GenderGroup::Female, class: Class::Senior })
        } else if s == "KJR"@ {
            Some(GenderClass { gender_group: GenderGroup::Female, class: Class::Junior(None) })
        } else if s == "XSR"@ {
            Some(GenderClass { gender_group: GenderGroup::Mixed, class: Class::Senior })
        } else if s == "XJR"@ {
            Some(GenderClass { gender_group: GenderGroup::Mixed, class: Class::Junior(None) })
        } else if s[0] == 'M' || s[0] == 'K' {
            if is_digit(s[1]) && is_digit(s[2]) {
                Some(
                    GenderClass {
                        gender_group: if s[0] == 'M' {
                            GenderGroup::Male
                        } else {
                            GenderGroup::Female
                        },
                        class: Class::Junior(
                            Some((digit_val(s[1]) * 10 + digit_val(s[2])) as i16),
                        ),
                    },
                )
            } else {
                None
            }
        } else {
            None
        }
    }

    /// Decode a gender-class token.
    ///
    /// The six fixed tokens `MSR`, `MJS`, `KSR`, `KJR`, `XSR` and `XJR`
    /// map directly; any other three-character token is read as a gender
    /// letter plus a two-digit birth year. Tokens of any other length
    /// fail with [`Error::InvalidStrLen`].
    pub fn decode(s: &str) -> (r: Result<GenderClass, Error>)
        ensures
            r matches Ok(v) ==> Self::decode_spec(s@) == Some(v),
            r is Err <==> Self::decode_spec(s@) is None,
            r matches Err(e) ==> match e {
                Error::InvalidStrLen => s@.len() != 3,
                Error::InvalidGender => s@.len() == 3 && s@[0] != 'M' && s@[0] != 'K',
                Error::InvalidClassYearStr(t) => t@ == s@ && s@.len() == 3 && (s@[0] == 'M' || s@[0]
                    == 'K') && !(is_digit(s@[1]) && is_digit(s@[2])),
            },
    {
        let n = s.unicode_len();
        if n != 3 {
            return Err(Error::InvalidStrLen);
        }
        if str_eq(s, "MSR") {
            return Ok(GenderClass { gender_group: GenderGroup::Male, class: Class::Senior });
        }
        if str_eq(s, "MJS") {
            return Ok(GenderClass { gender_group: GenderGroup::Male, class: Class::Junior(None) });
        }
        if str_eq(s, "KSR") {
            return Ok(GenderClass { gender_group: GenderGroup::Female, class: Class::Senior });
        }
        if str_eq(s, "KJR") {
            return Ok(
                GenderClass { gender_group: GenderGroup::Female, class: Class::Junior(None) },
            );
        }
        if str_eq(s, "XSR") {
            return Ok(GenderClass { gender_group: GenderGroup::Mixed, class: Class::Senior });
        }
        if str_eq(s, "XJR") {
            return Ok(GenderClass { gender_group: GenderGroup::Mixed, class: Class::Junior(None) });
        }
        let g = s.get_char(0);
        if g != 'M' && g != 'K' {
            return Err(Error::InvalidGender);
        }
        let d1 = s.get_char(1) as u32;
        let d2 = s.get_char(2) as u32;
        if d1 < 48 || d1 > 57 || d2 < 48 || d2 > 57 {
            return Err(Error::InvalidClassYearStr(String::from_str(s)));
        }
        let year = ((d1 - 48) * 10 + (d2 - 48)) as u16 as i16;
        Ok(
            GenderClass {
                gender_group: if g == 'M' {
                    GenderGroup::Male
                } else {
                    GenderGroup::Female
                },
                class: Class::Junior(Some(year)),
            },
        )
    }
}

/// Law: the six fixed tokens decode to their exact gender and class;
/// every other well-formed three-character token decodes as gender
/// letter plus two-digit year; any other length fails.
pub proof fn lemma_gender_class_mapping()
    ensures
        GenderClass::decode_spec("MSR"@) == Some(
            GenderClass { gender_group: GenderGroup::Male, class: Class::Senior },
        ),
        GenderClass::decode_spec("MJS"@) == Some(
            GenderClass { gender_group: GenderGroup::Male, class: Class::Junior(None) },
        ),
        GenderClass::decode_spec("KSR"@) == Some(
            GenderClass { gender_group: GenderGroup::Female, class: Class::Senior },
        ),
        GenderClass::decode_spec("KJR"@) == Some(
            GenderClass { gender_group: GenderGroup::Female, class: Class::Junior(None) },
        ),
        GenderClass::decode_spec("XSR"@) == Some(
            GenderClass { gender_group: GenderGroup::Mixed, class: Class::Senior },
        ),
        GenderClass::decode_spec("XJR"@) == Some(
            GenderClass { gender_group: GenderGroup::Mixed, class: Class::Junior(None) },
        ),
        forall|s: Seq<char>| s.len() != 3 ==> #[trigger] GenderClass::decode_spec(s) is None,
{
    reveal_strlit("MSR");
    reveal_strlit("MJS");
    reveal_strlit("KSR");
    reveal_strlit("KJR");
    reveal_strlit("XSR");
    reveal_strlit("XJR");
    assert("MSR"@.len() == 3);
    assert("MJS"@.len() == 3);
    assert("KSR"@.len() == 3);
    assert("KJR"@.len() == 3);
    assert("XSR"@.len() == 3);
    assert("XJR"@.len() == 3);
    assert("MJS"@[1] == 'J');
    assert("KSR"@[0] == 'K');
    assert("KJR"@[0] == 'K');
    assert("XSR"@[0] == 'X');
    assert("XJR"@[0] == 'X');
}

} // verus!
