//! Generic document model: the element tree a meet document is decoded
//! from.
//!
//! An off-the-shelf XML reader (outside this crate) turns the raw bytes
//! into this tree; every decoder here consumes element names and text
//! values as plain strings, as the record decoders expect them.

use super::primitives::{
    bool_value, is_date_str, is_duration_str, is_time_str, opt_bool_value, parse_bool, parse_date,
    parse_duration, parse_opt_bool, parse_time, parse_year, Date, Time,
};
use crate::text::{is_signed_digits, signed_int, str_eq};
use vstd::prelude::*;

verus! {

/// One element of a document: its name, its text content and its child
/// elements.
#[derive(Debug)]
pub struct Element {
    /// Element name.
    pub name: String,
    /// Concatenated text content.
    pub text: String,
    /// Child elements, in document order.
    pub children: Vec<Element>,
}

/// Structural rejection of a record: the failing field is always named.
#[derive(Debug, Clone, PartialEq, Eq)]
pub enum DecodeError {
    /// A field the record schema does not know; only the strict
    /// top-level meet record raises this.
    UnknownField(String),
    /// A required field is absent.
    MissingField(String),
    /// A field is present but its value was refused; carries the field
    /// name and the raw value.
    InvalidField(String, String),
}

/// The first child with the given name, searched in document order.
pub open spec fn find_spec(cs: Seq<Element>, name: Seq<char>) -> Option<Element>
    decreases cs.len(),
{
    if cs.len() == 0 {
        None
    } else if cs[0].name@ == name {
        Some(cs[0])
    } else {
        find_spec(cs.drop_first(), name)
    }
}

/// Text of the first child with the given name.
pub open spec fn field_spec(cs: Seq<Element>, name: Seq<char>) -> Option<Seq<char>> {
    match find_spec(cs, name) {
        Some(e) => Some(e.text@),
        None => None,
    }
}

impl Element {
    /// Find the first child element with the given name.
    pub fn find<'a>(&'a self, name: &str) -> (r: Option<&'a Element>)
        ensures
            match r {
                Some(e) => find_spec(self.children@, name@) == Some(*e),
                None => find_spec(self.children@, name@) is None,
            },
    {
        let n = self.children.len();
        let mut i: usize = 0;
        proof {
            assert(self.children@.skip(0) =~= self.children@);
        }
        while i < n
            invariant
                i <= n,
                n == self.children@.len(),
                find_spec(self.children@, name@) == find_spec(
                    self.children@.skip(i as int),
                    name@,
                ),
            decreases n - i,
        {
            proof {
                assert(self.children@.skip(i as int)[0] == self.children@[i as int]);
                assert(self.children@.skip(i as int).drop_first() =~= self.children@.skip(
                    i as int + 1,
                ));
            }
            let e = &self.children[i];
            if str_eq(e.name.as_str(), name) {
                return Some(e);
            }
            i = i + 1;
        }
        None
    }

    /// Text of a field known under two names; the primary name wins.
    pub fn field_text2<'a>(&'a self, n1: &str, n2: &str) -> (r: Option<&'a String>)
        ensures
            match r {
                Some(t) => field2_spec(self.children@, n1@, n2@) == Some(t@),
                None => field2_spec(self.children@, n1@, n2@) is None,
            },
    {
        match self.field_text(n1) {
            Some(t) => Some(t),
            None => self.field_text(n2),
        }
    }

    /// Copied text of a field known under three names, tried in order.
    pub fn field_text3(&self, n1: &str, n2: &str, n3: &str) -> (r: Option<String>)
        ensures
            match r {
                Some(t) => field3_spec(self.children@, n1@, n2@, n3@) == Some(t@),
                None => field3_spec(self.children@, n1@, n2@, n3@) is None,
            },
    {
        match self.field_text2(n1, n2) {
            Some(t) => Some(t.clone()),
            None => match self.field_text(n3) {
                Some(t) => Some(t.clone()),
                None => None,
            },
        }
    }

    /// Text of the first child element with the given name.
    pub fn field_text<'a>(&'a self, name: &str) -> (r: Option<&'a String>)
        ensures
            match r {
                Some(t) => field_spec(self.children@, name@) == Some(t@),
                None => field_spec(self.children@, name@) is None,
            },
    {
        match self.find(name) {
            Some(e) => Some(&e.text),
            None => None,
        }
    }
}

/// An unsigned decimal with an upper bound.
pub open spec fn uint_value(t: Seq<char>, max: int) -> Option<int> {
    if t.len() > 0 && crate::text::all_digits(t) && crate::text::digits_int(t) <= max {
        Some(crate::text::digits_int(t))
    } else {
        None
    }
}

/// A year number, as `parse_year` accepts it.
pub open spec fn year_value(t: Seq<char>) -> Option<int> {
    if is_signed_digits(t) && i16::MIN <= signed_int(t) <= i16::MAX {
        Some(signed_int(t))
    } else {
        None
    }
}

/// A required field decoded by `f`: absent or refused gives `None`.
pub open spec fn req_bool_spec(cs: Seq<Element>, name: Seq<char>) -> Option<bool> {
    match field_spec(cs, name) {
        None => None,
        Some(t) => bool_value(t),
    }
}

/// A required unsigned decimal field with an upper bound.
pub open spec fn req_uint_spec(cs: Seq<Element>, name: Seq<char>, max: int) -> Option<int> {
    match field_spec(cs, name) {
        None => None,
        Some(t) => uint_value(t, max),
    }
}

/// A required calendar-date field.
pub open spec fn req_date_spec(cs: Seq<Element>, name: Seq<char>) -> Option<Date> {
    match field_spec(cs, name) {
        None => None,
        Some(t) => if is_date_str(t) {
            Some(
                Date {
                    year: crate::meet_setup::primitives::date_str_year(t) as u16,
                    month: crate::meet_setup::primitives::date_str_month(t) as u8,
                    day: crate::meet_setup::primitives::date_str_day(t) as u8,
                },
            )
        } else {
            None
        },
    }
}

/// A required time-of-day field.
pub open spec fn req_time_spec(cs: Seq<Element>, name: Seq<char>) -> Option<Time> {
    match field_spec(cs, name) {
        None => None,
        Some(t) => if is_time_str(t) {
            Some(
                Time {
                    hour: crate::meet_setup::primitives::time_str_hour(t) as u8,
                    minute: crate::meet_setup::primitives::time_str_minute(t) as u8,
                },
            )
        } else {
            None
        },
    }
}

/// An optional boolean field: an absent field or empty text is `None`.
pub open spec fn opt_bool_spec(cs: Seq<Element>, name: Seq<char>) -> Option<Option<bool>> {
    match field_spec(cs, name) {
        None => Some(None),
        Some(t) => opt_bool_value(t),
    }
}

/// An optional unsigned decimal field.
pub open spec fn opt_uint_spec(cs: Seq<Element>, name: Seq<char>, max: int) -> Option<
    Option<int>,
> {
    match field_spec(cs, name) {
        None => Some(None),
        Some(t) => match uint_value(t, max) {
            Some(v) => Some(Some(v)),
            None => None,
        },
    }
}

/// An optional year field; the field must parse when present.
pub open spec fn opt_year_spec(cs: Seq<Element>, name: Seq<char>) -> Option<Option<int>> {
    match field_spec(cs, name) {
        None => Some(None),
        Some(t) => match year_value(t) {
            Some(v) => Some(Some(v)),
            None => None,
        },
    }
}

/// An optional date field: an absent field or empty text is `None`.
pub open spec fn opt_date_spec(cs: Seq<Element>, name: Seq<char>) -> Option<Option<Date>> {
    match field_spec(cs, name) {
        None => Some(None),
        Some(t) => if t.len() == 0 {
            Some(None)
        } else if is_date_str(t) {
            Some(
                Some(
                    Date {
                        year: crate::meet_setup::primitives::date_str_year(t) as u16,
                        month: crate::meet_setup::primitives::date_str_month(t) as u8,
                        day: crate::meet_setup::primitives::date_str_day(t) as u8,
                    },
                ),
            )
        } else {
            None
        },
    }
}

/// An optional duration field in the 8-character event layout.
pub open spec fn opt_duration_spec(cs: Seq<Element>, name: Seq<char>) -> Option<Option<int>> {
    match field_spec(cs, name) {
        None => Some(None),
        Some(t) => if is_duration_str(t) {
            Some(Some(crate::meet_setup::primitives::duration_str_ms(t)))
        } else {
            None
        },
    }
}

/// The children with the given name, in document order.
pub open spec fn children_named(cs: Seq<Element>, name: Seq<char>) -> Seq<Element>
    decreases cs.len(),
{
    if cs.len() == 0 {
        Seq::empty()
    } else if cs.last().name@ == name {
        children_named(cs.drop_last(), name).push(cs.last())
    } else {
        children_named(cs.drop_last(), name)
    }
}

/// A field known under two names: the primary name wins, the alias is
/// tried second.
pub open spec fn field2_spec(cs: Seq<Element>, n1: Seq<char>, n2: Seq<char>) -> Option<Seq<char>> {
    match field_spec(cs, n1) {
        Some(t) => Some(t),
        None => field_spec(cs, n2),
    }
}

/// A field known under three names, tried in order.
pub open spec fn field3_spec(cs: Seq<Element>, n1: Seq<char>, n2: Seq<char>, n3: Seq<char>) -> Option<
    Seq<char>,
> {
    match field2_spec(cs, n1, n2) {
        Some(t) => Some(t),
        None => field_spec(cs, n3),
    }
}

/// The named children of a prefix are a prefix of the named children of
/// the whole.
pub proof fn lemma_children_named_prefix(cs: Seq<Element>, name: Seq<char>, i: int)
    requires
        0 <= i <= cs.len(),
    ensures
        children_named(cs.subrange(0, i), name).len() <= children_named(cs, name).len(),
        forall|j: int|
            0 <= j < children_named(cs.subrange(0, i), name).len() ==> children_named(
                cs.subrange(0, i),
                name,
            )[j] == #[trigger] children_named(cs, name)[j],
    decreases cs.len() - i,
{
    if i == cs.len() {
        assert(cs.subrange(0, i) =~= cs);
    } else {
        lemma_children_named_prefix(cs, name, i + 1);
        assert(cs.subrange(0, i + 1).drop_last() =~= cs.subrange(0, i));
        assert(cs.subrange(0, i + 1).last() == cs[i]);
    }
}

/// A required text field holds exactly this string.
pub open spec fn req_text_is(cs: Seq<Element>, name: Seq<char>, v: Seq<char>) -> bool {
    field_spec(cs, name) == Some(v)
}

/// An optional text field holds exactly this optional string.
pub open spec fn opt_text_is(cs: Seq<Element>, name: Seq<char>, v: Option<String>) -> bool {
    match field_spec(cs, name) {
        None => v is None,
        Some(t) => v matches Some(s) && s@ == t,
    }
}

impl Element {
    /// Decode a required boolean field.
    pub fn req_bool(&self, name: &str) -> (r: Result<bool, DecodeError>)
        ensures
            r matches Ok(v) ==> req_bool_spec(self.children@, name@) == Some(v),
            r is Err <==> req_bool_spec(self.children@, name@) is None,
            r matches Err(e) ==> (e matches DecodeError::MissingField(f) && f@ == name@) || (
            e matches DecodeError::InvalidField(f, raw) && f@ == name@ && field_spec(
                self.children@,
                name@,
            ) == Some(raw@)),
    {
        match self.field_text(name) {
            None => Err(DecodeError::MissingField(String::from_str(name))),
            Some(t) => match parse_bool(t.as_str()) {
                Ok(b) => Ok(b),
                Err(_) => Err(
                    DecodeError::InvalidField(String::from_str(name), t.clone()),
                ),
            },
        }
    }

    /// Decode a required text field.
    pub fn req_text(&self, name: &str) -> (r: Result<String, DecodeError>)
        ensures
            r matches Ok(v) ==> req_text_is(self.children@, name@, v@),
            r is Err <==> field_spec(self.children@, name@) is None,
            r matches Err(e) ==> (e matches DecodeError::MissingField(f) && f@ == name@),
    {
        match self.field_text(name) {
            None => Err(DecodeError::MissingField(String::from_str(name))),
            Some(t) => Ok(t.clone()),
        }
    }

    /// Decode a required text field, with the empty string for an absent
    /// field.
    pub fn text_or_empty(&self, name: &str) -> (r: String)
        ensures
            match field_spec(self.children@, name@) {
                Some(t) => r@ == t,
                None => r@ == Seq::<char>::empty(),
            },
    {
        match self.field_text(name) {
            None => String::new(),
            Some(t) => t.clone(),
        }
    }

    /// Decode a required unsigned field that fits in `u8`.
    pub fn req_u8(&self, name: &str) -> (r: Result<u8, DecodeError>)
        ensures
            r matches Ok(v) ==> req_uint_spec(self.children@, name@, u8::MAX as int) == Some(
                v as int,
            ),
            r is Err <==> req_uint_spec(self.children@, name@, u8::MAX as int) is None,
            r matches Err(e) ==> (e matches DecodeError::MissingField(f) && f@ == name@) || (
            e matches DecodeError::InvalidField(f, raw) && f@ == name@ && field_spec(
                self.children@,
                name@,
            ) == Some(raw@)),
    {
        match self.field_text(name) {
            None => Err(DecodeError::MissingField(String::from_str(name))),
            Some(t) => match crate::text::parse_u8(t.as_str()) {
                Some(v) => Ok(v),
                None => Err(DecodeError::InvalidField(String::from_str(name), t.clone())),
            },
        }
    }

    /// Decode a required unsigned field that fits in `u16`.
    pub fn req_u16(&self, name: &str) -> (r: Result<u16, DecodeError>)
        ensures
            r matches Ok(v) ==> req_uint_spec(self.children@, name@, u16::MAX as int) == Some(
                v as int,
            ),
            r is Err <==> req_uint_spec(self.children@, name@, u16::MAX as int) is None,
            r matches Err(e) ==> (e matches DecodeError::MissingField(f) && f@ == name@) || (
            e matches DecodeError::InvalidField(f, raw) && f@ == name@ && field_spec(
                self.children@,
                name@,
            ) == Some(raw@)),
    {
        match self.field_text(name) {
            None => Err(DecodeError::MissingField(String::from_str(name))),
            Some(t) => match crate::text::parse_u16(t.as_str()) {
                Some(v) => Ok(v),
                None => Err(DecodeError::InvalidField(String::from_str(name), t.clone())),
            },
        }
    }

    /// Decode a required unsigned field that fits in `u32`.
    pub fn req_u32(&self, name: &str) -> (r: Result<u32, DecodeError>)
        ensures
            r matches Ok(v) ==> req_uint_spec(self.children@, name@, u32::MAX as int) == Some(
                v as int,
            ),
            r is Err <==> req_uint_spec(self.children@, name@, u32::MAX as int) is None,
            r matches Err(e) ==> (e matches DecodeError::MissingField(f) && f@ == name@) || (
            e matches DecodeError::InvalidField(f, raw) && f@ == name@ && field_spec(
                self.children@,
                name@,
            ) == Some(raw@)),
    {
        match self.field_text(name) {
            None => Err(DecodeError::MissingField(String::from_str(name))),
            Some(t) => match crate::text::parse_u32(t.as_str()) {
                Some(v) => Ok(v),
                None => Err(DecodeError::InvalidField(String::from_str(name), t.clone())),
            },
        }
    }

    /// Decode a required calendar-date field.
    pub fn req_date(&self, name: &str) -> (r: Result<Date, DecodeError>)
        ensures
            r matches Ok(v) ==> req_date_spec(self.children@, name@) == Some(v),
            r is Err <==> req_date_spec(self.children@, name@) is None,
            r matches Err(e) ==> (e matches DecodeError::MissingField(f) && f@ == name@) || (
            e matches DecodeError::InvalidField(f, raw) && f@ == name@ && field_spec(
                self.children@,
                name@,
            ) == Some(raw@)),
    {
        match self.field_text(name) {
            None => Err(DecodeError::MissingField(String::from_str(name))),
            Some(t) => match parse_date(t.as_str()) {
                Ok(d) => Ok(d),
                Err(_) => Err(
                    DecodeError::InvalidField(String::from_str(name), t.clone()),
                ),
            },
        }
    }

    /// Decode a required time-of-day field.
    pub fn req_time(&self, name: &str) -> (r: Result<Time, DecodeError>)
        ensures
            r matches Ok(v) ==> req_time_spec(self.children@, name@) == Some(v),
            r is Err <==> req_time_spec(self.children@, name@) is None,
            r matches Err(e) ==> (e matches DecodeError::MissingField(f) && f@ == name@) || (
            e matches DecodeError::InvalidField(f, raw) && f@ == name@ && field_spec(
                self.children@,
                name@,
            ) == Some(raw@)),
    {
        match self.field_text(name) {
            None => Err(DecodeError::MissingField(String::from_str(name))),
            Some(t) => match parse_time(t.as_str()) {
                Ok(v) => Ok(v),
                Err(_) => Err(
                    DecodeError::InvalidField(String::from_str(name), t.clone()),
                ),
            },
        }
    }

    /// Decode an optional text field.
    pub fn opt_text(&self, name: &str) -> (r: Option<String>)
        ensures
            opt_text_is(self.children@, name@, r),
    {
        match self.field_text(name) {
            None => None,
            Some(t) => Some(t.clone()),
        }
    }

    /// Decode an optional boolean field; the empty string also stands
    /// for an absent value.
    pub fn opt_bool(&self, name: &str) -> (r: Result<Option<bool>, DecodeError>)
        ensures
            r matches Ok(v) ==> opt_bool_spec(self.children@, name@) == Some(v),
            r is Err <==> opt_bool_spec(self.children@, name@) is None,
            r matches Err(e) ==> (e matches DecodeError::InvalidField(f, raw) && f@ == name@
                && field_spec(self.children@, name@) == Some(raw@)),
    {
        match self.field_text(name) {
            None => Ok(None),
            Some(t) => match parse_opt_bool(t.as_str()) {
                Ok(v) => Ok(v),
                Err(_) => Err(
                    DecodeError::InvalidField(String::from_str(name), t.clone()),
                ),
            },
        }
    }

    /// Decode an optional unsigned field that fits in `u8`.
    pub fn opt_u8(&self, name: &str) -> (r: Result<Option<u8>, DecodeError>)
        ensures
            r matches Ok(v) ==> opt_uint_spec(self.children@, name@, u8::MAX as int) == Some(
                match v {
                    Some(x) => Some(x as int),
                    None => None,
                },
            ),
            r is Err <==> opt_uint_spec(self.children@, name@, u8::MAX as int) is None,
            r matches Err(e) ==> (e matches DecodeError::InvalidField(f, raw) && f@ == name@
                && field_spec(self.children@, name@) == Some(raw@)),
    {
        match self.field_text(name) {
            None => Ok(None),
            Some(t) => match crate::text::parse_u8(t.as_str()) {
                Some(v) => Ok(Some(v)),
                None => Err(DecodeError::InvalidField(String::from_str(name), t.clone())),
            },
        }
    }

    /// Decode an optional unsigned field that fits in `u16`.
    pub fn opt_u16(&self, name: &str) -> (r: Result<Option<u16>, DecodeError>)
        ensures
            r matches Ok(v) ==> opt_uint_spec(self.children@, name@, u16::MAX as int) == Some(
                match v {
                    Some(x) => Some(x as int),
                    None => None,
                },
            ),
            r is Err <==> opt_uint_spec(self.children@, name@, u16::MAX as int) is None,
            r matches Err(e) ==> (e matches DecodeError::InvalidField(f, raw) && f@ == name@
                && field_spec(self.children@, name@) == Some(raw@)),
    {
        match self.field_text(name) {
            None => Ok(None),
            Some(t) => match crate::text::parse_u16(t.as_str()) {
                Some(v) => Ok(Some(v)),
                None => Err(DecodeError::InvalidField(String::from_str(name), t.clone())),
            },
        }
    }

    /// Decode an optional unsigned field that fits in `u32`.
    pub fn opt_u32(&self, name: &str) -> (r: Result<Option<u32>, DecodeError>)
        ensures
            r matches Ok(v) ==> opt_uint_spec(self.children@, name@, u32::MAX as int) == Some(
                match v {
                    Some(x) => Some(x as int),
                    None => None,
                },
            ),
            r is Err <==> opt_uint_spec(self.children@, name@, u32::MAX as int) is None,
            r matches Err(e) ==> (e matches DecodeError::InvalidField(f, raw) && f@ == name@
                && field_spec(self.children@, name@) == Some(raw@)),
    {
        match self.field_text(name) {
            None => Ok(None),
            Some(t) => match crate::text::parse_u32(t.as_str()) {
                Some(v) => Ok(Some(v)),
                None => Err(DecodeError::InvalidField(String::from_str(name), t.clone())),
            },
        }
    }

    /// Decode an optional unsigned field that fits in `u64`.
    pub fn opt_u64(&self, name: &str) -> (r: Result<Option<u64>, DecodeError>)
        ensures
            r matches Ok(v) ==> opt_uint_spec(self.children@, name@, crate::text::u64_max())
                == Some(
                match v {
                    Some(x) => Some(x as int),
                    None => None,
                },
            ),
            r is Err <==> opt_uint_spec(self.children@, name@, crate::text::u64_max()) is None,
            r matches Err(e) ==> (e matches DecodeError::InvalidField(f, raw) && f@ == name@
                && field_spec(self.children@, name@) == Some(raw@)),
    {
        match self.field_text(name) {
            None => Ok(None),
            Some(t) => match crate::text::parse_u64(t.as_str()) {
                Some(v) => Ok(Some(v)),
                None => Err(DecodeError::InvalidField(String::from_str(name), t.clone())),
            },
        }
    }

    /// Decode an optional year field.
    pub fn opt_year(&self, name: &str) -> (r: Result<Option<i16>, DecodeError>)
        ensures
            r matches Ok(v) ==> opt_year_spec(self.children@, name@) == Some(
                match v {
                    Some(x) => Some(x as int),
                    None => None,
                },
            ),
            r is Err <==> opt_year_spec(self.children@, name@) is None,
            r matches Err(e) ==> (e matches DecodeError::InvalidField(f, raw) && f@ == name@
                && field_spec(self.children@, name@) == Some(raw@)),
    {
        match self.field_text(name) {
            None => Ok(None),
            Some(t) => match parse_year(t.as_str()) {
                Ok(v) => Ok(Some(v)),
                Err(_) => Err(
                    DecodeError::InvalidField(String::from_str(name), t.clone()),
                ),
            },
        }
    }

    /// Decode an optional date field; the empty string also stands for
    /// an absent value.
    pub fn opt_date(&self, name: &str) -> (r: Result<Option<Date>, DecodeError>)
        ensures
            r matches Ok(v) ==> opt_date_spec(self.children@, name@) == Some(v),
            r is Err <==> opt_date_spec(self.children@, name@) is None,
            r matches Err(e) ==> (e matches DecodeError::InvalidField(f, raw) && f@ == name@
                && field_spec(self.children@, name@) == Some(raw@)),
    {
        match self.field_text(name) {
            None => Ok(None),
            Some(t) => match crate::meet_setup::primitives::parse_opt_date(t.as_str()) {
                Ok(v) => Ok(v),
                Err(_) => Err(
                    DecodeError::InvalidField(String::from_str(name), t.clone()),
                ),
            },
        }
    }

    /// Decode an optional duration field in the 8-character layout.
    pub fn opt_duration(&self, name: &str) -> (r: Result<Option<u64>, DecodeError>)
        ensures
            r matches Ok(v) ==> opt_duration_spec(self.children@, name@) == Some(
                match v {
                    Some(x) => Some(x as int),
                    None => None,
                },
            ),
            r is Err <==> opt_duration_spec(self.children@, name@) is None,
            r matches Err(e) ==> (e matches DecodeError::InvalidField(f, raw) && f@ == name@
                && field_spec(self.children@, name@) == Some(raw@)),
    {
        match self.field_text(name) {
            None => Ok(None),
            Some(t) => match parse_duration(t.as_str()) {
                Ok(v) => Ok(Some(v)),
                Err(_) => Err(
                    DecodeError::InvalidField(String::from_str(name), t.clone()),
                ),
            },
        }
    }
}

} // verus!
