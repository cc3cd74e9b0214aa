//! Tolerant decoders for the scalar fields of a response.
//!
//! The service writes "no value" in three ways: it leaves the element out,
//! sends it empty, or sends an empty string. The decoders here treat an
//! absent and an empty text alike, as `None`, and fail only where a text is
//! present and does not spell a value of the type.

use vstd::prelude::*;
use vstd::string::*;
use crate::api::client::opt_text;
use crate::text::{chars_of, i64_of, is_number, looks_like_number, parse_i64};

verus! {

/// What was wrong with a response.
#[derive(Debug, Clone, Copy, PartialEq, Eq, Structural)]
pub enum DecodeReason {
    /// The text of an integer field is no decimal `i64`.
    InvalidInteger,
    /// The text of a boolean field is none of `true`, `1`, `false`, `0`.
    InvalidBoolean,
    /// The text of a floating-point field is no decimal number.
    InvalidNumber,
    /// The document is not well-formed XML, or ends early.
    MalformedDocument,
    /// The document's root element is not the one expected.
    UnexpectedRoot,
    /// A scalar field holds elements where text was expected.
    UnexpectedElement,
    /// A field occurs more than once.
    DuplicateField,
}

/// A response that could not be decoded: the field at fault, its text as
/// received, and the reason.
#[derive(Debug, Clone, PartialEq, Eq)]
pub struct DecodeError {
    pub field: String,
    pub raw_text: String,
    pub reason: DecodeReason,
}

/// A decode error over plain sequences of characters.
pub struct Fault {
    pub field: Seq<char>,
    pub raw_text: Seq<char>,
    pub reason: DecodeReason,
}

impl View for DecodeError {
    type V = Fault;

    open spec fn view(&self) -> Fault {
        Fault { field: self.field@, raw_text: self.raw_text@, reason: self.reason }
    }
}

/// What is said of a fault of this kind.
pub open spec fn reason_text(reason: DecodeReason) -> Seq<char> {
    match reason {
        DecodeReason::InvalidInteger => "invalid integer value: "@,
        DecodeReason::InvalidBoolean => "invalid bool value: "@,
        DecodeReason::InvalidNumber => "invalid number value: "@,
        DecodeReason::MalformedDocument => "malformed XML document"@,
        DecodeReason::UnexpectedRoot => "unexpected root element: "@,
        DecodeReason::UnexpectedElement => "unexpected element beside: "@,
        DecodeReason::DuplicateField => "duplicate field"@,
    }
}

impl Fault {
    /// What `DecodeError::message` returns: the field, what is wrong with
    /// it, and its text.
    pub open spec fn message_text(self) -> Seq<char> {
        self.field + ": "@ + reason_text(self.reason) + self.raw_text
    }
}

impl DecodeError {
    /// The line shown to the user.
    pub fn message(&self) -> (m: String)
        ensures
            m@ == self@.message_text(),
    {
        let mut m = self.field.clone();
        m.append(": ");
        match self.reason {
            DecodeReason::InvalidInteger => m.append("invalid integer value: "),
            DecodeReason::InvalidBoolean => m.append("invalid bool value: "),
            DecodeReason::InvalidNumber => m.append("invalid number value: "),
            DecodeReason::MalformedDocument => m.append("malformed XML document"),
            DecodeReason::UnexpectedRoot => m.append("unexpected root element: "),
            DecodeReason::UnexpectedElement => m.append("unexpected element beside: "),
            DecodeReason::DuplicateField => m.append("duplicate field"),
        }
        m.append(self.raw_text.as_str());
        m
    }

    /// The error for `field` with text `raw_text`.
    pub fn new(field: &str, raw_text: &str, reason: DecodeReason) -> (e: DecodeError)
        ensures
            e@ == (Fault { field: field@, raw_text: raw_text@, reason }),
    {
        DecodeError {
            field: String::from_str(field),
            raw_text: String::from_str(raw_text),
            reason,
        }
    }
}

/// What a tolerant decoder makes of an optional text: `Ok(None)` for an
/// absent or empty text, `Ok(Some(v))` where `parsed` is `Some(v)`, and
/// the fault with `reason` otherwise.
pub open spec fn tolerant<T>(
    field: Seq<char>,
    text: Option<Seq<char>>,
    parsed: Option<T>,
    reason: DecodeReason,
) -> Result<Option<T>, Fault> {
    match text {
        None => Ok(None),
        Some(t) => if t.len() == 0 {
            Ok(None)
        } else {
            match parsed {
                Some(v) => Ok(Some(v)),
                None => Err(Fault { field, raw_text: t, reason }),
            }
        },
    }
}

/// The boolean that `t` spells: `true` or `1`, `false` or `0`.
pub open spec fn bool_of(t: Seq<char>) -> Option<bool> {
    if t == seq!['t', 'r', 'u', 'e'] || t == seq!['1'] {
        Some(true)
    } else if t == seq!['f', 'a', 'l', 's', 'e'] || t == seq!['0'] {
        Some(false)
    } else {
        None
    }
}

/// What `deserialize_optional_i64` returns for `text`.
pub open spec fn optional_i64(field: Seq<char>, text: Option<Seq<char>>) -> Result<
    Option<i64>,
    Fault,
> {
    tolerant(
        field,
        text,
        match text {
            Some(t) => i64_of(t),
            None => None,
        },
        DecodeReason::InvalidInteger,
    )
}

/// What `deserialize_optional_bool` returns for `text`.
pub open spec fn optional_bool(field: Seq<char>, text: Option<Seq<char>>) -> Result<
    Option<bool>,
    Fault,
> {
    tolerant(
        field,
        text,
        match text {
            Some(t) => bool_of(t),
            None => None,
        },
        DecodeReason::InvalidBoolean,
    )
}

/// What `deserialize_optional_f64` returns for `text`: the text itself
/// where it writes a floating-point number.
pub open spec fn optional_number(field: Seq<char>, text: Option<Seq<char>>) -> Result<
    Option<Seq<char>>,
    Fault,
> {
    tolerant(
        field,
        text,
        match text {
            Some(t) => if is_number(t) {
                Some(t)
            } else {
                None
            },
            None => None,
        },
        DecodeReason::InvalidNumber,
    )
}

/// The view of an optional string slice.
pub open spec fn opt_str(s: Option<&str>) -> Option<Seq<char>> {
    match s {
        Some(t) => Some(t@),
        None => None,
    }
}

/// Whether a decoded value and the outcome expected of it agree.
pub open spec fn agrees<T>(r: Result<Option<T>, DecodeError>, expected: Result<
    Option<T>,
    Fault,
>) -> bool {
    match r {
        Ok(v) => expected == Ok::<Option<T>, Fault>(v),
        Err(e) => expected == Err::<Option<T>, Fault>(e@),
    }
}

/// Decodes the optional integer field `field` from its text.
pub fn deserialize_optional_i64(field: &str, text: Option<&str>) -> (r: Result<
    Option<i64>,
    DecodeError,
>)
    ensures
        agrees(r, optional_i64(field@, opt_str(text))),
{
    match text {
        None => Ok(None),
        Some(t) => {
            if t.is_empty() {
                Ok(None)
            } else {
                match parse_i64(t) {
                    Some(v) => Ok(Some(v)),
                    None => Err(DecodeError::new(field, t, DecodeReason::InvalidInteger)),
                }
            }
        },
    }
}

/// Reads `t` as a boolean.
pub fn parse_bool(t: &str) -> (r: Option<bool>)
    ensures
        r == bool_of(t@),
{
    let c = chars_of(t);
    let n = c.len();
    if n == 1 && c[0] == '1' {
        assert(c@ =~= seq!['1']);
        Some(true)
    } else if n == 1 && c[0] == '0' {
        assert(c@ =~= seq!['0']);
        Some(false)
    } else if n == 4 && c[0] == 't' && c[1] == 'r' && c[2] == 'u' && c[3] == 'e' {
        assert(c@ =~= seq!['t', 'r', 'u', 'e']);
        Some(true)
    } else if n == 5 && c[0] == 'f' && c[1] == 'a' && c[2] == 'l' && c[3] == 's' && c[4] == 'e' {
        assert(c@ =~= seq!['f', 'a', 'l', 's', 'e']);
        Some(false)
    } else {
        None
    }
}

/// Decodes the optional boolean field `field` from its text.
pub fn deserialize_optional_bool(field: &str, text: Option<&str>) -> (r: Result<
    Option<bool>,
    DecodeError,
>)
    ensures
        agrees(r, optional_bool(field@, opt_str(text))),
{
    match text {
        None => Ok(None),
        Some(t) => {
            if t.is_empty() {
                Ok(None)
            } else {
                match parse_bool(t) {
                    Some(v) => Ok(Some(v)),
                    None => Err(DecodeError::new(field, t, DecodeReason::InvalidBoolean)),
                }
            }
        },
    }
}

/// Decodes the optional floating-point field `field` from its text. The
/// field is kept as the text that writes the number, which is checked to
/// be one; turning it into a machine number is left to the caller.
pub fn deserialize_optional_f64(field: &str, text: Option<&str>) -> (r: Result<
    Option<String>,
    DecodeError,
>)
    ensures
        match r {
            Ok(v) => optional_number(field@, opt_str(text)) == Ok::<Option<Seq<char>>, Fault>(
                opt_text(v),
            ),
            Err(e) => optional_number(field@, opt_str(text)) == Err::<Option<Seq<char>>, Fault>(
                e@,
            ),
        },
{
    match text {
        None => Ok(None),
        Some(t) => {
            if t.is_empty() {
                Ok(None)
            } else if looks_like_number(t) {
                Ok(Some(String::from_str(t)))
            } else {
                Err(DecodeError::new(field, t, DecodeReason::InvalidNumber))
            }
        },
    }
}

/// An empty text and an absent one decode alike: both give `None`, for
/// every field and for each scalar type.
pub proof fn law_empty_is_absent(field: Seq<char>)
    ensures
        optional_i64(field, Some(Seq::<char>::empty())) == optional_i64(field, None),
        optional_i64(field, None) == Ok::<Option<i64>, Fault>(None),
        optional_bool(field, Some(Seq::<char>::empty())) == optional_bool(field, None),
        optional_bool(field, None) == Ok::<Option<bool>, Fault>(None),
        optional_number(field, Some(Seq::<char>::empty())) == optional_number(field, None),
        optional_number(field, None) == Ok::<Option<Seq<char>>, Fault>(None),
{
}

/// The texts `1` and `true` decode to `true`, `0` and `false` to `false`,
/// and every other text that is not empty is refused.
pub proof fn law_boolean_forms(field: Seq<char>, t: Seq<char>)
    ensures
        optional_bool(field, Some("1"@)) == Ok::<Option<bool>, Fault>(Some(true)),
        optional_bool(field, Some("true"@)) == Ok::<Option<bool>, Fault>(Some(true)),
        optional_bool(field, Some("0"@)) == Ok::<Option<bool>, Fault>(Some(false)),
        optional_bool(field, Some("false"@)) == Ok::<Option<bool>, Fault>(Some(false)),
        t.len() > 0 && t != "1"@ && t != "true"@ && t != "0"@ && t != "false"@ ==> optional_bool(
            field,
            Some(t),
        ) == Err::<Option<bool>, Fault>(
            (Fault { field, raw_text: t, reason: DecodeReason::InvalidBoolean }),
        ),
{
    reveal_strlit("1");
    reveal_strlit("true");
    reveal_strlit("0");
    reveal_strlit("false");
    assert("1"@ =~= seq!['1']);
    assert("true"@ =~= seq!['t', 'r', 'u', 'e']);
    assert("0"@ =~= seq!['0']);
    assert("false"@ =~= seq!['f', 'a', 'l', 's', 'e']);
    assert(seq!['0'][0] != seq!['1'][0]);
}

} // verus!
