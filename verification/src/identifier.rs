//! Names of functions and variables.

use vstd::prelude::*;
use vstd::string::*;
use serde_json::Value;
use crate::error::Error;
use crate::json::{as_text, json_of, render, rendered, text_value, Json};

verus! {

/// The least number of bytes, in UTF-8, that an identifier has.
pub const MIN_IDENTIFIER_BYTES: usize = 2;

/// The characters with the Unicode property `White_Space`.
pub open spec fn is_whitespace(c: char) -> bool {
    let n = c as u32;
    (0x09 <= n && n <= 0x0D) || n == 0x20 || n == 0x85 || n == 0xA0 || n == 0x1680
        || (0x2000 <= n && n <= 0x200A) || n == 0x2028 || n == 0x2029 || n == 0x202F
        || n == 0x205F || n == 0x3000
}

/// A text is an identifier when its UTF-8 form has at least
/// [`MIN_IDENTIFIER_BYTES`] bytes and none of its characters is whitespace.
pub open spec fn is_identifier(s: Seq<char>) -> bool {
    &&& vstd::utf8::encode_utf8(s).len() >= MIN_IDENTIFIER_BYTES
    &&& forall|i: int| 0 <= i < s.len() ==> !is_whitespace(#[trigger] s[i])
}

/// A text has at least two bytes in UTF-8 exactly when it has two characters
/// or more, or one character that is not ASCII.
pub proof fn lemma_two_bytes(s: Seq<char>)
    ensures
        vstd::utf8::encode_utf8(s).len() >= 2 <==> (s.len() >= 2 || (s.len() == 1 && s[0] as u32
            > 0x7F)),
{
    reveal_with_fuel(vstd::utf8::encode_utf8, 3);
    if s.len() >= 1 {
        let rest = s.drop_first();
        assert(vstd::utf8::encode_scalar(s[0] as u32).len() >= 1);
        if rest.len() >= 1 {
            assert(vstd::utf8::encode_scalar(rest[0] as u32).len() >= 1);
        }
    }
}

/// The identifier that a JSON value spells: the text of a string that is an
/// identifier, and nothing for every other value.
pub open spec fn identifier_text(j: Json) -> Option<Seq<char>> {
    match j {
        Json::String(s) => if is_identifier(s) {
            Some(s)
        } else {
            None
        },
        _ => None,
    }
}

/// The text that a value is taken to spell where an identifier is wanted:
/// the text of a string, and for any other value its compact JSON.
pub open spec fn spelled(value: Value) -> Seq<char> {
    match json_of(value) {
        Json::String(s) => s,
        _ => rendered(value),
    }
}

/// What is reported of a text that is no identifier.
pub open spec fn invalid_identifier_message(text: Seq<char>) -> Seq<char> {
    "Invalid identifier '"@ + text
        + "': identifiers must be valid utf-8 of 2 or more characters, containing no whitespace"@
}

/// Says why `text` is no identifier.
pub fn describe_invalid_identifier(text: &str) -> (message: String)
    ensures
        message@ == invalid_identifier_message(text@),
{
    String::from_str("Invalid identifier '").concat(text).concat(
        "': identifiers must be valid utf-8 of 2 or more characters, containing no whitespace",
    )
}

/// `char::is_whitespace`: whether `c` has the Unicode property
/// `White_Space`, whose code points are those that [`is_whitespace`] lists.
#[verifier::external_body]
fn char_is_whitespace(c: char) -> (r: bool)
    ensures
        r == is_whitespace(c),
{
    c.is_whitespace()
}

/// A validated name of a function or a variable.
#[derive(Debug, PartialEq, Eq)]
pub struct Identifier {
    value: String,
}

impl View for Identifier {
    type V = Seq<char>;

    closed spec fn view(&self) -> Seq<char> {
        self.value@
    }
}

impl Clone for Identifier {
    fn clone(&self) -> (r: Identifier)
        ensures
            r@ == self@,
    {
        proof {
            use_type_invariant(self);
        }
        Identifier { value: self.value.clone() }
    }
}

impl Identifier {
    #[verifier::type_invariant]
    closed spec fn valid(&self) -> bool {
        is_identifier(self.value@)
    }

    /// Validates `value` as an identifier.
    pub fn new(value: String) -> (r: Result<Identifier, Error>)
        ensures
            is_identifier(value@) ==> r is Ok && r.unwrap()@ == value@,
            !is_identifier(value@) ==> r == Err::<Identifier, Error>(Error::InvalidIdentifier(value)),
    {
        if value.as_str().as_bytes().len() < MIN_IDENTIFIER_BYTES {
            return Err(Error::InvalidIdentifier(value));
        }
        let n: usize = value.as_str().unicode_len();
        let mut i: usize = 0;
        while i < n
            invariant
                n == value@.len(),
                i <= n,
                forall|j: int| 0 <= j < i ==> !is_whitespace(#[trigger] value@[j]),
            decreases n - i,
        {
            if char_is_whitespace(value.as_str().get_char(i)) {
                return Err(Error::InvalidIdentifier(value));
            }
            i += 1;
        }
        Ok(Identifier { value })
    }

    /// Reads an identifier from a JSON value, which must be a string that
    /// is an identifier. The failure holds the string, or for another kind
    /// of value its compact JSON.
    pub fn try_from(value: &Value) -> (r: Result<Identifier, Error>)
        ensures
            match identifier_text(json_of(*value)) {
                Some(s) => r is Ok && r.unwrap()@ == s,
                None => r is Err && r.unwrap_err() is InvalidIdentifier
                    && r.unwrap_err()->InvalidIdentifier_0@ == spelled(*value),
            },
    {
        match as_text(value) {
            Some(text) => Identifier::new(String::from_str(text)),
            None => Err(Error::InvalidIdentifier(render(value))),
        }
    }

    /// The identifier as a JSON string.
    pub fn to_value(&self) -> (v: Value)
        ensures
            json_of(v) == Json::String(self@),
            identifier_text(json_of(v)) == Some(self@),
    {
        proof {
            use_type_invariant(self);
        }
        text_value(self.value.clone())
    }

    /// Whether two identifiers are the same name.
    pub fn same_as(&self, other: &Identifier) -> (same: bool)
        ensures
            same == (self@ == other@),
    {
        self.value == other.value
    }

    /// The identifier as text.
    pub fn value(&self) -> (s: &str)
        ensures
            s@ == self@,
            is_identifier(s@),
    {
        proof {
            use_type_invariant(self);
        }
        self.value.as_str()
    }
}

} // verus!
