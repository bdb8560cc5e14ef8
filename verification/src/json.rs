//! JSON as the SDK reads it.
//!
//! The parsing itself is `serde_json`'s; what comes back is held here as plain
//! values -- [`JsonValue`] -- so the logic that reads a refusal or unwraps an
//! envelope is verified over data the library owns.

use vstd::prelude::*;

use crate::text::{push_char, string_is};

verus! {

#[verifier::external_type_specification]
#[verifier::external_body]
pub struct ExSerdeJsonValue(serde_json::Value);

/// A JSON document.
///
/// A number keeps the text `serde_json` prints for it: digits alone for a
/// non-negative integer, a sign for a negative one, and a `.` or an exponent
/// for anything that is not an integer. An object keeps its entries in the
/// order the parser hands them over, one entry per key.
#[derive(Debug, PartialEq, Eq)]
pub enum JsonValue {
    /// `null`
    Null,
    /// `true` or `false`
    Bool(bool),
    /// A number, as text.
    Number(String),
    /// A string.
    Text(String),
    /// An array.
    List(Vec<JsonValue>),
    /// An object.
    Object(Vec<(String, JsonValue)>),
}

/// What `serde_json` makes of a text: the document, or the sentence its error
/// prints.
pub uninterp spec fn json_parse(text: Seq<char>) -> Result<JsonValue, Seq<char>>;

/// Parses JSON with `serde_json::from_str::<serde_json::Value>`.
///
/// Trusted: the result is the one `serde_json` gives for this text, carried
/// over into [`JsonValue`]; on failure, the `Display` of its error.
#[verifier::external_body]
pub fn parse_json(text: &str) -> (parsed: Result<JsonValue, String>)
    ensures
        match parsed {
            Ok(value) => json_parse(text@) == Ok::<JsonValue, Seq<char>>(value),
            Err(message) => json_parse(text@) == Err::<JsonValue, Seq<char>>(message@),
        },
{
    match serde_json::from_str::<serde_json::Value>(text) {
        Ok(value) => Ok(from_serde(value)),
        Err(failure) => Err(failure.to_string()),
    }
}

/// Carries a `serde_json::Value` over into a [`JsonValue`], variant for
/// variant; a number becomes the text `serde_json` prints for it.
#[verifier::external_body]
fn from_serde(value: serde_json::Value) -> JsonValue {
    match value {
        serde_json::Value::Null => JsonValue::Null,
        serde_json::Value::Bool(flag) => JsonValue::Bool(flag),
        serde_json::Value::Number(number) => JsonValue::Number(number.to_string()),
        serde_json::Value::String(text) => JsonValue::Text(text),
        serde_json::Value::Array(items) => JsonValue::List(items.into_iter().map(from_serde).collect()),
        serde_json::Value::Object(entries) => JsonValue::Object(
            entries.into_iter().map(|(key, item)| (key, from_serde(item))).collect(),
        ),
    }
}

/// The value of the first entry named `key`.
pub open spec fn entry_named(entries: Seq<(String, JsonValue)>, key: Seq<char>) -> Option<
    JsonValue,
>
    decreases entries.len(),
{
    if entries.len() == 0 {
        None
    } else if entries[0].0@ == key {
        Some(entries[0].1)
    } else {
        entry_named(entries.drop_first(), key)
    }
}

/// Whether every character is an ASCII digit.
pub open spec fn all_digits(text: Seq<char>) -> bool {
    forall|i: int| 0 <= i < text.len() ==> '0' <= #[trigger] text[i] <= '9'
}

/// The number a run of ASCII digits spells, most significant first.
pub open spec fn digits_value(text: Seq<char>) -> nat
    decreases text.len(),
{
    if text.len() == 0 {
        0
    } else {
        digits_value(text.drop_last()) * 10 + ((text.last() as u32) - 48) as nat
    }
}

/// The texts of the string items of a list, in order; other items are skipped.
pub open spec fn texts_of(items: Seq<JsonValue>) -> Seq<Seq<char>>
    decreases items.len(),
{
    if items.len() == 0 {
        Seq::empty()
    } else {
        let front = texts_of(items.drop_last());
        match items.last() {
            JsonValue::Text(text) => front.push(text@),
            _ => front,
        }
    }
}

/// The parts joined, with `"; "` between consecutive ones.
pub open spec fn joined(parts: Seq<Seq<char>>) -> Seq<char>
    decreases parts.len(),
{
    if parts.len() == 0 {
        Seq::empty()
    } else if parts.len() == 1 {
        parts[0]
    } else {
        joined(parts.drop_last()) + seq![';', ' '] + parts.last()
    }
}

/// Where the first entry named `key` is.
pub fn position_of(entries: &Vec<(String, JsonValue)>, key: &str) -> (index: Option<usize>)
    ensures
        match index {
            Some(i) => i < entries@.len() && entries@[i as int].0@ == key@ && entry_named(
                entries@,
                key@,
            ) == Some(entries@[i as int].1),
            None => entry_named(entries@, key@) is None,
        },
{
    let mut i: usize = 0;
    proof {
        assert(entries@.skip(0) =~= entries@);
    }
    while i < entries.len()
        invariant
            i <= entries@.len(),
            entry_named(entries@, key@) == entry_named(entries@.skip(i as int), key@),
        decreases entries@.len() - i,
    {
        proof {
            assert(entries@.skip(i as int).drop_first() =~= entries@.skip(i + 1));
            assert(entries@.skip(i as int)[0] == entries@[i as int]);
        }
        if string_is(&entries[i].0, key) {
            return Some(i);
        }
        i = i + 1;
    }
    proof {
        assert(entries@.skip(i as int) =~= Seq::<(String, JsonValue)>::empty());
    }
    None
}

impl JsonValue {
    /// The member named `key`, when this is an object that has one.
    pub open spec fn member(self, key: Seq<char>) -> Option<JsonValue> {
        match self {
            JsonValue::Object(entries) => entry_named(entries@, key),
            _ => None,
        }
    }

    /// The number as a `u64`, when it is a non-negative integer that fits.
    pub open spec fn unsigned(self) -> Option<u64> {
        match self {
            JsonValue::Number(text) => if text@.len() > 0 && all_digits(text@) && digits_value(
                text@,
            ) <= u64::MAX {
                Some(digits_value(text@) as u64)
            } else {
                None
            },
            _ => None,
        }
    }

    /// One sentence out of an error field, whichever of its two shapes came:
    /// a string is the sentence; a list of strings is its items joined with
    /// `"; "`; anything else, or a list with no string in it, is none.
    pub open spec fn sentence_of(self) -> Option<Seq<char>> {
        match self {
            JsonValue::Text(text) => Some(text@),
            JsonValue::List(items) => if texts_of(items@).len() == 0 {
                None
            } else {
                Some(joined(texts_of(items@)))
            },
            _ => None,
        }
    }

    /// The member named `key` of an object; `None` for a missing key or a
    /// value that is not an object.
    pub fn get(&self, key: &str) -> (found: Option<&JsonValue>)
        ensures
            match found {
                Some(value) => self.member(key@) == Some(*value),
                None => self.member(key@) is None,
            },
    {
        match self {
            JsonValue::Object(entries) => match position_of(entries, key) {
                Some(i) => Some(&entries[i].1),
                None => None,
            },
            _ => None,
        }
    }

    /// The number as a `u64`, when it is a non-negative integer that fits.
    #[verifier::loop_isolation(false)]
    pub fn as_u64(&self) -> (number: Option<u64>)
        ensures
            number == self.unsigned(),
    {
        match self {
            JsonValue::Number(text) => {
                let chars = text.as_str();
                let n = chars.unicode_len();
                if n == 0 {
                    return None;
                }
                let mut value: u64 = 0;
                let mut i: usize = 0;
                while i < n
                    invariant
                        i <= n,
                        n == text@.len(),
                        chars@ == text@,
                        all_digits(text@.take(i as int)),
                        value == digits_value(text@.take(i as int)),
                    decreases n - i,
                {
                    let c = chars.get_char(i);
                    proof {
                        assert(text@.take(i + 1).drop_last() =~= text@.take(i as int));
                        assert(text@.take(i + 1).last() == c);
                    }
                    if c < '0' || c > '9' {
                        proof {
                            assert(text@[i as int] == c);
                            assert(!('0' <= text@[i as int] <= '9'));
                            assert(!all_digits(text@));
                            assert(self.unsigned() is None);
                        }
                        return None;
                    }
                    let d: u64 = (c as u32 - 48) as u64;
                    if value > (u64::MAX - d) / 10 {
                        proof {
                            assert(value * 10 + d > u64::MAX) by (nonlinear_arith)
                                requires
                                    value > (u64::MAX - d) / 10,
                                    d <= 9,
                            ;
                            lemma_digits_value_grows(text@, i as int + 1);
                        }
                        return None;
                    }
                    proof {
                        assert(value * 10 + d <= u64::MAX) by (nonlinear_arith)
                            requires
                                value <= (u64::MAX - d) / 10,
                                d <= 9,
                        ;
                    }
                    value = value * 10 + d;
                    proof {
                        assert forall|k: int| 0 <= k < i + 1 implies '0' <= #[trigger] text@.take(
                            i + 1,
                        )[k] <= '9' by {
                            if k < i {
                                assert(text@.take(i + 1)[k] == text@.take(i as int)[k]);
                            }
                        }
                    }
                    i = i + 1;
                }
                proof {
                    assert(text@.take(n as int) =~= text@);
                }
                Some(value)
            },
            _ => None,
        }
    }

    /// The text, when this is a string.
    pub fn as_str(&self) -> (text: Option<&str>)
        ensures
            match self {
                JsonValue::Text(s) => text matches Some(t) && t@ == s@,
                _ => text is None,
            },
    {
        match self {
            JsonValue::Text(s) => Some(s.as_str()),
            _ => None,
        }
    }

    /// One sentence out of an error field: the string itself, or a list's
    /// strings joined with `"; "`; `None` for anything else and for a list
    /// without a single string.
    #[verifier::loop_isolation(false)]
    pub fn sentence(&self) -> (line: Option<String>)
        ensures
            match line {
                Some(text) => self.sentence_of() == Some(text@),
                None => self.sentence_of() is None,
            },
    {
        match self {
            JsonValue::Text(text) => Some(text.clone()),
            JsonValue::List(items) => {
                let mut line = String::new();
                let mut count: usize = 0;
                let mut i: usize = 0;
                while i < items.len()
                    invariant
                        i <= items@.len(),
                        count == texts_of(items@.take(i as int)).len(),
                        count <= i,
                        line@ == joined(texts_of(items@.take(i as int))),
                    decreases items@.len() - i,
                {
                    proof {
                        assert(items@.take(i + 1).drop_last() =~= items@.take(i as int));
                    }
                    match &items[i] {
                        JsonValue::Text(text) => {
                            if count > 0 {
                                push_char(&mut line, ';');
                                push_char(&mut line, ' ');
                            }
                            line.append(text.as_str());
                            proof {
                                let parts = texts_of(items@.take(i + 1));
                                assert(parts.drop_last() =~= texts_of(items@.take(i as int)));
                                if count == 0 {
                                    assert(line@ =~= joined(parts));
                                }
                            }
                            count = count + 1;
                        },
                        _ => {},
                    }
                    i = i + 1;
                }
                proof {
                    assert(items@.take(items@.len() as int) =~= items@);
                }
                if count == 0 {
                    None
                } else {
                    Some(line)
                }
            },
            _ => None,
        }
    }
}

proof fn lemma_digits_value_grows(text: Seq<char>, n: int)
    requires
        0 < n <= text.len(),
        all_digits(text.take(n)) ==> digits_value(text.take(n)) > u64::MAX,
    ensures
        !(text.len() > 0 && all_digits(text) && digits_value(text) <= u64::MAX),
    decreases text.len() - n,
{
    if n < text.len() {
        assert(text.take(n + 1).drop_last() =~= text.take(n));
        if all_digits(text.take(n + 1)) {
            assert forall|i: int| 0 <= i < n implies '0' <= #[trigger] text.take(n)[i] <= '9' by {
                assert(text.take(n)[i] == text.take(n + 1)[i]);
            }
            assert(text.take(n + 1)[n] == text[n]);
        }
        lemma_digits_value_grows(text, n + 1);
    } else {
        assert(text.take(n) =~= text);
    }
}

} // verus!
