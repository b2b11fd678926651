//! Errors of the library and the report that each one serialises to.

use vstd::prelude::*;

verus! {

#[verifier::external_type_specification]
#[verifier::external_body]
pub struct ExClientError(rumqttc::v5::ClientError);

#[verifier::external_type_specification]
#[verifier::external_body]
pub struct ExJsonError(serde_json::Error);

/// `text` between double quotes.
pub open spec fn quoted(text: Seq<char>) -> Seq<char> {
    seq!['"'] + text + seq!['"']
}

/// Lower-case hexadecimal digit `d` (`0 <= d < 16`).
pub open spec fn hex_digit(d: nat) -> char {
    if d < 10 {
        (d + 48) as char
    } else {
        (d + 87) as char
    }
}

/// How a JSON string writes the character `c`: quote and backslash behind
/// a backslash, the control characters with a short escape where JSON has
/// one and as `\u00xx` otherwise, every other character as it stands.
pub open spec fn json_escape(c: char) -> Seq<char> {
    let n = c as u32;
    if c == '"' {
        seq!['\\', '"']
    } else if c == '\\' {
        seq!['\\', '\\']
    } else if n == 8 {
        seq!['\\', 'b']
    } else if n == 9 {
        seq!['\\', 't']
    } else if n == 10 {
        seq!['\\', 'n']
    } else if n == 12 {
        seq!['\\', 'f']
    } else if n == 13 {
        seq!['\\', 'r']
    } else if n < 0x20 {
        seq!['\\', 'u', '0', '0', hex_digit((n / 16) as nat), hex_digit((n % 16) as nat)]
    } else {
        seq![c]
    }
}

/// The characters of `text`, each written as a JSON string writes it.
pub open spec fn json_escaped(text: Seq<char>) -> Seq<char>
    decreases text.len(),
{
    if text.len() == 0 {
        Seq::empty()
    } else {
        json_escaped(text.drop_last()) + json_escape(text.last())
    }
}

/// The JSON string for `text`: its escaped characters between quotes.
pub open spec fn json_string(text: Seq<char>) -> Seq<char> {
    quoted(json_escaped(text))
}

/// The value of a hexadecimal digit character, lower or upper case.
pub open spec fn hex_value(c: char) -> int {
    let n = c as u32;
    if 48 <= n <= 57 {
        n - 48
    } else if 97 <= n <= 102 {
        n - 87
    } else if 65 <= n <= 70 {
        n - 55
    } else {
        -1
    }
}

/// How a JSON reader takes one written character back (RFC 8259, section
/// 7): a character other than quote, backslash and the controls stands for
/// itself; `\"`, `\\`, `\/`, `\b`, `\f`, `\n`, `\r`, `\t` stand for quote,
/// backslash, slash, U+0008, U+000C, U+000A, U+000D, U+0009; and `\uXXXX`
/// stands for the character with that hexadecimal code. Anything else is no
/// single character.
pub open spec fn json_read_one(w: Seq<char>) -> Option<char> {
    if w.len() == 1 && w[0] != '"' && w[0] != '\\' && (w[0] as u32) >= 0x20 {
        Some(w[0])
    } else if w.len() == 2 && w[0] == '\\' {
        let e = w[1];
        if e == '"' {
            Some('"')
        } else if e == '\\' {
            Some('\\')
        } else if e == '/' {
            Some('/')
        } else if e == 'b' {
            Some(8u32 as char)
        } else if e == 'f' {
            Some(12u32 as char)
        } else if e == 'n' {
            Some(10u32 as char)
        } else if e == 'r' {
            Some(13u32 as char)
        } else if e == 't' {
            Some(9u32 as char)
        } else {
            None
        }
    } else if w.len() == 6 && w[0] == '\\' && w[1] == 'u' && hex_value(w[2]) >= 0 && hex_value(w[3])
        >= 0 && hex_value(w[4]) >= 0 && hex_value(w[5]) >= 0 {
        let code = ((hex_value(w[2]) * 16 + hex_value(w[3])) * 16 + hex_value(w[4])) * 16
            + hex_value(w[5]);
        if code < 0xd800 {
            Some(code as char)
        } else {
            None
        }
    } else {
        None
    }
}

/// Escaping loses nothing: a JSON reader takes the written form of any
/// character back to that very character, and the written form holds no raw
/// control character.
pub proof fn lemma_json_escape_read_back(c: char)
    ensures
        json_read_one(json_escape(c)) == Some(c),
        forall|i: int|
            0 <= i < json_escape(c).len() ==> (#[trigger] json_escape(c)[i] as u32) >= 0x20,
{
    let n = c as u32;
    assert((c as u32) as char == c);
    if c != '"' && c != '\\' && n < 0x20 && n != 8 && n != 9 && n != 10 && n != 12 && n != 13 {
        let hi: nat = (n / 16) as nat;
        let lo: nat = (n % 16) as nat;
        assert(hi < 2);
        assert(lo < 16);
        assert((hi + 48) as char as u32 == hi + 48);
        assert(hex_value(hex_digit(hi)) == hi);
        if lo < 10 {
            assert((lo + 48) as char as u32 == lo + 48);
        } else {
            assert((lo + 87) as char as u32 == lo + 87);
        }
        assert(hex_value(hex_digit(lo)) == lo);
        assert(hex_value('0') == 0);
        assert(((0 * 16 + 0) * 16 + hi) * 16 + lo == n);
        assert((n as int) as char == c);
    }
}

/// The JSON string for a text is the escaped text between double quotes.
pub proof fn lemma_json_string_quoted(text: Seq<char>)
    ensures
        json_string(text).len() == json_escaped(text).len() + 2,
        json_string(text)[0] == '"',
        json_string(text)[json_string(text).len() - 1] == '"',
        json_string(text).subrange(1, json_string(text).len() - 1) == json_escaped(text),
{
    assert(json_string(text).subrange(1, json_string(text).len() - 1) =~= json_escaped(text));
}

/// Text that JSON writes between its quotes as it stands: no quote, no
/// backslash and no control character below U+0020.
pub open spec fn needs_no_escape(text: Seq<char>) -> bool {
    forall|i: int|
        0 <= i < text.len() ==> #[trigger] text[i] != '"' && text[i] != '\\' && (text[i] as u32)
            >= 0x20
}

/// Text with nothing to escape is written as it stands.
pub proof fn lemma_plain_text_unescaped(text: Seq<char>)
    requires
        needs_no_escape(text),
    ensures
        json_escaped(text) == text,
    decreases text.len(),
{
    if text.len() > 0 {
        let rest = text.drop_last();
        assert(needs_no_escape(rest)) by {
            assert forall|i: int| 0 <= i < rest.len() implies #[trigger] rest[i] != '"' && rest[i]
                != '\\' && (rest[i] as u32) >= 0x20 by {
                assert(rest[i] == text[i]);
            }
        }
        lemma_plain_text_unescaped(rest);
        let c = text.last();
        assert(c == text[text.len() - 1]);
        assert(json_escape(c) == seq![c]);
        assert(text =~= rest + seq![c]);
    }
}

/// `serde_json::to_string` on a string slice. Its source serialises a `str`
/// into an in-memory buffer, which cannot fail, so the call always succeeds.
/// The text is the JSON string for `text` as its escape table writes it:
/// `"` and `\` behind a backslash, the bytes below 0x20 as `\b`, `\t`,
/// `\n`, `\f`, `\r` or `\u00xx` with lower-case hex digits, and every
/// other character unchanged, all between double quotes.
#[verifier::external_body]
fn json_of_text(text: &str) -> (res: Result<String, serde_json::Error>)
    ensures
        res is Ok,
        res matches Ok(s) ==> s@ == json_string(text@),
{
    serde_json::to_string(text)
}

/// A report of an error: a short code and a JSON-encoded description.
pub struct SerializableError {
    pub code: String,
    pub description: String,
}

/// `res` reports `code` with the fixed description `text`.
pub open spec fn reports(res: SerializableError, code: Seq<char>, text: Seq<char>) -> bool {
    &&& res.code@ == code
    &&& res.description@ == quoted(text)
}

impl SerializableError {
    /// A report with the given code, whose description is the JSON text of
    /// `description`.
    pub fn new(code: &str, description: &str) -> (res: Self)
        ensures
            res.code@ == code@,
            res.description@ == json_string(description@),
            needs_no_escape(description@) ==> res.description@ == quoted(description@),
    {
        proof {
            if needs_no_escape(description@) {
                lemma_plain_text_unescaped(description@);
            }
        }
        let description = match json_of_text(description) {
            Ok(text) => text,
            Err(_) => String::from_str("Error serializing error"),
        };
        SerializableError { code: String::from_str(code), description }
    }

    /// The report of text that is not valid UTF-8.
    pub fn utf8_failure() -> (res: Self)
        ensures
            reports(res, "UTF8"@, "Payload is not valid UTF-8"@),
    {
        proof {
            reveal_strlit("Payload is not valid UTF-8");
        }
        Self::new("UTF8", "Payload is not valid UTF-8")
    }

    /// The report of a payload that is not valid JSON.
    pub fn deserialization_failure() -> (res: Self)
        ensures
            reports(res, "DESERIALIZATION"@, "Payload not valid JSON"@),
    {
        proof {
            reveal_strlit("Payload not valid JSON");
        }
        Self::new("DESERIALIZATION", "Payload not valid JSON")
    }

    /// The report of an error of no known kind.
    pub fn unknown_failure() -> (res: Self)
        ensures
            reports(res, "UNKNOWN"@, "Unknown error"@),
    {
        proof {
            reveal_strlit("Unknown error");
        }
        Self::new("UNKNOWN", "Unknown error")
    }

    /// The report of a client that could not take a request.
    pub fn client_failure() -> (res: Self)
        ensures
            reports(res, "CLIENT"@, "Client failed receiving event"@),
    {
        proof {
            reveal_strlit("Client failed receiving event");
        }
        Self::new("CLIENT", "Client failed receiving event")
    }

    /// The report of a value that could not be serialised.
    pub fn serialization_failure() -> (res: Self)
        ensures
            reports(res, "SERIALIZATION"@, "Client failed serializing response"@),
    {
        proof {
            reveal_strlit("Client failed serializing response");
        }
        Self::new("SERIALIZATION", "Client failed serializing response")
    }

    /// The report of a reply without payload.
    pub fn empty_payload() -> (res: Self)
        ensures
            reports(res, "EMPTY_PAYLOAD"@, "Client responded with an empty payload"@),
    {
        proof {
            reveal_strlit("Client responded with an empty payload");
        }
        Self::new("EMPTY_PAYLOAD", "Client responded with an empty payload")
    }

    /// The report of an error raised by a handler, described by `message`.
    pub fn runtime_failure(message: &str) -> (res: Self)
        ensures
            res.code@ == "RUNTIME"@,
            res.description@ == json_string(message@),
            needs_no_escape(message@) ==> res.description@ == quoted(message@),
    {
        Self::new("RUNTIME", message)
    }
}

/// Why an incoming event could not be read.
#[derive(PartialEq, Debug)]
pub enum EventParseError {
    Parsing(std::str::Utf8Error),
    Deserialization(String),
    Other,
}

impl EventParseError {
    /// The report of this error.
    pub fn to_serializable(&self) -> (res: SerializableError)
        ensures
            match self {
                EventParseError::Parsing(_) => reports(res, "UTF8"@, "Payload is not valid UTF-8"@),
                EventParseError::Deserialization(_) => reports(
                    res,
                    "DESERIALIZATION"@,
                    "Payload not valid JSON"@,
                ),
                EventParseError::Other => reports(res, "UNKNOWN"@, "Unknown error"@),
            },
    {
        match self {
            EventParseError::Parsing(_) => SerializableError::utf8_failure(),
            EventParseError::Deserialization(_) => SerializableError::deserialization_failure(),
            EventParseError::Other => SerializableError::unknown_failure(),
        }
    }
}

/// Why publishing, or waiting for a reply, failed.
#[derive(Debug)]
pub enum PublishError {
    ClientError(rumqttc::v5::ClientError),
    Serialization(serde_json::Error),
    EmptyPayload,
    Runtime(String),
}

impl PublishError {
    /// The report of this error.
    pub fn to_serializable(&self) -> (res: SerializableError)
        ensures
            match self {
                PublishError::ClientError(_) => reports(
                    res,
                    "CLIENT"@,
                    "Client failed receiving event"@,
                ),
                PublishError::Serialization(_) => reports(
                    res,
                    "SERIALIZATION"@,
                    "Client failed serializing response"@,
                ),
                PublishError::EmptyPayload => reports(
                    res,
                    "EMPTY_PAYLOAD"@,
                    "Client responded with an empty payload"@,
                ),
                PublishError::Runtime(message) => {
                    &&& res.code@ == "RUNTIME"@
                    &&& res.description@ == json_string(message@)
                    &&& needs_no_escape(message@) ==> res.description@ == quoted(message@)
                },
            },
    {
        match self {
            PublishError::ClientError(_) => SerializableError::client_failure(),
            PublishError::Serialization(_) => SerializableError::serialization_failure(),
            PublishError::EmptyPayload => SerializableError::empty_payload(),
            PublishError::Runtime(message) => SerializableError::runtime_failure(message.as_str()),
        }
    }
}

impl From<rumqttc::v5::ClientError> for PublishError {
    fn from(value: rumqttc::v5::ClientError) -> (res: Self) {
        PublishError::ClientError(value)
    }
}

impl vstd::std_specs::convert::FromSpecImpl<rumqttc::v5::ClientError> for PublishError {
    open spec fn obeys_from_spec() -> bool {
        true
    }

    open spec fn from_spec(v: rumqttc::v5::ClientError) -> Self {
        PublishError::ClientError(v)
    }
}

impl From<serde_json::Error> for PublishError {
    fn from(value: serde_json::Error) -> (res: Self) {
        PublishError::Serialization(value)
    }
}

impl vstd::std_specs::convert::FromSpecImpl<serde_json::Error> for PublishError {
    open spec fn obeys_from_spec() -> bool {
        true
    }

    open spec fn from_spec(v: serde_json::Error) -> Self {
        PublishError::Serialization(v)
    }
}

} // verus!
