use vstd::prelude::*;
use vstd::string::*;

verus! {

#[verifier::external_type_specification]
#[verifier::external_body]
pub struct ExJsonError(serde_json::Error);

/// Characters that a JSON string literal cannot hold as they are.
pub open spec fn needs_json_escape(c: char) -> bool {
    c == '"' || c == '\\' || (c as u32) < 0x20
}

/// `s` between double quotes, with nothing escaped.
pub open spec fn quoted(s: Seq<char>) -> Seq<char> {
    seq!['"'] + s + seq!['"']
}

/// Lower-case hex digit of `d`, for `d < 16`.
pub open spec fn hex_digit(d: int) -> char {
    seq!['0', '1', '2', '3', '4', '5', '6', '7', '8', '9', 'a', 'b', 'c', 'd', 'e', 'f'][d]
}

/// How serde_json writes the character `c` inside a JSON string literal.
pub open spec fn json_escape(c: char) -> Seq<char> {
    if c == '"' {
        seq!['\\', '"']
    } else if c == '\\' {
        seq!['\\', '\\']
    } else if c == '\u{8}' {
        seq!['\\', 'b']
    } else if c == '\t' {
        seq!['\\', 't']
    } else if c == '\n' {
        seq!['\\', 'n']
    } else if c == '\u{c}' {
        seq!['\\', 'f']
    } else if c == '\r' {
        seq!['\\', 'r']
    } else if (c as u32) < 0x20 {
        seq!['\\', 'u', '0', '0', hex_digit((c as u32) as int / 16), hex_digit((c as u32) as int % 16)]
    } else {
        seq![c]
    }
}

/// The characters of `s`, each written as serde_json writes it in a string.
pub open spec fn json_escaped(s: Seq<char>) -> Seq<char>
    decreases s.len(),
{
    if s.len() == 0 {
        Seq::empty()
    } else {
        json_escaped(s.drop_last()) + json_escape(s.last())
    }
}

/// The JSON string literal of `s`.
pub open spec fn json_str_of(s: Seq<char>) -> Seq<char> {
    quoted(json_escaped(s))
}

/// Where no character needs an escape, the literal is `s` between quotes.
pub proof fn lemma_plain_json_str(s: Seq<char>)
    requires
        forall|i: int| 0 <= i < s.len() ==> !needs_json_escape(#[trigger] s[i]),
    ensures
        json_escaped(s) == s,
        json_str_of(s) == quoted(s),
    decreases s.len(),
{
    if s.len() > 0 {
        let init = s.drop_last();
        assert forall|i: int| 0 <= i < init.len() implies !needs_json_escape(#[trigger] init[i]) by {
            assert(init[i] == s[i]);
        }
        lemma_plain_json_str(init);
        assert(!needs_json_escape(s[s.len() - 1]));
        assert(s =~= init + seq![s.last()]);
    }
}

pub open spec fn is_lower_hex(c: char) -> bool {
    (0x30 <= (c as u32) && (c as u32) <= 0x39) || (0x61 <= (c as u32) && (c as u32) <= 0x66)
}

/// The hyphenated text form of a version-4 UUID: 36 characters, lower-case
/// hex digits in groups of 8, 4, 4, 4 and 12 separated by `-`, with the
/// version digit `4` and a variant digit among `8`, `9`, `a` and `b`.
pub open spec fn is_hyphenated_uuid_v4(s: Seq<char>) -> bool {
    &&& s.len() == 36
    &&& forall|i: int|
        #![trigger s[i]]
        0 <= i < 36 ==> if i == 8 || i == 13 || i == 18 || i == 23 {
            s[i] == '-'
        } else {
            is_lower_hex(s[i])
        }
    &&& s[14] == '4'
    &&& (s[19] == '8' || s[19] == '9' || s[19] == 'a' || s[19] == 'b')
}

/// The request body sent to the remote function, with `quoted_id` as the
/// JSON text of the request identifier.
pub open spec fn request_text(quoted_id: Seq<char>) -> Seq<char> {
    "{\"key\":\"value\",\"request_id\":"@ + quoted_id + "}"@
}

/// Why an invocation could not even be started.
#[derive(PartialEq, Eq, Structural, Debug, Clone, Copy)]
pub enum InvokeError {
    /// The request body could not be serialised.
    SerializeFailed,
}

/// Relies on serde_json::to_string for a `&str`: it writes into a `Vec`, which
/// cannot fail, and escapes only `"`, `\` and control characters, with the
/// short forms where JSON has them and `\u00xx` for the others.
#[verifier::external_body]
fn json_string(s: &str) -> (r: Result<String, serde_json::Error>)
    ensures
        r is Ok,
        r matches Ok(t) ==> t@ == json_str_of(s@),
{
    serde_json::to_string(s)
}

/// Relies on uuid::Uuid::new_v4, which sets the version and variant bits, and
/// its `Display`, which writes the hyphenated lower-case form. The value itself
/// is random.
#[verifier::external_body]
pub(crate) fn new_request_id() -> (r: String)
    ensures
        is_hyphenated_uuid_v4(r@),
{
    uuid::Uuid::new_v4().to_string()
}

/// Builds the request body around an identifier that is already JSON text.
pub fn frame_request(quoted_id: &str) -> (r: String)
    ensures
        r@ == request_text(quoted_id@),
{
    let mut body = String::from_str("{\"key\":\"value\",\"request_id\":");
    body.append(quoted_id);
    body.append("}");
    body
}

/// Serialises the request body that carries `request_id`.
pub fn request_payload(request_id: &str) -> (r: Result<String, InvokeError>)
    ensures
        r is Ok,
        r matches Ok(p) ==> p@ == request_text(json_str_of(request_id@)),
{
    match json_string(request_id) {
        Ok(q) => Ok(frame_request(q.as_str())),
        Err(_) => Err(InvokeError::SerializeFailed),
    }
}

} // verus!
