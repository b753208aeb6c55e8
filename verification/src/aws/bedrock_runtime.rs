//! The request body of a prompt sent to a Bedrock model.
use crate::text::{hex_char, owned};
use vstd::prelude::*;

verus! {

/// How `serde_json` writes one character inside a string literal: a quote,
/// a backslash and the five control characters that have a short escape get
/// a backslash escape, any other character below U+0020 reads `\u00` and two
/// lowercase hex digits, and every other character stands as it is.
pub open spec fn json_escape_char(c: char) -> Seq<char> {
    if c == '"' {
        seq!['\\', '"']
    } else if c == '\\' {
        seq!['\\', '\\']
    } else if c == '\u{8}' {
        seq!['\\', 'b']
    } else if c == '\t' {
        seq!['\\', 't']
    } else if c == '\n' {
        seq!['\\', 'n']
    } else if c == '\u{c}' {
        seq!['\\', 'f']
    } else if c == '\r' {
        seq!['\\', 'r']
    } else if (c as int) < 0x20 {
        seq!['\\', 'u', '0', '0', hex_char((c as int) / 16), hex_char((c as int) % 16)]
    } else {
        seq![c]
    }
}

/// The characters of `s`, each escaped as `json_escape_char` says.
pub open spec fn json_escape(s: Seq<char>) -> Seq<char>
    decreases s.len(),
{
    if s.len() == 0 {
        seq![]
    } else {
        json_escape(s.drop_last()) + json_escape_char(s.last())
    }
}

/// The JSON string literal of `s`: its escaped characters between quotes.
pub open spec fn json_string_literal(s: Seq<char>) -> Seq<char> {
    seq!['"'] + json_escape(s) + seq!['"']
}

/// `serde_json::to_string` on a string: its JSON literal, as
/// `format_escaped_str` writes it. A string is
/// serialized by escaping it into a `Vec<u8>`, whose writes never fail, so
/// the call always succeeds.
#[verifier::external_body]
fn json_quote(s: &str) -> (r: Option<String>)
    ensures
        r is Some,
        r matches Some(j) ==> j@ == json_string_literal(s@),
{
    serde_json::to_string(s).ok()
}

/// The JSON body of a prompt: `{"inputText":` and the prompt's JSON literal,
/// then `}`, as serializing a struct with the one field `input_text` renamed
/// to camel case gives it; serializing it always succeeds.
pub fn prompt_body(prompt: &str) -> (body: Option<String>)
    ensures
        body matches Some(b) && b@ == "{\"inputText\":"@ + json_string_literal(prompt@) + "}"@,
{
    match json_quote(prompt) {
        Some(lit) => {
            let mut b = owned("{\"inputText\":");
            b.append(lit.as_str());
            b.append("}");
            Some(b)
        },
        None => None,
    }
}

} // verus!
