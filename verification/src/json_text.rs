//! JSON object text of string pairs, written by the `json` crate.

use vstd::prelude::*;

verus! {

/// Lower-case hexadecimal digit.
pub open spec fn hex_digit_lower(d: nat) -> char {
    if d < 10 {
        (48 + d) as char
    } else {
        (87 + d) as char
    }
}

/// How the `json` crate writes one character inside a string literal: `"` and `\` and the
/// control characters are escaped (`\b`, `\t`, `\n`, `\f`, `\r`, or `\u00xx`), any other
/// character is written as it is.
pub open spec fn json_escape_char(c: char) -> Seq<char> {
    if c == '"' {
        seq!['\\', '"']
    } else if c == '\\' {
        seq!['\\', '\\']
    } else if c == '\u{8}' {
        seq!['\\', 'b']
    } else if c == '\t' {
        seq!['\\', 't']
    } else if c == '\n' {
        seq!['\\', 'n']
    } else if c == '\u{c}' {
        seq!['\\', 'f']
    } else if c == '\r' {
        seq!['\\', 'r']
    } else if (c as u32) < 0x20 {
        seq!['\\', 'u', '0', '0', hex_digit_lower((c as u32 / 16) as nat), hex_digit_lower((c as u32 % 16) as nat)]
    } else {
        seq![c]
    }
}

/// The escaped characters of a string.
pub open spec fn json_escape(s: Seq<char>) -> Seq<char>
    decreases s.len(),
{
    if s.len() == 0 {
        seq![]
    } else {
        json_escape_char(s[0]) + json_escape(s.drop_first())
    }
}

/// A JSON string literal.
pub open spec fn json_string(s: Seq<char>) -> Seq<char> {
    seq!['"'] + json_escape(s) + seq!['"']
}

/// One member `"key":"value"`.
pub open spec fn json_member(pair: (Seq<char>, Seq<char>)) -> Seq<char> {
    json_string(pair.0) + seq![':'] + json_string(pair.1)
}

/// The members, in order, separated by commas.
pub open spec fn json_members(pairs: Seq<(Seq<char>, Seq<char>)>) -> Seq<char>
    decreases pairs.len(),
{
    if pairs.len() == 0 {
        seq![]
    } else if pairs.len() == 1 {
        json_member(pairs[0])
    } else {
        json_members(pairs.drop_last()) + seq![','] + json_member(pairs.last())
    }
}

/// The compact JSON object text of string pairs, members in the given order.
pub open spec fn json_object(pairs: Seq<(Seq<char>, Seq<char>)>) -> Seq<char> {
    seq!['{'] + json_members(pairs) + seq!['}']
}

/// The pairs of a vector of string pairs, as text.
pub open spec fn pairs_view(pairs: Seq<(String, String)>) -> Seq<(Seq<char>, Seq<char>)> {
    pairs.map_values(|p: (String, String)| (p.0@, p.1@))
}

/// No key occurs twice.
pub open spec fn keys_distinct(pairs: Seq<(Seq<char>, Seq<char>)>) -> bool {
    forall|i: int, j: int| 0 <= i < j < pairs.len() ==> pairs[i].0 != pairs[j].0
}

/// `json::stringify` of the `json::object::Object` collected from the pairs. The object keeps
/// its entries in insertion order, and its compact dump writes `{`, the members separated by
/// `,` with `:` between key and value, and `}`; keys that are all distinct are each inserted once.
#[verifier::external_body]
pub(crate) fn json_stringify_object(pairs: &Vec<(String, String)>) -> (r: String)
    requires
        keys_distinct(pairs_view(pairs@)),
    ensures
        r@ == json_object(pairs_view(pairs@)),
{
    let object: json::object::Object = pairs.iter().map(|(k, v)| (k.as_str(), v.as_str())).collect();
    json::stringify(object)
}

} // verus!
