use vstd::prelude::*;

verus! {

/// serde_json's error type, carried as an opaque value.
#[verifier::external_type_specification]
#[verifier::external_body]
pub struct ExJsonError(serde_json::Error);

/// The hexadecimal digit of `n`, in lower case.
pub open spec fn hex_digit(n: int) -> char {
    "0123456789abcdef"@[n]
}

/// How one character stands inside a JSON string literal: the quote and the
/// backslash behind a backslash, backspace, tab, line feed, form feed and
/// carriage return by their short escapes, any other control character below
/// 0x20 as `\u00` and two lower-case hexadecimal digits, and every other
/// character as itself.
pub open spec fn json_char_escape(c: char) -> Seq<char> {
    if c == '"' {
        "\\\""@
    } else if c == '\\' {
        "\\\\"@
    } else if c == '\u{8}' {
        "\\b"@
    } else if c == '\t' {
        "\\t"@
    } else if c == '\n' {
        "\\n"@
    } else if c == '\u{c}' {
        "\\f"@
    } else if c == '\r' {
        "\\r"@
    } else if (c as int) < 0x20 {
        "\\u00"@ + seq![hex_digit((c as int) / 16), hex_digit((c as int) % 16)]
    } else {
        seq![c]
    }
}

/// The characters of a text, each escaped for a JSON string literal.
pub open spec fn json_escaped(s: Seq<char>) -> Seq<char>
    decreases s.len(),
{
    if s.len() == 0 {
        Seq::empty()
    } else {
        json_escaped(s.drop_last()) + json_char_escape(s.last())
    }
}

/// The JSON string literal for a text: quoted, with escapes where JSON needs them.
pub open spec fn json_string_literal(s: Seq<char>) -> Seq<char> {
    "\""@ + json_escaped(s) + "\""@
}

/// Whether the bytes are one JSON document.
pub uninterp spec fn json_is_document(data: Seq<u8>) -> bool;

/// The text under `key` in the JSON document `data`: `None` where the bytes
/// are not a JSON document, the document is not an object, or the value under
/// `key` is missing or is not a string.
pub uninterp spec fn json_text_field(data: Seq<u8>, key: Seq<char>) -> Option<Seq<char>>;

/// The list under `key` in the JSON document `data`, each item's text where it
/// is a string: `None` where the bytes are not a JSON document, the document
/// is not an object, or the value under `key` is missing or is not an array.
pub uninterp spec fn json_text_list_field(data: Seq<u8>, key: Seq<char>) -> Option<
    Seq<Option<Seq<char>>>,
>;

/// Relies on `serde_json::to_string` on a string slice, which writes the JSON
/// string literal of the text into a `Vec` and so never fails.
#[verifier::external_body]
fn quote_json(s: &str) -> (r: Result<String, serde_json::Error>)
    ensures
        r is Ok,
        r->Ok_0@ == json_string_literal(s@),
{
    serde_json::to_string(s)
}

/// Relies on `serde_json::from_slice` into a `serde_json::Value`: whether the
/// bytes parse as one JSON document.
#[verifier::external_body]
pub(crate) fn is_json_document(data: &[u8]) -> (r: bool)
    ensures
        r == json_is_document(data@),
{
    serde_json::from_slice::<serde_json::Value>(data).is_ok()
}

/// Relies on `serde_json::from_slice` into a `serde_json::Value`, then on the
/// value's `get` and `as_str`, to read the text under `key`.
#[verifier::external_body]
pub(crate) fn json_text(data: &[u8], key: &str) -> (r: Option<String>)
    ensures
        r.deep_view() == json_text_field(data@, key@),
{
    let v: serde_json::Value = serde_json::from_slice(data).ok()?;
    v.get(key)?.as_str().map(|t| t.to_string())
}

/// Relies on `serde_json::from_slice` into a `serde_json::Value`, then on the
/// value's `get`, `as_array` and each item's `as_str`, to read the list under
/// `key`.
#[verifier::external_body]
pub(crate) fn json_text_list(data: &[u8], key: &str) -> (r: Option<Vec<Option<String>>>)
    ensures
        r.deep_view() == json_text_list_field(data@, key@),
{
    let v: serde_json::Value = serde_json::from_slice(data).ok()?;
    let items = v.get(key)?.as_array()?;
    Some(items.iter().map(|x| x.as_str().map(|t| t.to_string())).collect())
}

/// Why a payload could not be written or read.
#[derive(Debug)]
pub enum PayloadError {
    /// The bytes are not a JSON document.
    NotJson,
    /// The document lacks a text `match_id` or a `players` list of texts.
    Malformed,
}

/// The text of a job-complete event, given the match id as a JSON string literal.
pub open spec fn complete_payload_text(quoted_id: Seq<char>) -> Seq<char> {
    "{\"match_id\":"@ + quoted_id + ",\"status\":\"completed\"}"@
}

/// Frames a job-complete event around a match id already written as a JSON
/// string literal.
pub fn complete_payload_from_quoted(quoted_id: &str) -> (r: String)
    ensures
        r@ == complete_payload_text(quoted_id@),
{
    let mut s = String::from_str("{\"match_id\":");
    s.append(quoted_id);
    s.append(",\"status\":\"completed\"}");
    s
}

/// The JSON text of a job-complete event for `match_id`: the match id and the
/// status `completed`.
pub fn create_game_complete_message(match_id: &str) -> (r: String)
    ensures
        r@ == complete_payload_text(json_string_literal(match_id@)),
{
    let q = quote_json(match_id).unwrap();
    complete_payload_from_quoted(q.as_str())
}

/// The texts joined with commas between them.
pub open spec fn join_with_commas(items: Seq<Seq<char>>) -> Seq<char>
    decreases items.len(),
{
    if items.len() == 0 {
        Seq::empty()
    } else if items.len() == 1 {
        items[0]
    } else {
        join_with_commas(items.drop_last()) + ","@ + items.last()
    }
}

/// The text of a job-start event, given the match id and the players each as a
/// JSON string literal.
pub open spec fn starting_payload_text(quoted_id: Seq<char>, quoted_players: Seq<Seq<char>>) -> Seq<
    char,
> {
    "{\"match_id\":"@ + quoted_id + ",\"players\":["@ + join_with_commas(quoted_players) + "]}"@
}

/// The JSON text of a job-start event for `match_id` and its players, in
/// order.
pub fn create_game_starting_message(match_id: &str, players: &Vec<String>) -> (r: String)
    ensures
        r@ == starting_payload_text(
            json_string_literal(match_id@),
            players@.map_values(|n: String| json_string_literal(n@)),
        ),
{
    let quoted_id = quote_json(match_id).unwrap();
    let ghost quoted = players@.map_values(|n: String| json_string_literal(n@));
    let mut list = String::new();
    let mut i: usize = 0;
    while i < players.len()
        invariant
            i <= players@.len(),
            quoted == players@.map_values(|n: String| json_string_literal(n@)),
            list@ == join_with_commas(quoted.subrange(0, i as int)),
        decreases players@.len() - i,
    {
        let q = quote_json(players[i].as_str()).unwrap();
        proof {
            let next = quoted.subrange(0, i + 1);
            assert(next.drop_last() =~= quoted.subrange(0, i as int));
            assert(next.last() == q@);
        }
        if i > 0 {
            list.append(",");
        }
        list.append(q.as_str());
        proof {
            if i == 0 {
                assert(quoted.subrange(0, 0) =~= Seq::<Seq<char>>::empty());
                assert(quoted.subrange(0, 1).len() == 1);
            }
        }
        i = i + 1;
    }
    assert(quoted.subrange(0, players@.len() as int) =~= quoted);
    let mut s = String::from_str("{\"match_id\":");
    s.append(quoted_id.as_str());
    s.append(",\"players\":[");
    s.append(list.as_str());
    s.append("]}");
    s
}

} // verus!
