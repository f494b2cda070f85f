//! The frame that subscribes to a ticker.
//!
//! A subscription is one JSON text frame, `{"type":"subscribe","symbol":"AAPL"}`
//! for the ticker `AAPL`. The ticker is written as a JSON string, so a ticker
//! with a quote or a control character in it still gives a well-formed frame.

use vstd::prelude::*;
use vstd::string::StringExecFns;

verus! {

/// The lower-case hexadecimal digit for `n`, where `0 <= n < 16`.
pub open spec fn hex_digit(n: int) -> char {
    seq!['0', '1', '2', '3', '4', '5', '6', '7', '8', '9', 'a', 'b', 'c', 'd', 'e', 'f'][n]
}

/// Whether `c` cannot stand for itself inside a JSON string: the quote, the
/// backslash and the control characters below the space.
pub open spec fn needs_escape(c: char) -> bool {
    c == '"' || c == '\\' || (c as u32) < 0x20
}

/// How one character is written inside a JSON string.
///
/// The quote and the backslash get a backslash in front; backspace, form feed,
/// line feed, carriage return and tab get their letter; any other control
/// character is written `\u00` and two hexadecimal digits; every other
/// character stands for itself.
pub open spec fn escaped(c: char) -> Seq<char> {
    if c == '"' {
        seq!['\\', '"']
    } else if c == '\\' {
        seq!['\\', '\\']
    } else if c == '\u{8}' {
        seq!['\\', 'b']
    } else if c == '\u{c}' {
        seq!['\\', 'f']
    } else if c == '\n' {
        seq!['\\', 'n']
    } else if c == '\r' {
        seq!['\\', 'r']
    } else if c == '\t' {
        seq!['\\', 't']
    } else if (c as u32) < 0x20 {
        seq![
            '\\',
            'u',
            '0',
            '0',
            hex_digit((c as u32) as int / 16),
            hex_digit((c as u32) as int % 16),
        ]
    } else {
        seq![c]
    }
}

/// A text as a JSON string: its characters, each escaped, between quotes.
pub open spec fn json_string(text: Seq<char>) -> Seq<char> {
    seq!['"'] + text.flat_map(|c: char| escaped(c)) + seq!['"']
}

/// The subscription frame for a ticker.
pub open spec fn subscribe_frame_text(ticker: Seq<char>) -> Seq<char> {
    "{\"type\":\"subscribe\",\"symbol\":"@ + json_string(ticker) + "}"@
}

/// Writes `text` as compact JSON, by `serde_json::Value::String` and its
/// `Display`.
///
/// Trusted: the result is `json_string(text)`. This is the escaping of
/// serde_json's compact formatter: `\"`, `\\`, `\b`, `\f`, `\n`, `\r`, `\t`,
/// `\u00XX` in lower case for the other characters below U+0020, and every
/// other character as it is.
#[verifier::external_body]
fn encode_json_string(text: &str) -> (encoded: String)
    ensures
        encoded@ == json_string(text@),
{
    serde_json::Value::String(text.to_owned()).to_string()
}

/// Builds the frame that subscribes to `ticker`.
pub fn subscribe_frame(ticker: &str) -> (frame: String)
    ensures
        frame@ == subscribe_frame_text(ticker@),
{
    let symbol = encode_json_string(ticker);
    String::from_str("{\"type\":\"subscribe\",\"symbol\":").concat(symbol.as_str()).concat("}")
}

/// A text without a quote, a backslash or a control character is its own
/// escaping.
pub proof fn lemma_plain_text_unescaped(text: Seq<char>)
    requires
        forall|i: int| 0 <= i < text.len() ==> !needs_escape(#[trigger] text[i]),
    ensures
        text.flat_map(|c: char| escaped(c)) == text,
    decreases text.len(),
{
    let pieces = text.map_values(|c: char| escaped(c));
    if text.len() == 0 {
        assert(pieces =~= Seq::<Seq<char>>::empty());
        assert(pieces.flatten() =~= Seq::<char>::empty());
        assert(text =~= Seq::<char>::empty());
    } else {
        let rest = text.drop_first();
        lemma_plain_text_unescaped(rest);
        assert(pieces.drop_first() =~= rest.map_values(|c: char| escaped(c)));
        assert(pieces.first() == seq![text[0]]);
        assert(pieces.flatten() == pieces.first() + pieces.drop_first().flatten());
        assert(seq![text[0]] + rest =~= text);
    }
}

/// For a ticker that needs no escaping, the subscription frame is the ticker
/// between `{"type":"subscribe","symbol":"` and `"}`.
pub proof fn lemma_plain_ticker_frame(ticker: Seq<char>)
    requires
        forall|i: int| 0 <= i < ticker.len() ==> !needs_escape(#[trigger] ticker[i]),
    ensures
        subscribe_frame_text(ticker) == "{\"type\":\"subscribe\",\"symbol\":\""@ + ticker + "\"}"@,
{
    lemma_plain_text_unescaped(ticker);
    reveal_strlit("{\"type\":\"subscribe\",\"symbol\":");
    reveal_strlit("}");
    reveal_strlit("{\"type\":\"subscribe\",\"symbol\":\"");
    reveal_strlit("\"}");
    assert(subscribe_frame_text(ticker) =~= "{\"type\":\"subscribe\",\"symbol\":\""@ + ticker
        + "\"}"@);
}

} // verus!
