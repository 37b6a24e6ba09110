//! The input of a custom tool call, read from arguments that are still being
//! streamed.
use vstd::prelude::*;
#[allow(unused_imports)]
use vstd::string::*;
#[allow(unused_imports)]
use vstd::utf8::*;

#[allow(unused_imports)]
use crate::json::{Json, JsonView};
use crate::text::{byte_len, concat3, strip_prefix, trim_start};

verus! {

/// The value of a hexadecimal digit, in either case.
pub open spec fn hex_digit(byte: u8) -> Option<int> {
    if 0x30 <= byte <= 0x39 {
        Some(byte - 0x30)
    } else if 0x61 <= byte <= 0x66 {
        Some(byte - 0x61 + 10)
    } else if 0x41 <= byte <= 0x46 {
        Some(byte - 0x41 + 10)
    } else {
        None
    }
}

fn read_hex_digit(byte: u8) -> (out: Option<u16>)
    ensures
        match out {
            Some(d) => hex_digit(byte) == Some(d as int) && d < 16,
            None => hex_digit(byte) is None,
        },
{
    if 0x30 <= byte && byte <= 0x39 {
        Some((byte - 0x30) as u16)
    } else if 0x61 <= byte && byte <= 0x66 {
        Some((byte - 0x61 + 10) as u16)
    } else if 0x41 <= byte && byte <= 0x46 {
        Some((byte - 0x41 + 10) as u16)
    } else {
        None
    }
}

/// The code unit that four hexadecimal digits from `i` on say, where all are digits.
pub open spec fn hex_quad(bytes: Seq<u8>, i: int) -> Option<int> {
    match (
        hex_digit(bytes[i]),
        hex_digit(bytes[i + 1]),
        hex_digit(bytes[i + 2]),
        hex_digit(bytes[i + 3]),
    ) {
        (Some(a), Some(b), Some(c), Some(d)) => Some(a * 4096 + b * 256 + c * 16 + d),
        _ => None,
    }
}

/// The code unit that four hexadecimal digits from `i` on say.
pub fn json_hex_quad(bytes: &[u8], i: usize) -> (out: Option<u16>)
    requires
        i + 4 <= bytes@.len(),
    ensures
        match out {
            Some(u) => hex_quad(bytes@, i as int) == Some(u as int),
            None => hex_quad(bytes@, i as int) is None,
        },
{
    match (
        read_hex_digit(bytes[i]),
        read_hex_digit(bytes[i + 1]),
        read_hex_digit(bytes[i + 2]),
        read_hex_digit(bytes[i + 3]),
    ) {
        (Some(a), Some(b), Some(c), Some(d)) => Some(a * 4096 + b * 256 + c * 16 + d),
        _ => None,
    }
}

/// Where the part of a JSON string's body ends that no later byte can change, from
/// `i` on: at the closing quote, before an escape that is not whole, or at the end. A
/// high surrogate's escape is whole with the one that follows it.
pub open spec fn whole_prefix(bytes: Seq<u8>, i: int) -> int
    decreases bytes.len() - i,
{
    if i < 0 || i >= bytes.len() || bytes[i] == 0x22 {
        i
    } else if bytes[i] != 0x5c {
        whole_prefix(bytes, i + 1)
    } else if i + 1 >= bytes.len() {
        i
    } else if bytes[i + 1] != 0x75 {
        whole_prefix(bytes, i + 2)
    } else if i + 6 > bytes.len() {
        i
    } else {
        match hex_quad(bytes, i + 2) {
            Some(unit) if 0xd800 <= unit <= 0xdbff => if i + 12 > bytes.len() {
                i
            } else {
                whole_prefix(bytes, i + 12)
            },
            _ => whole_prefix(bytes, i + 6),
        }
    }
}

/// Where the part of a JSON string's body ends that no later byte can change. It is
/// the end, a quote or a backslash.
pub fn complete_json_string_prefix(value: &str) -> (end: usize)
    ensures
        end == whole_prefix(encode_utf8(value@), 0),
        end <= encode_utf8(value@).len(),
        is_char_boundary(encode_utf8(value@), end as int),
{
    let bytes = value.as_bytes();
    let n: usize = bytes.len();
    let mut i: usize = 0;
    proof {
        encode_utf8_valid_utf8(value@);
    }
    while i < n && bytes[i] != 0x22
        invariant
            i <= n == bytes@.len(),
            bytes@ == encode_utf8(value@),
            valid_utf8(bytes@),
            whole_prefix(bytes@, 0) == whole_prefix(bytes@, i as int),
        decreases n - i,
    {
        proof {
            ascii_is_boundary(bytes@, i as int);
        }
        if bytes[i] != 0x5c {
            i = i + 1;
        } else if n - i < 2 {
            return i;
        } else if bytes[i + 1] != 0x75 {
            i = i + 2;
        } else if n - i < 6 {
            return i;
        } else {
            match json_hex_quad(bytes, i + 2) {
                Some(unit) => {
                    if 0xd800 <= unit && unit <= 0xdbff {
                        if n - i < 12 {
                            return i;
                        }
                        i = i + 12;
                    } else {
                        i = i + 6;
                    }
                },
                None => {
                    i = i + 6;
                },
            }
        }
    }
    proof {
        if i < n {
            ascii_is_boundary(bytes@, i as int);
        } else {
            is_char_boundary_start_end_of_seq(bytes@);
        }
    }
    i
}

proof fn ascii_is_boundary(bytes: Seq<u8>, i: int)
    requires
        valid_utf8(bytes),
        0 <= i < bytes.len(),
    ensures
        bytes[i] == 0x22 || bytes[i] == 0x5c ==> is_char_boundary(bytes, i),
{
    is_char_boundary_iff_is_leading_byte(bytes, i);
    let b = bytes[i];
    assert(b == 0x22 || b == 0x5c ==> b & 0x80 == 0) by (bit_vector);
    utf8_byte_ranges_bitwise(b);
}

/// What follows a prefix, where there is a text that starts with it.
pub open spec fn after_prefix(text: Option<Seq<char>>, prefix: Seq<char>) -> Option<Seq<char>> {
    match text {
        Some(t) if crate::text::has_prefix(t, prefix) => Some(t.skip(prefix.len() as int)),
        _ => None,
    }
}

/// A text without its leading whitespace, where there is one.
pub open spec fn trimmed_start(text: Option<Seq<char>>) -> Option<Seq<char>> {
    match text {
        Some(t) => Some(crate::text::trim_start_text(t)),
        None => None,
    }
}

/// What follows the opening quote of the input in arguments that are an object whose
/// first field is the input. An empty object may stand before it.
pub open spec fn encoded_input(arguments: Seq<char>) -> Option<Seq<char>> {
    let start = crate::text::trim_start_text(arguments);
    let object = match after_prefix(Some(start), "{}"@) {
        Some(rest) => crate::text::trim_start_text(rest),
        None => start,
    };
    let fields = trimmed_start(after_prefix(Some(object), "{"@));
    let colon = trimmed_start(after_prefix(fields, "\"input\""@));
    let value = trimmed_start(after_prefix(colon, ":"@));
    after_prefix(value, "\""@)
}

/// The byte at which the encoded input starts.
pub open spec fn input_start_of(arguments: Seq<char>) -> Option<int> {
    match encoded_input(arguments) {
        Some(rest) => Some(
            if encode_utf8(arguments).len() >= encode_utf8(rest).len() {
                encode_utf8(arguments).len() - encode_utf8(rest).len()
            } else {
                0
            },
        ),
        None => None,
    }
}

fn rest_after(text: &str, prefix: &str) -> (out: Option<String>)
    ensures
        crate::data::opt_view(out) == trimmed_start(after_prefix(Some(text@), prefix@)),
{
    match strip_prefix(text, prefix) {
        Some(rest) => Some(trim_start(rest.as_str())),
        None => None,
    }
}

/// The byte at which the encoded input starts.
pub fn custom_input_start(arguments: &str) -> (start: Option<usize>)
    ensures
        match start {
            Some(at) => input_start_of(arguments@) == Some(at as int),
            None => input_start_of(arguments@) is None,
        },
{
    let start = trim_start(arguments);
    let object = match rest_after(start.as_str(), "{}") {
        Some(rest) => rest,
        None => start,
    };
    let fields = match rest_after(object.as_str(), "{") {
        Some(rest) => rest,
        None => {
            return None;
        },
    };
    let colon = match rest_after(fields.as_str(), "\"input\"") {
        Some(rest) => rest,
        None => {
            return None;
        },
    };
    let value = match rest_after(colon.as_str(), ":") {
        Some(rest) => rest,
        None => {
            return None;
        },
    };
    match strip_prefix(value.as_str(), "\"") {
        Some(rest) => {
            let all: usize = byte_len(arguments);
            let tail: usize = byte_len(rest.as_str());
            Some(all.saturating_sub(tail))
        },
        None => None,
    }
}

/// The whole part of an encoded input from a byte on: how many bytes it has, and its
/// characters. Nothing where the byte is not the first of a character.
pub open spec fn whole_part(arguments: Seq<char>, cursor: int) -> Option<(int, Seq<char>)> {
    let bytes = encode_utf8(arguments);
    if cursor > bytes.len() || !is_char_boundary(bytes, cursor) {
        None
    } else {
        let rest = bytes.subrange(cursor, bytes.len() as int);
        let end = whole_prefix(rest, 0);
        Some((end, decode_utf8(rest.subrange(0, end))))
    }
}

/// The whole part of an encoded input from a byte on.
pub fn read_whole_part(arguments: &str, cursor: usize) -> (out: Option<(usize, String)>)
    ensures
        match out {
            Some(p) => whole_part(arguments@, cursor as int) == Some((p.0 as int, p.1@)) && cursor
                + p.0 <= encode_utf8(arguments@).len() <= usize::MAX,
            None => whole_part(arguments@, cursor as int) is None,
        },
{
    if cursor > byte_len(arguments) || !arguments.is_char_boundary(cursor) {
        return None;
    }
    let (_, rest) = arguments.split_at(cursor);
    let end: usize = complete_json_string_prefix(rest);
    let (whole, _) = rest.split_at(end);
    proof {
        encode_utf8_decode_utf8(whole@);
    }
    Some((end, whole.to_owned()))
}

/// The text of a JSON string with the given body.
pub open spec fn quoted(body: Seq<char>) -> Seq<char> {
    "\""@ + body + "\""@
}

/// The text that a JSON value is, or what is said where it is none.
pub open spec fn text_read(value: Result<JsonView, Seq<char>>) -> Result<Seq<char>, Seq<char>> {
    match value {
        Ok(JsonView::Text(text)) => Ok(text),
        Ok(_) => Err("not a string"@),
        Err(reason) => Err(reason),
    }
}

/// The text that the body of a JSON string stands for, or what is wrong with it.
pub open spec fn unescaped(body: Seq<char>) -> Result<Seq<char>, Seq<char>> {
    text_read(crate::json::read_json(quoted(body)))
}

/// The text that a JSON value is, or what is said where it is none.
pub fn take_text(value: Result<Json, String>) -> (out: Result<String, String>)
    ensures
        text_outcome(out) == text_read(crate::json::read_view(value)),
{
    match value {
        Ok(Json::Text(text)) => Ok(text),
        Ok(_) => Err("not a string".to_owned()),
        Err(reason) => Err(reason),
    }
}

/// The view of a text, or of what was said where there is none.
pub open spec fn text_outcome(out: Result<String, String>) -> Result<Seq<char>, Seq<char>> {
    match out {
        Ok(text) => Ok(text@),
        Err(reason) => Err(reason@),
    }
}

/// The text that the body of a JSON string stands for, or what is wrong with it.
pub fn unescape(body: &str) -> (out: Result<String, String>)
    ensures
        text_outcome(out) == unescaped(body@),
{
    let candidate = concat3("\"", body, "\"");
    take_text(Json::read(candidate.as_str()))
}

} // verus!
