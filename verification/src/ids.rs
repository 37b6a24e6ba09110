//! Fresh identities: time-ordered UUIDs under a prefix.
use vstd::prelude::*;

use crate::text::{concat, hex, strip_prefix};

verus! {

/// Calls `chrono::Utc::now().timestamp()`: the seconds since the Unix epoch. It
/// depends on the machine's clock, so nothing is said of it.
#[verifier::external_body]
pub(crate) fn now_seconds() -> (seconds: i64)
{
    chrono::Utc::now().timestamp()
}

/// Calls `chrono::Utc::now().timestamp_millis()`: the milliseconds since the Unix
/// epoch. It depends on the machine's clock, so nothing is said of it.
#[verifier::external_body]
fn now_millis() -> (millis: i64)
{
    chrono::Utc::now().timestamp_millis()
}

/// Calls `ring::rand::SystemRandom::fill` for `n` bytes. They depend on chance, so
/// nothing is said of them but their number; none come where the system has no
/// randomness to give.
#[verifier::external_body]
pub(crate) fn random_bytes(n: usize) -> (bytes: Option<Vec<u8>>)
    ensures
        bytes matches Some(b) ==> b@.len() == n,
{
    let mut bytes = vec![0u8; n];
    let source = ring::rand::SystemRandom::new();
    ring::rand::SecureRandom::fill(&source, &mut bytes).ok().map(|_| bytes)
}

/// The value of bytes, the first the most significant.
pub open spec fn big_endian(bytes: Seq<u8>) -> nat
    decreases bytes.len(),
{
    if bytes.len() == 0 {
        0
    } else {
        big_endian(bytes.drop_last()) * 256 + bytes.last() as nat
    }
}

fn value_of(bytes: &Vec<u8>, from: usize, to: usize) -> (value: u64)
    requires
        from <= to <= bytes@.len(),
        to - from <= 6,
    ensures
        value == big_endian(bytes@.subrange(from as int, to as int)),
        value < 0x1_0000_0000_0000,
{
    let mut value: u64 = 0;
    let mut i: usize = from;
    let ghost mut bound: nat = 1;
    proof {
        assert(bytes@.subrange(from as int, from as int) =~= Seq::empty());
    }
    while i < to
        invariant
            from <= i <= to <= bytes@.len(),
            to - from <= 6,
            value == big_endian(bytes@.subrange(from as int, i as int)),
            value < bound,
            i - from == 0 ==> bound == 1,
            i - from == 1 ==> bound == 0x100,
            i - from == 2 ==> bound == 0x1_0000,
            i - from == 3 ==> bound == 0x100_0000,
            i - from == 4 ==> bound == 0x1_0000_0000,
            i - from == 5 ==> bound == 0x100_0000_0000,
            i - from == 6 ==> bound == 0x1_0000_0000_0000,
        decreases to - i,
    {
        proof {
            assert(bytes@.subrange(from as int, i + 1).drop_last() =~= bytes@.subrange(
                from as int,
                i as int,
            ));
            bound = bound * 256;
        }
        value = value * 256 + bytes[i] as u64;
        i = i + 1;
    }
    value
}

/// The text of a version 7 UUID: the milliseconds, then the random bytes with the
/// version and variant bits set.
pub open spec fn uuid7_text(millis: u64, random: Seq<u8>) -> Seq<char> {
    let ms = crate::text::hex_text(millis as nat, 12);
    ms.take(8) + "-"@ + ms.skip(8) + "-7"@ + crate::text::hex_text(
        big_endian(random.subrange(0, 2)) % 0x1000,
        3,
    ) + "-"@ + crate::text::hex_text(0x8000 + big_endian(random.subrange(2, 4)) % 0x4000, 4) + "-"@
        + crate::text::hex_text(big_endian(random.subrange(4, 10)), 12)
}

/// The text of a version 7 UUID.
pub fn uuid7(millis: u64, random: &Vec<u8>) -> (text: String)
    requires
        random@.len() == 10,
    ensures
        text@ == uuid7_text(millis, random@),
{
    let ms = hex(millis, 12);
    proof {
        crate::text::hex_text_length(millis as nat, 12);
    }
    let chars = crate::text::chars_of(ms.as_str());
    let mut text = crate::text::string_of(&chars, 0, 8);
    let tail = crate::text::string_of(&chars, 8, 12);
    proof {
        assert(text@ =~= ms@.take(8));
        assert(tail@ =~= ms@.skip(8));
    }
    let a: u64 = value_of(random, 0, 2) % 0x1000;
    let b: u64 = 0x8000 + value_of(random, 2, 4) % 0x4000;
    let c: u64 = value_of(random, 4, 10);
    text = concat(text.as_str(), "-");
    text = concat(text.as_str(), tail.as_str());
    text = concat(text.as_str(), "-7");
    text = concat(text.as_str(), hex(a, 3).as_str());
    text = concat(text.as_str(), "-");
    text = concat(text.as_str(), hex(b, 4).as_str());
    text = concat(text.as_str(), "-");
    text = concat(text.as_str(), hex(c, 12).as_str());
    text
}

/// Whether a text is that of some version 7 UUID.
pub open spec fn is_uuid7(text: Seq<char>) -> bool {
    exists|millis: u64, random: Seq<u8>|
        random.len() == 10 && text == #[trigger] uuid7_text(millis, random)
}

/// There are texts of UUIDs.
pub(crate) proof fn uuids_exist()
    ensures
        exists|text: Seq<char>| is_uuid7(text),
{
    let random = Seq::new(10, |i: int| 0u8);
    assert(is_uuid7(uuid7_text(0, random)));
}

/// The text of a fresh UUID, from the clock and the system's randomness. Where
/// there is no randomness the random bytes are zero.
pub fn fresh_uuid() -> (text: String)
    ensures
        is_uuid7(text@),
{
    let now: i64 = now_millis();
    let millis: u64 = if now >= 0 {
        now as u64
    } else {
        0
    };
    let random = match random_bytes(10) {
        Some(bytes) => bytes,
        None => vec![0u8, 0u8, 0u8, 0u8, 0u8, 0u8, 0u8, 0u8, 0u8, 0u8],
    };
    uuid7(millis, &random)
}

/// A fresh identity: the prefix, then a UUID.
pub fn uuid7_str(prefix: &str) -> (id: String)
    ensures
        exists|uuid: Seq<char>| #[trigger] is_uuid7(uuid) && id@ == prefix@ + uuid,
{
    let uuid = fresh_uuid();
    concat(prefix, uuid.as_str())
}

/// What follows a prefix, where that is anything.
pub open spec fn suffix_of(id: Seq<char>, prefix: Seq<char>) -> Option<Seq<char>> {
    if crate::text::has_prefix(id, prefix) && id.len() > prefix.len() {
        Some(id.skip(prefix.len() as int))
    } else {
        None
    }
}

fn find_suffix(id: &str, prefix: &str) -> (suffix: Option<String>)
    ensures
        crate::data::opt_view(suffix) == suffix_of(id@, prefix@),
{
    match strip_prefix(id, prefix) {
        Some(suffix) => if suffix.as_str().is_empty() {
            None
        } else {
            Some(suffix)
        },
        None => None,
    }
}

/// The identity of the public item of a call that the gateway runs: what the call's
/// identity, or its `call_id`, has behind its prefix; else something fresh.
pub open spec fn output_id(
    prefix: Seq<char>,
    id: Seq<char>,
    call_id: Seq<char>,
    fresh: Seq<char>,
) -> Seq<
    char,
> {
    match (suffix_of(id, "fc_"@), suffix_of(call_id, "call_"@)) {
        (Some(suffix), _) => prefix + suffix,
        (None, Some(suffix)) => prefix + suffix,
        (None, None) => prefix + fresh,
    }
}

/// The identity of the public item of a call that the gateway runs.
pub fn call_output_id(prefix: &str, id: &str, call_id: &str, fresh: &str) -> (out: String)
    ensures
        out@ == output_id(prefix@, id@, call_id@, fresh@),
{
    if let Some(suffix) = find_suffix(id, "fc_") {
        return concat(prefix, suffix.as_str());
    }
    if let Some(suffix) = find_suffix(call_id, "call_") {
        return concat(prefix, suffix.as_str());
    }
    concat(prefix, fresh)
}

} // verus!
