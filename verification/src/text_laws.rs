//! What the small operations on texts and identities come to.
use vstd::prelude::*;

#[allow(unused_imports)]
use crate::items::FunctionToolCallView;
#[allow(unused_imports)]
use crate::json::JsonView;

verus! {

/// Whether nothing but whitespace is in a text.
pub open spec fn is_space(text: Seq<char>) -> bool {
    forall|i: int| 0 <= i < text.len() ==> crate::text::is_whitespace(#[trigger] text[i])
}

/// Whether a text begins and ends with something other than whitespace.
pub open spec fn is_tight(text: Seq<char>) -> bool {
    text.len() > 0 && !crate::text::is_whitespace(text[0]) && !crate::text::is_whitespace(
        text.last(),
    )
}

/// Blanks, tabs and line ends are whitespace; letters, digits and punctuation are not.
pub proof fn whitespace_is_what_it_is(c: char)
    ensures
        c == ' ' || c == '\t' || c == '\n' || c == '\r' ==> crate::text::is_whitespace(c),
        '!' <= c <= '~' ==> !crate::text::is_whitespace(c),
{
}

proof fn leading_space_goes(before: Seq<char>, rest: Seq<char>)
    requires
        is_space(before),
        rest.len() > 0 ==> !crate::text::is_whitespace(rest[0]),
    ensures
        crate::text::trim_start_text(before + rest) == rest,
    decreases before.len(),
{
    if before.len() > 0 {
        assert((before + rest)[0] == before[0]);
        assert((before + rest).drop_first() =~= before.drop_first() + rest);
        assert forall|i: int| 0 <= i < before.drop_first().len() implies crate::text::is_whitespace(
            #[trigger] before.drop_first()[i],
        ) by {
            assert(before.drop_first()[i] == before[i + 1]);
        }
        leading_space_goes(before.drop_first(), rest);
    } else {
        assert(before + rest =~= rest);
    }
}

proof fn trailing_space_goes(text: Seq<char>, after: Seq<char>)
    requires
        is_space(after),
        text.len() > 0 ==> !crate::text::is_whitespace(text.last()),
    ensures
        crate::text::trim_end_text(text + after) == text,
    decreases after.len(),
{
    if after.len() > 0 {
        assert((text + after).last() == after.last());
        assert((text + after).drop_last() =~= text + after.drop_last());
        assert forall|i: int| 0 <= i < after.drop_last().len() implies crate::text::is_whitespace(
            #[trigger] after.drop_last()[i],
        ) by {
            assert(after.drop_last()[i] == after[i]);
        }
        trailing_space_goes(text, after.drop_last());
    } else {
        assert(text + after =~= text);
    }
}

/// Whitespace at the ends of a text goes and nothing else does; a text of whitespace says
/// nothing.
pub proof fn ends_are_trimmed(before: Seq<char>, text: Seq<char>, after: Seq<char>)
    requires
        is_space(before),
        is_tight(text),
        is_space(after),
    ensures
        crate::text::trim_text(before + text + after) == text,
        !crate::text::blank(before + text + after),
        crate::custom::trimmed(Some(before + text + after)) == Some(text),
        crate::text::trim_text(before).len() == 0,
        crate::text::blank(before),
        crate::custom::trimmed(Some(before)) is None,
{
    assert(before + text + after =~= before + (text + after));
    leading_space_goes(before, text + after);
    trailing_space_goes(text, after);
    leading_space_goes(before, Seq::empty());
    assert(before + Seq::<char>::empty() =~= before);
}

/// What begins with a text has it as its prefix, and has no other prefix of its length.
pub proof fn prefixes_are_beginnings(prefix: Seq<char>, rest: Seq<char>, other: Seq<char>)
    ensures
        crate::text::has_prefix(prefix + rest, prefix),
        other.len() == prefix.len() && other != prefix ==> !crate::text::has_prefix(
            prefix + rest,
            other,
        ),
        other.len() > prefix.len() + rest.len() ==> !crate::text::has_prefix(prefix + rest, other),
{
    assert((prefix + rest).take(prefix.len() as int) =~= prefix);
}

/// The number that decimal digits stand for.
pub open spec fn number_of(digits: Seq<char>) -> int
    decreases digits.len(),
{
    if digits.len() == 0 {
        0
    } else {
        number_of(digits.drop_last()) * 10 + (digits.last() as u32 - '0' as u32)
    }
}

/// A number is written in decimal digits that stand for it, without zeros before it.
pub proof fn numbers_are_written_in_decimal(n: nat)
    ensures
        number_of(crate::text::decimal_text(n)) == n,
        crate::text::decimal_text(n).len() > 0,
        n > 0 ==> crate::text::decimal_text(n)[0] != '0',
        forall|i: int|
            0 <= i < crate::text::decimal_text(n).len() ==> '0' <= (
            #[trigger] crate::text::decimal_text(n)[i]) <= '9',
    decreases n,
{
    let text = crate::text::decimal_text(n);
    if n >= 10 {
        numbers_are_written_in_decimal(n / 10);
        assert(text.drop_last() =~= crate::text::decimal_text(n / 10));
    } else {
        assert(text.drop_last() =~= Seq::empty());
        assert(number_of(text.drop_last()) == 0);
    }
}

/// The number that a hexadecimal digit stands for.
pub open spec fn digit_value(c: char) -> int {
    if '0' <= c <= '9' {
        c as u32 - '0' as u32
    } else {
        c as u32 - 'a' as u32 + 10
    }
}

/// The number that hexadecimal digits stand for.
pub open spec fn hex_number_of(digits: Seq<char>) -> int
    decreases digits.len(),
{
    if digits.len() == 0 {
        0
    } else {
        hex_number_of(digits.drop_last()) * 16 + digit_value(digits.last())
    }
}

/// A number is written in small hexadecimal digits, as many as are asked for, that stand for
/// it where it needs no more of them.
pub proof fn numbers_are_written_in_hexadecimal(n: nat, width: nat)
    ensures
        crate::text::hex_text(n, width).len() == width,
        forall|i: int|
            0 <= i < width ==> '0' <= (#[trigger] crate::text::hex_text(n, width)[i]) <= '9' || 'a'
                <= crate::text::hex_text(n, width)[i] <= 'f',
        n < vstd::arithmetic::power::pow(16, width) ==> hex_number_of(
            crate::text::hex_text(n, width),
        ) == n,
    decreases width,
{
    let text = crate::text::hex_text(n, width);
    if width > 0 {
        numbers_are_written_in_hexadecimal(n / 16, (width - 1) as nat);
        assert(text.drop_last() =~= crate::text::hex_text(n / 16, (width - 1) as nat));
        let below = vstd::arithmetic::power::pow(16, (width - 1) as nat);
        reveal(vstd::arithmetic::power::pow);
        assert(vstd::arithmetic::power::pow(16, width) == 16 * below);
        if n < vstd::arithmetic::power::pow(16, width) {
            assert(n / 16 < below);
        }
        assert(digit_value(text.last()) == n % 16);
    } else {
        reveal(vstd::arithmetic::power::pow);
    }
}

/// Texts that are joined stand one after the other, with the separator between each two.
pub proof fn joins_keep_all_parts(a: Seq<Seq<char>>, b: Seq<Seq<char>>, separator: Seq<char>)
    requires
        a.len() > 0,
        b.len() > 0,
    ensures
        crate::text::join_text(a + b, separator) == crate::text::join_text(a, separator)
            + separator + crate::text::join_text(b, separator),
        a.len() == 1 ==> crate::text::join_text(a, separator) == a[0],
    decreases b.len(),
{
    if b.len() == 1 {
        assert((a + b).drop_last() =~= a);
    } else {
        joins_keep_all_parts(a, b.drop_last(), separator);
        assert((a + b).drop_last() =~= a + b.drop_last());
        assert(crate::text::join_text(a + b, separator) =~= crate::text::join_text(a, separator)
            + separator + crate::text::join_text(b, separator));
    }
}

/// Slashes at the end of a text go, and nothing else does.
pub proof fn trailing_marks_go(text: Seq<char>, marks: Seq<char>, mark: char)
    requires
        text.len() > 0 ==> text.last() != mark,
        forall|i: int| 0 <= i < marks.len() ==> #[trigger] marks[i] == mark,
    ensures
        crate::text::trim_end_matches_text(text + marks, mark) == text,
    decreases marks.len(),
{
    if marks.len() > 0 {
        assert((text + marks).last() == marks.last());
        assert((text + marks).drop_last() =~= text + marks.drop_last());
        assert forall|i: int| 0 <= i < marks.drop_last().len() implies #[trigger] marks.drop_last(
        )[i] == mark by {
            assert(marks.drop_last()[i] == marks[i]);
        }
        trailing_marks_go(text, marks.drop_last(), mark);
    } else {
        assert(text + marks =~= text);
    }
}

/// Each byte is mixed into the hash of those before it; the hash of no bytes and the factor are
/// those of the 64-bit FNV-1a function.
pub proof fn hashes_mix_every_byte(bytes: Seq<u8>, byte: u8)
    ensures
        crate::text::fnv1a(Seq::empty()) == 0xcbf29ce484222325,
        crate::text::fnv1a(bytes.push(byte)) == (crate::text::fnv1a(bytes)
            ^ byte as u64).wrapping_mul(0x100000001b3),
{
    assert(bytes.push(byte).drop_last() =~= bytes);
}

proof fn prefix_literals()
    ensures
        "fc_"@.len() == 3,
        "fc_"@ == seq!['f', 'c', '_'],
        "call_"@.len() == 5,
        "ctc_"@.len() == 4,
        "ctc_"@[0] == 'c',
        "tsc_"@.len() == 4,
        "tsc_"@[0] == 't',
{
    reveal_strlit("fc_");
    reveal_strlit("call_");
    reveal_strlit("ctc_");
    reveal_strlit("tsc_");
    assert("fc_"@ =~= seq!['f', 'c', '_']);
}

/// The item that clients are shown of a call has the call's own identity behind another prefix:
/// that of the model's item, or else that of the call id, or else a fresh one.
pub proof fn shown_identities_follow_the_call(
    prefix: Seq<char>,
    id: Seq<char>,
    call_id: Seq<char>,
    fresh: Seq<char>,
    suffix: Seq<char>,
)
    requires
        suffix.len() > 0,
    ensures
        crate::ids::output_id(prefix, "fc_"@ + suffix, call_id, fresh) == prefix + suffix,
        !crate::text::has_prefix(id, "fc_"@) ==> crate::ids::output_id(
            prefix,
            id,
            "call_"@ + suffix,
            fresh,
        ) == prefix + suffix,
        !crate::text::has_prefix(id, "fc_"@) && !crate::text::has_prefix(call_id, "call_"@)
            ==> crate::ids::output_id(prefix, id, call_id, fresh) == prefix + fresh,
{
    prefixes_are_beginnings("fc_"@, suffix, "fc_"@);
    prefixes_are_beginnings("call_"@, suffix, "call_"@);
    assert(("fc_"@ + suffix).skip("fc_"@.len() as int) =~= suffix);
    assert(("call_"@ + suffix).skip("call_"@.len() as int) =~= suffix);
}

/// A custom call and a search are known to clients by what the model's item has behind its
/// prefix. An identity that is public already stays.
pub proof fn public_identities_follow_the_item(suffix: Seq<char>)
    requires
        suffix.len() > 0,
    ensures
        crate::custom::custom_item_id("fc_"@ + suffix) == "ctc_"@ + suffix,
        crate::custom::custom_item_id("ctc_"@ + suffix) == "ctc_"@ + suffix,
        crate::search::search_item_id("fc_"@ + suffix) == "tsc_"@ + suffix,
        crate::search::search_item_id("tsc_"@ + suffix) == "tsc_"@ + suffix,
{
    prefix_literals();
    prefixes_are_beginnings("fc_"@, suffix, "fc_"@);
    prefixes_are_beginnings("ctc_"@, suffix, "ctc_"@);
    prefixes_are_beginnings("tsc_"@, suffix, "tsc_"@);
    let item = "fc_"@ + suffix;
    assert(item.skip("fc_"@.len() as int) =~= suffix);
    assert(item[0] == 'f');
    assert(item.take(4)[0] == 'f');
}

/// The input of a custom call is the text that the arguments are, or that they hold as
/// `input`; arguments that hold no text are themselves the input.
pub proof fn inputs_are_what_arguments_hold(
    arguments: Seq<char>,
    input: Seq<char>,
    fields: Map<Seq<char>, JsonView>,
)
    ensures
        crate::json::parsed_json(arguments) == Some(JsonView::Text(input))
            ==> crate::custom::input_or_arguments(arguments) == input,
        crate::json::parsed_json(arguments) == Some(JsonView::Object(fields))
            && fields.contains_key("input"@) && fields["input"@] == JsonView::Text(input)
            ==> crate::custom::input_or_arguments(arguments) == input,
        crate::json::parsed_json(arguments) == Some(JsonView::Object(fields))
            && !fields.contains_key("input"@) ==> crate::custom::input_or_arguments(arguments)
            == arguments,
        crate::json::parsed_json(arguments) is None ==> crate::custom::input_or_arguments(
            arguments,
        ) == arguments,
{
}

/// A custom call that ended is shown with the model's call id, name and status and with its
/// input; one that begins has no input yet.
pub proof fn custom_calls_are_shown_as_called(call: FunctionToolCallView)
    ensures
        ({
            let ended = crate::custom::finished_custom_call(call);
            let begun = crate::custom::started_custom_call(call);
            &&& ended.call_id == call.call_id && ended.name == call.name && ended.status == Some(
                call.status,
            )
            &&& begun.call_id == call.call_id && begun.name == call.name
                && begun.status is Some && begun.status->0 is InProgress && begun.input.len() == 0
            &&& begun.id == ended.id
            &&& crate::json::parsed_json(call.arguments) is None ==> ended.input == call.arguments
        }),
{
}

/// A fresh identity has the shape of a version 7 UUID: five groups of hexadecimal digits, the
/// version and the variant in their places, and it begins with the time.
pub proof fn fresh_identities_are_uuids(millis: u64, random: Seq<u8>)
    requires
        random.len() == 10,
    ensures
        ({
            let text = crate::ids::uuid7_text(millis, random);
            let time = crate::text::hex_text(millis as nat, 12);
            &&& text.len() == 36
            &&& text[8] == '-' && text[13] == '-' && text[18] == '-' && text[23] == '-'
            &&& text[14] == '7'
            &&& text.take(8) == time.take(8)
            &&& text.subrange(9, 13) == time.skip(8)
            &&& text.skip(24) == crate::text::hex_text(
                crate::ids::big_endian(random.subrange(4, 10)),
                12,
            )
        }),
{
    reveal_strlit("-");
    reveal_strlit("-7");
    let ms = crate::text::hex_text(millis as nat, 12);
    let a = crate::text::hex_text(crate::ids::big_endian(random.subrange(0, 2)) % 0x1000, 3);
    let b = crate::text::hex_text(
        0x8000 + crate::ids::big_endian(random.subrange(2, 4)) % 0x4000,
        4,
    );
    let c = crate::text::hex_text(crate::ids::big_endian(random.subrange(4, 10)), 12);
    crate::text::hex_text_length(millis as nat, 12);
    crate::text::hex_text_length(crate::ids::big_endian(random.subrange(0, 2)) % 0x1000, 3);
    crate::text::hex_text_length(
        0x8000 + crate::ids::big_endian(random.subrange(2, 4)) % 0x4000,
        4,
    );
    crate::text::hex_text_length(crate::ids::big_endian(random.subrange(4, 10)), 12);
    let text = crate::ids::uuid7_text(millis, random);
    assert(text == ms.take(8) + "-"@ + ms.skip(8) + "-7"@ + a + "-"@ + b + "-"@ + c);
    assert(text.take(8) =~= ms.take(8));
    assert(text.subrange(9, 13) =~= ms.skip(8));
    assert(text.skip(24) =~= c);
}

} // verus!
