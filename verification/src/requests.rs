//! What holds of what is read from a request and from the settings, told by the characters that they
//! hold.

use vstd::prelude::*;

use crate::api::{answers_with_trace_id, offered_key, refusal};
use crate::clock::time_of;
use crate::config::{non_blank, switched_on};
use crate::headers::{field_text, if_match, is_trace_id_of, is_uuid_v4};
use crate::reply::ReplyView;
use crate::text::{after_prefix, is_white_space};
use crate::text::{
    law_blank_texts_hold_only_white_space, law_trimmed_takes_white_space_off,
    law_unquoted_takes_quotes_off,
};
use crate::text::{no_white_space_at_the_ends, only_white_space};

verus! {

/// The text of a field has a character for each byte of its first value, and it is there exactly
/// where each of the bytes is a tab or a printable ASCII character.
pub proof fn law_a_field_is_read_byte_for_byte(fields: Map<Seq<char>, Seq<u8>>, name: Seq<char>)
    ensures
        field_text(fields, name) is Some <==> fields.contains_key(name) && forall|i: int|
            0 <= i < fields[name].len() ==> #[trigger] fields[name][i] == 9 || 32 <= fields[name][i]
                <= 126,
        field_text(fields, name) matches Some(text) ==> text.len() == fields[name].len() && forall|
            i: int,
        |
            0 <= i < text.len() ==> #[trigger] text[i] as int == fields[name][i] as int,
{
}

/// A request states a precondition exactly where it has an `if-match` field that is plain text.
pub proof fn law_each_readable_field_states_a_precondition(fields: Map<Seq<char>, Seq<u8>>)
    ensures
        if_match(fields) is Some <==> field_text(fields, "if-match"@) is Some,
{
}

/// The precondition of a request is what its `if-match` field holds between the white space and the
/// double quotes round it, whatever that is.
pub proof fn law_the_precondition_is_what_the_field_holds(
    fields: Map<Seq<char>, Seq<u8>>,
    before: Seq<char>,
    opening: Seq<char>,
    tag: Seq<char>,
    closing: Seq<char>,
    after: Seq<char>,
)
    requires
        field_text(fields, "if-match"@) == Some(before + (opening + tag + closing) + after),
        only_white_space(before),
        only_white_space(after),
        forall|i: int| 0 <= i < opening.len() ==> #[trigger] opening[i] == '"',
        forall|i: int| 0 <= i < closing.len() ==> #[trigger] closing[i] == '"',
        tag.len() == 0 || tag.first() != '"' && tag.last() != '"',
        no_white_space_at_the_ends(opening + tag + closing),
    ensures
        if_match(fields) == Some(tag),
{
    law_trimmed_takes_white_space_off(before, opening + tag + closing, after);
    law_unquoted_takes_quotes_off(opening, tag, closing);
}

/// A text without white space or double quotes at its ends is a precondition as it stands, and so
/// it is in double quotes.
pub proof fn law_a_text_is_its_own_precondition(fields: Map<Seq<char>, Seq<u8>>, tag: Seq<char>)
    requires
        no_white_space_at_the_ends(tag),
        tag.len() == 0 || tag.first() != '"' && tag.last() != '"',
        field_text(fields, "if-match"@) == Some(tag) || field_text(fields, "if-match"@) == Some(
            seq!['"'] + tag + seq!['"'],
        ),
    ensures
        if_match(fields) == Some(tag),
{
    let none = Seq::<char>::empty();
    let quote = seq!['"'];
    if field_text(fields, "if-match"@) == Some(tag) {
        assert(none + (none + tag + none) + none =~= tag);
        assert(none + tag + none =~= tag);
        law_the_precondition_is_what_the_field_holds(fields, none, none, tag, none, none);
    } else {
        assert(none + (quote + tag + quote) + none =~= quote + tag + quote);
        assert((quote + tag + quote).first() == '"' && (quote + tag + quote).last() == '"');
        law_the_precondition_is_what_the_field_holds(fields, none, quote, tag, quote, none);
    }
}

/// A trace id that holds more than white space is kept to the letter. Without one, any random UUID
/// may stand for it, and nothing else.
pub proof fn law_a_trace_id_is_kept(fields: Map<Seq<char>, Seq<u8>>, trace_id: Seq<char>)
    ensures
        match field_text(fields, "x-trace-id"@) {
            Some(given) => if exists|i: int|
                0 <= i < given.len() && !is_white_space(#[trigger] given[i]) {
                is_trace_id_of(fields, trace_id) <==> trace_id == given
            } else {
                is_trace_id_of(fields, trace_id) <==> is_uuid_v4(trace_id)
            },
            None => is_trace_id_of(fields, trace_id) <==> is_uuid_v4(trace_id),
        },
{
    if let Some(given) = field_text(fields, "x-trace-id"@) {
        law_blank_texts_hold_only_white_space(given);
    }
}

/// A trace id that the service drew is kept when it comes back in a request.
pub proof fn law_a_drawn_trace_id_is_kept(
    fields: Map<Seq<char>, Seq<u8>>,
    drawn: Seq<char>,
    trace_id: Seq<char>,
)
    requires
        is_uuid_v4(drawn),
        fields.contains_key("x-trace-id"@),
        fields["x-trace-id"@].len() == drawn.len(),
        forall|i: int|
            0 <= i < drawn.len() ==> #[trigger] fields["x-trace-id"@][i] as int == drawn[i] as int,
    ensures
        is_trace_id_of(fields, trace_id) <==> trace_id == drawn,
{
    let bytes = fields["x-trace-id"@];
    assert forall|i: int| 0 <= i < bytes.len() implies #[trigger] bytes[i] == 9 || 32 <= bytes[i]
        <= 126 by {
        assert(bytes[i] as int == drawn[i] as int);
        assert(drawn[i] == '-' || '0' <= drawn[i] <= '9' || 'a' <= drawn[i] <= 'f');
    }
    law_a_field_is_read_byte_for_byte(fields, "x-trace-id"@);
    let text = field_text(fields, "x-trace-id"@)->0;
    assert forall|i: int| 0 <= i < text.len() implies text[i] == drawn[i] by {
        assert(text[i] as int == bytes[i] as int);
    }
    assert(text =~= drawn);
    assert(!is_white_space(drawn[14]));
    law_a_trace_id_is_kept(fields, trace_id);
}

/// An answer that carries a trace id of the request is the answer for that very trace id.
pub proof fn law_an_answer_is_the_one_for_its_trace_id(
    reply: ReplyView,
    fields: Map<Seq<char>, Seq<u8>>,
    answer: spec_fn(Seq<char>) -> ReplyView,
)
    ensures
        answers_with_trace_id(reply, fields, answer) <==> reply == answer(reply.trace_id)
            && is_trace_id_of(fields, reply.trace_id),
{
}

/// The whole text of the `x-api-key` field is the key that a request offers, but for the white space
/// round it. Where that is the key that is set, the request is let through.
pub proof fn law_the_key_in_its_own_field_opens(
    fields: Map<Seq<char>, Seq<u8>>,
    before: Seq<char>,
    key: Seq<char>,
    after: Seq<char>,
    allow_insecure_dev: bool,
)
    requires
        field_text(fields, "x-api-key"@) == Some(before + key + after),
        only_white_space(before),
        only_white_space(after),
        no_white_space_at_the_ends(key),
    ensures
        offered_key(fields) == Some(key),
        refusal(Some(key), allow_insecure_dev, offered_key(fields)) is None,
{
    law_trimmed_takes_white_space_off(before, key, after);
}

/// Where there is no `x-api-key` text, all that follows `ApiKey ` in the `authorization` field is
/// the key that a request offers, but for the white space round it. Where that is the key that is
/// set, the request is let through.
pub proof fn law_the_key_in_the_authorization_opens(
    fields: Map<Seq<char>, Seq<u8>>,
    before: Seq<char>,
    gap: Seq<char>,
    key: Seq<char>,
    after: Seq<char>,
    allow_insecure_dev: bool,
)
    requires
        field_text(fields, "x-api-key"@) is None,
        field_text(fields, "authorization"@) == Some(before + ("ApiKey "@ + gap + key) + after),
        only_white_space(before),
        only_white_space(gap),
        only_white_space(after),
        key.len() > 0,
        no_white_space_at_the_ends(key),
    ensures
        offered_key(fields) == Some(key),
        refusal(Some(key), allow_insecure_dev, offered_key(fields)) is None,
{
    reveal_strlit("ApiKey ");
    let scheme = "ApiKey "@;
    let inner = scheme + gap + key;
    let none = Seq::<char>::empty();
    assert(inner.first() == 'A');
    assert(inner.last() == key.last());
    law_trimmed_takes_white_space_off(before, inner, after);
    assert(scheme.is_prefix_of(inner)) by {
        assert(inner.subrange(0, scheme.len() as int) =~= scheme);
    }
    assert(inner.skip(scheme.len() as int) =~= gap + key + none);
    assert(after_prefix(inner, scheme) == Some(gap + key + none));
    law_trimmed_takes_white_space_off(gap, key, none);
}

/// Where there is no `x-api-key` text and no `authorization` text, or one that does not start with
/// `ApiKey ` once the white space round it is off, a request offers no key.
pub proof fn law_without_either_field_no_key_is_offered(
    fields: Map<Seq<char>, Seq<u8>>,
    before: Seq<char>,
    inner: Seq<char>,
    after: Seq<char>,
)
    requires
        field_text(fields, "x-api-key"@) is None,
        only_white_space(before),
        only_white_space(after),
        no_white_space_at_the_ends(inner),
        !"ApiKey "@.is_prefix_of(inner),
        field_text(fields, "authorization"@) is None || field_text(fields, "authorization"@)
            == Some(before + inner + after),
    ensures
        offered_key(fields) is None,
{
    law_trimmed_takes_white_space_off(before, inner, after);
}

/// The value of a variable is kept to the letter where it holds more than white space, and counts
/// as unset otherwise.
pub proof fn law_settings_are_kept_unless_blank(value: Option<Seq<char>>)
    ensures
        match value {
            Some(v) => if exists|i: int| 0 <= i < v.len() && !is_white_space(#[trigger] v[i]) {
                non_blank(value) == Some(v)
            } else {
                non_blank(value) is None
            },
            None => non_blank(value) is None,
        },
{
    if let Some(v) = value {
        law_blank_texts_hold_only_white_space(v);
    }
}

/// A variable is switched on by the digit one and by the four letters of `true`, each of them small
/// or capital, and by nothing else.
pub proof fn law_what_switches_on(value: Option<Seq<char>>)
    ensures
        switched_on(value) <==> (value matches Some(v) && (v.len() == 1 && v[0] == '1' || v.len()
            == 4 && (v[0] == 't' || v[0] == 'T') && (v[1] == 'r' || v[1] == 'R') && (v[2] == 'u'
            || v[2] == 'U') && (v[3] == 'e' || v[3] == 'E'))),
{
    reveal_strlit("1");
    reveal_strlit("true");
    if let Some(v) = value {
        let lower = |c: char| crate::text::ascii_lower(c);
        let small = v.map_values(lower);
        let on = "true"@.map_values(lower);
        assert(on =~= "true"@);
        if v.len() == 1 && v[0] == '1' {
            assert(v =~= "1"@);
        }
        if small == on {
            assert(small.len() == 4);
            assert(small[0] == 't' && small[1] == 'r' && small[2] == 'u' && small[3] == 'e');
        }
        if v.len() == 4 && (v[0] == 't' || v[0] == 'T') && (v[1] == 'r' || v[1] == 'R') && (v[2]
            == 'u' || v[2] == 'U') && (v[3] == 'e' || v[3] == 'E') {
            assert(small =~= on);
        }
    }
}

/// There is a time exactly where there is a reading of the clock. The reading lies in the millisecond
/// that it gives, as long as that fits 64 bits, and the low 64 bits are kept in any case.
pub proof fn law_a_reading_lies_in_its_millisecond(reading: Option<u128>)
    ensures
        match (reading, time_of(reading)) {
            (Some(nanos), Some(ms)) => {
                &&& nanos < (i64::MAX + 1) * 1_000_000 ==> 0 <= ms && ms * 1_000_000 <= nanos < (ms
                    + 1) * 1_000_000
                &&& ms as u64 == (nanos / 1_000_000) as u64
            },
            (None, None) => true,
            _ => false,
        },
{
    if let Some(nanos) = reading {
        let whole = nanos / 1_000_000;
        assert((whole as i64) as u64 == whole as u64) by (bit_vector);
    }
}

} // verus!
