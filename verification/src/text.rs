//! Text operations of the standard library and the models that their contracts use.

use vstd::prelude::*;

verus! {

/// Whether `c` has the Unicode property `White_Space`.
pub open spec fn is_white_space(c: char) -> bool {
    let u = c as u32;
    ||| 0x09 <= u <= 0x0d
    ||| u == 0x20
    ||| u == 0x85
    ||| u == 0xa0
    ||| u == 0x1680
    ||| 0x2000 <= u <= 0x200a
    ||| u == 0x2028
    ||| u == 0x2029
    ||| u == 0x202f
    ||| u == 0x205f
    ||| u == 0x3000
}

/// `s` without its longest prefix of characters that satisfy `drop`.
pub open spec fn trim_start_by(s: Seq<char>, drop: spec_fn(char) -> bool) -> Seq<char>
    decreases s.len(),
{
    if s.len() > 0 && drop(s.first()) {
        trim_start_by(s.drop_first(), drop)
    } else {
        s
    }
}

/// `s` without its longest suffix of characters that satisfy `drop`.
pub open spec fn trim_end_by(s: Seq<char>, drop: spec_fn(char) -> bool) -> Seq<char>
    decreases s.len(),
{
    if s.len() > 0 && drop(s.last()) {
        trim_end_by(s.drop_last(), drop)
    } else {
        s
    }
}

/// `s` without the characters at both ends that satisfy `drop`.
pub open spec fn trim_by(s: Seq<char>, drop: spec_fn(char) -> bool) -> Seq<char> {
    trim_end_by(trim_start_by(s, drop), drop)
}

/// `s` without the white space at its ends.
pub open spec fn trimmed(s: Seq<char>) -> Seq<char> {
    trim_by(s, |c: char| is_white_space(c))
}

/// `s` without the double quotes at its ends.
pub open spec fn unquoted(s: Seq<char>) -> Seq<char> {
    trim_by(s, |c: char| c == '"')
}

/// Whether `s` holds nothing but white space.
pub open spec fn is_blank(s: Seq<char>) -> bool {
    trimmed(s).len() == 0
}

/// What follows `prefix` in `s`, where `s` starts with it.
pub open spec fn after_prefix(s: Seq<char>, prefix: Seq<char>) -> Option<Seq<char>> {
    if prefix.is_prefix_of(s) {
        Some(s.skip(prefix.len() as int))
    } else {
        None
    }
}

/// `c` with an ASCII capital replaced by its small letter.
pub open spec fn ascii_lower(c: char) -> char {
    if 'A' <= c <= 'Z' {
        (c as u32 + 32) as char
    } else {
        c
    }
}

/// Whether `a` and `b` are equal up to the case of ASCII letters.
pub open spec fn same_ignoring_ascii_case(a: Seq<char>, b: Seq<char>) -> bool {
    a.map_values(|c: char| ascii_lower(c)) == b.map_values(|c: char| ascii_lower(c))
}

/// The characters of an optional text.
pub open spec fn opt_text(s: Option<&str>) -> Option<Seq<char>> {
    match s {
        Some(t) => Some(t@),
        None => None,
    }
}

/// The characters of an optional owned text.
pub open spec fn opt_string(s: Option<String>) -> Option<Seq<char>> {
    match s {
        Some(t) => Some(t@),
        None => None,
    }
}

/// `str::eq`: two texts are equal when they hold the same characters.
pub assume_specification[ <str as PartialEq>::eq ](a: &str, b: &str) -> (same: bool)
    ensures
        same == (a@ == b@),
;

/// `str::trim`: the text without the leading and trailing characters that have the Unicode
/// property `White_Space`.
pub assume_specification[ str::trim ](s: &str) -> (inner: &str)
    ensures
        inner@ == trimmed(s@),
;

/// `str::eq_ignore_ascii_case`: whether the two texts are equal once the ASCII capitals in both
/// are made small.
pub assume_specification[ str::eq_ignore_ascii_case ](a: &str, b: &str) -> (same: bool)
    ensures
        same == same_ignoring_ascii_case(a@, b@),
;

/// `str::trim_matches` with the double quote: the text without the double quotes at both ends.
#[verifier::external_body]
pub(crate) fn trim_quotes(s: &str) -> (inner: &str)
    ensures
        inner@ == unquoted(s@),
{
    s.trim_matches('"')
}

/// `str::strip_prefix`: what follows the prefix, or `None` where the text does not start with it.
#[verifier::external_body]
pub(crate) fn strip_prefix<'a>(s: &'a str, prefix: &str) -> (rest: Option<&'a str>)
    ensures
        opt_text(rest) == after_prefix(s@, prefix@),
{
    s.strip_prefix(prefix)
}

proof fn lemma_trim_start(dropped: Seq<char>, rest: Seq<char>, drop: spec_fn(char) -> bool)
    requires
        forall|i: int| 0 <= i < dropped.len() ==> drop(#[trigger] dropped[i]),
        rest.len() == 0 || !drop(rest.first()),
    ensures
        trim_start_by(dropped + rest, drop) == rest,
    decreases dropped.len(),
{
    if dropped.len() > 0 {
        assert((dropped + rest).drop_first() =~= dropped.drop_first() + rest);
        assert((dropped + rest).first() == dropped[0]);
        lemma_trim_start(dropped.drop_first(), rest, drop);
    } else {
        assert(dropped + rest =~= rest);
    }
}

proof fn lemma_trim_end(rest: Seq<char>, dropped: Seq<char>, drop: spec_fn(char) -> bool)
    requires
        forall|i: int| 0 <= i < dropped.len() ==> drop(#[trigger] dropped[i]),
        rest.len() == 0 || !drop(rest.last()),
    ensures
        trim_end_by(rest + dropped, drop) == rest,
    decreases dropped.len(),
{
    if dropped.len() > 0 {
        assert((rest + dropped).drop_last() =~= rest + dropped.drop_last());
        assert((rest + dropped).last() == dropped.last());
        lemma_trim_end(rest, dropped.drop_last(), drop);
    } else {
        assert(rest + dropped =~= rest);
    }
}

/// Trimming takes off exactly the characters at the ends: whatever stands round a text that neither
/// starts nor ends with a character to drop, the text is what remains.
pub proof fn law_trimming_leaves_what_stands_between(
    before: Seq<char>,
    inner: Seq<char>,
    after: Seq<char>,
    drop: spec_fn(char) -> bool,
)
    requires
        forall|i: int| 0 <= i < before.len() ==> drop(#[trigger] before[i]),
        forall|i: int| 0 <= i < after.len() ==> drop(#[trigger] after[i]),
        inner.len() == 0 || !drop(inner.first()) && !drop(inner.last()),
    ensures
        trim_by(before + inner + after, drop) == inner,
{
    if inner.len() == 0 {
        let all = before + inner + after;
        assert forall|i: int| 0 <= i < all.len() implies drop(#[trigger] all[i]) by {
            if i < before.len() {
                assert(all[i] == before[i]);
            } else {
                assert(all[i] == after[i - before.len()]);
            }
        }
        lemma_trim_start(all, inner, drop);
        assert(all + inner =~= all);
    } else {
        assert(before + inner + after =~= before + (inner + after));
        assert((inner + after).first() == inner.first());
        lemma_trim_start(before, inner + after, drop);
        lemma_trim_end(inner, after, drop);
    }
}

/// Whether `s` is nothing but white space, told character by character.
pub open spec fn only_white_space(s: Seq<char>) -> bool {
    forall|i: int| 0 <= i < s.len() ==> is_white_space(#[trigger] s[i])
}

/// Whether `s` neither starts nor ends with white space.
pub open spec fn no_white_space_at_the_ends(s: Seq<char>) -> bool {
    s.len() == 0 || !is_white_space(s.first()) && !is_white_space(s.last())
}

/// The white space round a text is taken off, and nothing else.
pub proof fn law_trimmed_takes_white_space_off(
    before: Seq<char>,
    inner: Seq<char>,
    after: Seq<char>,
)
    requires
        only_white_space(before),
        only_white_space(after),
        no_white_space_at_the_ends(inner),
    ensures
        trimmed(before + inner + after) == inner,
{
    law_trimming_leaves_what_stands_between(
        before,
        inner,
        after,
        |c: char| is_white_space(c),
    );
}

/// The double quotes round a text are taken off, and nothing else.
pub proof fn law_unquoted_takes_quotes_off(before: Seq<char>, inner: Seq<char>, after: Seq<char>)
    requires
        forall|i: int| 0 <= i < before.len() ==> #[trigger] before[i] == '"',
        forall|i: int| 0 <= i < after.len() ==> #[trigger] after[i] == '"',
        inner.len() == 0 || inner.first() != '"' && inner.last() != '"',
    ensures
        unquoted(before + inner + after) == inner,
{
    law_trimming_leaves_what_stands_between(before, inner, after, |c: char| c == '"');
}

proof fn lemma_trim_start_stops(s: Seq<char>, drop: spec_fn(char) -> bool)
    ensures
        ({
            let rest = trim_start_by(s, drop);
            &&& rest.len() > 0 ==> !drop(rest.first())
            &&& rest.len() == 0 ==> forall|i: int| 0 <= i < s.len() ==> drop(#[trigger] s[i])
        }),
    decreases s.len(),
{
    if s.len() > 0 && drop(s.first()) {
        lemma_trim_start_stops(s.drop_first(), drop);
        assert forall|i: int|
            0 <= i < s.len() && trim_start_by(s, drop).len() == 0 implies drop(#[trigger] s[i]) by {
            if i > 0 {
                assert(s[i] == s.drop_first()[i - 1]);
            }
        }
    }
}

proof fn lemma_trim_end_keeps_the_first(s: Seq<char>, drop: spec_fn(char) -> bool)
    requires
        s.len() > 0,
        !drop(s.first()),
    ensures
        trim_end_by(s, drop).len() > 0,
    decreases s.len(),
{
    if drop(s.last()) {
        assert(s.len() > 1);
        assert(s.drop_last().first() == s.first());
        lemma_trim_end_keeps_the_first(s.drop_last(), drop);
    }
}

/// A text is blank exactly where each of its characters is white space.
pub proof fn law_blank_texts_hold_only_white_space(s: Seq<char>)
    ensures
        is_blank(s) <==> only_white_space(s),
{
    let white = |c: char| is_white_space(c);
    lemma_trim_start_stops(s, white);
    let rest = trim_start_by(s, white);
    if rest.len() > 0 {
        lemma_trim_end_keeps_the_first(rest, white);
        if only_white_space(s) {
            lemma_trim_start(s, seq![], white);
            assert(s + seq![] =~= s);
        }
    }
}

} // verus!
