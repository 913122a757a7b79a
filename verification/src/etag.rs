//! Entity tags: `v` followed by the version in decimal.

use vstd::prelude::*;
use vstd::string::StringExecFns;

verus! {

/// The decimal digit `d`.
pub open spec fn digit(d: nat) -> char
    recommends
        d < 10,
{
    (48 + d) as char
}

/// `n` in decimal, without leading zeros.
pub open spec fn decimal(n: nat) -> Seq<char>
    decreases n,
{
    if n < 10 {
        seq![digit(n)]
    } else {
        decimal(n / 10).push(digit(n % 10))
    }
}

/// The entity tag of the version `n`.
pub open spec fn etag(n: nat) -> Seq<char> {
    seq!['v'] + decimal(n)
}

/// The decimal digit `d` as a text.
fn digit_text(d: u64) -> (text: &'static str)
    requires
        d < 10,
    ensures
        text@ == seq![digit(d as nat)],
{
    proof {
        reveal_strlit("0");
        reveal_strlit("1");
        reveal_strlit("2");
        reveal_strlit("3");
        reveal_strlit("4");
        reveal_strlit("5");
        reveal_strlit("6");
        reveal_strlit("7");
        reveal_strlit("8");
        reveal_strlit("9");
    }
    match d {
        0 => "0",
        1 => "1",
        2 => "2",
        3 => "3",
        4 => "4",
        5 => "5",
        6 => "6",
        7 => "7",
        8 => "8",
        _ => "9",
    }
}

/// Writes `n` in decimal behind what `out` holds.
fn append_decimal(out: &mut String, n: u64)
    ensures
        final(out)@ == old(out)@ + decimal(n as nat),
    decreases n,
{
    if n >= 10 {
        append_decimal(out, n / 10);
    }
    out.append(digit_text(n % 10));
    proof {
        assert(final(out)@ =~= old(out)@ + decimal(n as nat));
    }
}

/// The entity tag of a version.
pub fn etag_for(version: u64) -> (tag: String)
    ensures
        tag@ == etag(version as nat),
{
    let mut tag = "v".to_string();
    proof {
        reveal_strlit("v");
        assert(tag@ =~= seq!['v']);
    }
    append_decimal(&mut tag, version);
    tag
}

/// Two numbers with the same decimal text are equal.
proof fn lemma_decimal_injective(m: nat, n: nat)
    requires
        decimal(m) == decimal(n),
    ensures
        m == n,
    decreases m,
{
    lemma_decimal_nonempty(m);
    lemma_decimal_nonempty(n);
    assert(decimal(m).last() == digit(m % 10));
    assert(decimal(n).last() == digit(n % 10));
    if m < 10 {
        assert(decimal(m).len() == 1);
        if n >= 10 {
            lemma_decimal_nonempty(n / 10);
        }
    } else if n < 10 {
        lemma_decimal_nonempty(m / 10);
    } else {
        assert(decimal(m).drop_last() =~= decimal(m / 10));
        assert(decimal(n).drop_last() =~= decimal(n / 10));
        lemma_decimal_injective(m / 10, n / 10);
    }
}

proof fn lemma_decimal_nonempty(n: nat)
    ensures
        decimal(n).len() > 0,
{
}

/// Two versions have the same entity tag only where they are the same version.
pub proof fn law_etag_names_one_version(m: nat, n: nat)
    ensures
        etag(m) == etag(n) <==> m == n,
{
    if etag(m) == etag(n) {
        assert(etag(m).drop_first() =~= decimal(m));
        assert(etag(n).drop_first() =~= decimal(n));
        lemma_decimal_injective(m, n);
    }
}

/// The number that a row of decimal digits stands for.
pub open spec fn number_in(digits: Seq<char>) -> int
    decreases digits.len(),
{
    if digits.len() == 0 {
        0
    } else {
        10 * number_in(digits.drop_last()) + (digits.last() as int - '0' as int)
    }
}

proof fn lemma_decimal_is_the_number(n: nat)
    ensures
        ({
            let digits = decimal(n);
            &&& digits.len() > 0
            &&& forall|i: int| 0 <= i < digits.len() ==> '0' <= #[trigger] digits[i] <= '9'
            &&& number_in(digits) == n
            &&& n > 0 ==> digits[0] != '0'
            &&& n < 10 ==> digits.len() == 1
        }),
    decreases n,
{
    let digits = decimal(n);
    if n >= 10 {
        lemma_decimal_is_the_number(n / 10);
        assert(digits.drop_last() =~= decimal(n / 10));
        assert(digits[0] == decimal(n / 10)[0]);
    } else {
        assert(number_in(digits.drop_last()) == 0);
    }
}

/// The tag of a version is `v` and then decimal digits that stand for the version, without zeros
/// before them.
pub proof fn law_a_tag_spells_the_version(n: nat)
    ensures
        ({
            let digits = etag(n).skip(1);
            &&& etag(n).len() >= 2
            &&& etag(n)[0] == 'v'
            &&& forall|i: int| 0 <= i < digits.len() ==> '0' <= #[trigger] digits[i] <= '9'
            &&& number_in(digits) == n
            &&& digits[0] == '0' ==> digits.len() == 1
        }),
{
    lemma_decimal_is_the_number(n);
    assert(etag(n).skip(1) =~= decimal(n));
}

} // verus!
