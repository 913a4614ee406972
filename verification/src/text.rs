//! Text helpers: decimal numerals, prefixes, trimming and joining, all stated
//! over sequences of characters.

use vstd::prelude::*;

verus! {

/// The character that stands for the digit `d` (`0 <= d < 10`).
pub open spec fn spec_digit(d: int) -> char {
    if d == 0 {
        '0'
    } else if d == 1 {
        '1'
    } else if d == 2 {
        '2'
    } else if d == 3 {
        '3'
    } else if d == 4 {
        '4'
    } else if d == 5 {
        '5'
    } else if d == 6 {
        '6'
    } else if d == 7 {
        '7'
    } else if d == 8 {
        '8'
    } else {
        '9'
    }
}

/// The decimal numeral of `n`, most significant digit first, without
/// leading zeros.
pub open spec fn spec_decimal(n: nat) -> Seq<char>
    decreases n,
{
    if n < 10 {
        seq![spec_digit(n as int)]
    } else {
        spec_decimal(n / 10).push(spec_digit((n % 10) as int))
    }
}

/// The decimal numeral of a signed number: a minus sign before the digits
/// of a negative one.
pub open spec fn spec_signed_decimal(n: int) -> Seq<char> {
    if n < 0 {
        seq!['-'] + spec_decimal((-n) as nat)
    } else {
        spec_decimal(n as nat)
    }
}

/// Appends one character to a string, by `String::push`: afterwards the
/// string holds the characters it held before, followed by `c`.
#[verifier::external_body]
fn push_char(s: &mut String, c: char)
    ensures
        final(s)@ == old(s)@.push(c),
{
    s.push(c)
}

fn digit_char(d: u64) -> (c: char)
    requires
        d < 10,
    ensures
        c == spec_digit(d as int),
{
    if d == 0 {
        '0'
    } else if d == 1 {
        '1'
    } else if d == 2 {
        '2'
    } else if d == 3 {
        '3'
    } else if d == 4 {
        '4'
    } else if d == 5 {
        '5'
    } else if d == 6 {
        '6'
    } else if d == 7 {
        '7'
    } else if d == 8 {
        '8'
    } else {
        '9'
    }
}

/// Appends the decimal numeral of `n` to `out`.
pub fn push_decimal(out: &mut String, n: u64)
    ensures
        final(out)@ == old(out)@ + spec_decimal(n as nat),
    decreases n,
{
    if n >= 10 {
        push_decimal(out, n / 10);
    }
    push_char(out, digit_char(n % 10));
}

/// The decimal numeral of `n` as a string.
pub fn decimal(n: u64) -> (s: String)
    ensures
        s@ == spec_decimal(n as nat),
{
    let mut s = String::new();
    push_decimal(&mut s, n);
    s
}

/// Appends the decimal numeral of a signed number to `out`.
pub fn push_signed_decimal(out: &mut String, n: i64)
    ensures
        final(out)@ == old(out)@ + spec_signed_decimal(n as int),
{
    if n < 0 {
        push_char(out, '-');
        let magnitude: u64 = (-(n + 1)) as u64 + 1;
        push_decimal(out, magnitude);
        assert(out@ =~= old(out)@ + spec_signed_decimal(n as int));
    } else {
        push_decimal(out, n as u64);
    }
}

/// A label followed by a detail.
pub fn labelled(label: &str, detail: &str) -> (s: String)
    ensures
        s@ == label@ + detail@,
{
    let mut s = String::from_str(label);
    s.append(detail);
    s
}

/// Whether `text` begins with `prefix`.
pub open spec fn spec_starts_with(text: Seq<char>, prefix: Seq<char>) -> bool {
    prefix.len() <= text.len() && text.subrange(0, prefix.len() as int) == prefix
}

/// Whether `text` begins with `prefix`.
pub fn starts_with(text: &str, prefix: &str) -> (b: bool)
    ensures
        b == spec_starts_with(text@, prefix@),
{
    let n = prefix.unicode_len();
    if text.unicode_len() < n {
        return false;
    }
    let mut i: usize = 0;
    while i < n
        invariant
            i <= n,
            n == prefix@.len(),
            n <= text@.len(),
            text@.subrange(0, i as int) == prefix@.subrange(0, i as int),
        decreases n - i,
    {
        if text.get_char(i) != prefix.get_char(i) {
            assert(text@.subrange(0, n as int)[i as int] != prefix@[i as int]);
            return false;
        }
        assert(text@.subrange(0, i + 1) == text@.subrange(0, i as int).push(text@[i as int]));
        assert(prefix@.subrange(0, i + 1) == prefix@.subrange(0, i as int).push(
            prefix@[i as int],
        ));
        i += 1;
    }
    assert(prefix@.subrange(0, n as int) == prefix@);
    true
}

/// `text` without the run of `c` at its end.
pub open spec fn spec_trim_end(text: Seq<char>, c: char) -> Seq<char>
    decreases text.len(),
{
    if text.len() > 0 && text.last() == c {
        spec_trim_end(text.drop_last(), c)
    } else {
        text
    }
}

/// Trimming keeps a prefix of the text, removes nothing but `c`, and
/// leaves no `c` at the end.
pub proof fn lemma_trim_end(text: Seq<char>, c: char)
    ensures
        spec_trim_end(text, c).len() <= text.len(),
        spec_trim_end(text, c) == text.subrange(0, spec_trim_end(text, c).len() as int),
        forall|i: int| spec_trim_end(text, c).len() <= i < text.len() ==> text[i] == c,
        spec_trim_end(text, c).len() > 0 ==> spec_trim_end(text, c).last() != c,
    decreases text.len(),
{
    if text.len() > 0 && text.last() == c {
        lemma_trim_end(text.drop_last(), c);
        let kept = spec_trim_end(text, c).len() as int;
        assert(text.drop_last().subrange(0, kept) == text.subrange(0, kept));
        assert forall|i: int| kept <= i < text.len() implies text[i] == c by {
            if i < text.len() - 1 {
                assert(text[i] == text.drop_last()[i]);
            }
        }
    } else {
        assert(text.subrange(0, text.len() as int) == text);
    }
}

/// `text` without the run of `c` at its end.
pub fn trim_end(text: &str, c: char) -> (s: String)
    ensures
        s@ == spec_trim_end(text@, c),
{
    let mut n = text.unicode_len();
    assert(text@.subrange(0, n as int) == text@);
    while n > 0 && text.get_char(n - 1) == c
        invariant
            n <= text@.len(),
            spec_trim_end(text@, c) == spec_trim_end(text@.subrange(0, n as int), c),
        decreases n,
    {
        assert(text@.subrange(0, n as int).drop_last() == text@.subrange(0, n - 1));
        n -= 1;
    }
    String::from_str(text.substring_char(0, n))
}

/// The items of `parts` in order, with `sep` between neighbours.
pub open spec fn spec_join(parts: Seq<Seq<char>>, sep: Seq<char>) -> Seq<char>
    decreases parts.len(),
{
    if parts.len() == 0 {
        Seq::empty()
    } else if parts.len() == 1 {
        parts[0]
    } else {
        spec_join(parts.drop_last(), sep) + sep + parts.last()
    }
}

/// The views of a list of strings.
pub open spec fn spec_views(items: Seq<String>) -> Seq<Seq<char>> {
    items.map_values(|s: String| s@)
}

/// The items of `parts` in order, with `sep` between neighbours.
pub fn join(parts: &Vec<String>, sep: &str) -> (s: String)
    ensures
        s@ == spec_join(spec_views(parts@), sep@),
{
    let mut s = String::new();
    let mut i: usize = 0;
    while i < parts.len()
        invariant
            i <= parts.len(),
            s@ == spec_join(spec_views(parts@).subrange(0, i as int), sep@),
        decreases parts.len() - i,
    {
        if i > 0 {
            s.append(sep);
        }
        s.append(parts[i].as_str());
        proof {
            let all = spec_views(parts@);
            assert(all.subrange(0, i + 1).drop_last() == all.subrange(0, i as int));
            assert(all.subrange(0, i + 1).last() == parts@[i as int]@);
        }
        i += 1;
    }
    assert(spec_views(parts@).subrange(0, parts@.len() as int) == spec_views(parts@));
    s
}

} // verus!
