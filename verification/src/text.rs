//! Small pieces of text that the renderers are built from.

use vstd::prelude::*;

verus! {

/// `String::push` appends one character to the string.
pub assume_specification[ std::string::String::push ](s: &mut std::string::String, c: char)
    ensures
        final(s)@ == old(s)@.push(c),
;

/// The parts one after another.
pub open spec fn concat(parts: Seq<Seq<char>>) -> Seq<char>
    decreases parts.len(),
{
    if parts.len() == 0 {
        Seq::empty()
    } else {
        concat(parts.drop_last()) + parts.last()
    }
}

/// The parts one after another, with `sep` between each two neighbours.
pub open spec fn join(parts: Seq<Seq<char>>, sep: Seq<char>) -> Seq<char>
    decreases parts.len(),
{
    if parts.len() == 0 {
        Seq::empty()
    } else if parts.len() == 1 {
        parts[0]
    } else {
        join(parts.drop_last(), sep) + sep + parts.last()
    }
}

/// Joining one part more: the separator comes before every part but the
/// first.
pub proof fn lemma_join_next(parts: Seq<Seq<char>>, sep: Seq<char>, i: int)
    requires
        0 <= i < parts.len(),
    ensures
        join(parts.take(i + 1), sep) == if i == 0 {
            parts[i]
        } else {
            join(parts.take(i), sep) + sep + parts[i]
        },
{
    assert(parts.take(i + 1).drop_last() =~= parts.take(i));
    assert(parts.take(i + 1).last() == parts[i]);
}

/// Concatenating one part more.
pub proof fn lemma_concat_next(parts: Seq<Seq<char>>, i: int)
    requires
        0 <= i < parts.len(),
    ensures
        concat(parts.take(i + 1)) == concat(parts.take(i)) + parts[i],
{
    assert(parts.take(i + 1).drop_last() =~= parts.take(i));
    assert(parts.take(i + 1).last() == parts[i]);
}

/// A single part is its own concatenation.
pub proof fn lemma_concat_one(a: Seq<char>)
    ensures
        concat(seq![a]) == a,
{
    assert(seq![a].drop_last() =~= Seq::<Seq<char>>::empty());
    assert(concat(seq![a].drop_last()) =~= Seq::<char>::empty());
    assert(concat(seq![a]) =~= a);
}

/// Two parts concatenated.
pub proof fn lemma_concat_two(a: Seq<char>, b: Seq<char>)
    ensures
        concat(seq![a, b]) == a + b,
{
    lemma_concat_one(a);
    assert(seq![a, b].drop_last() =~= seq![a]);
}

/// The character that stands for a decimal digit.
pub open spec fn digit_char(d: nat) -> char
    recommends
        d < 10,
{
    if d == 0 {
        '0'
    } else if d == 1 {
        '1'
    } else if d == 2 {
        '2'
    } else if d == 3 {
        '3'
    } else if d == 4 {
        '4'
    } else if d == 5 {
        '5'
    } else if d == 6 {
        '6'
    } else if d == 7 {
        '7'
    } else if d == 8 {
        '8'
    } else {
        '9'
    }
}

/// A number in decimal, without sign, padding or separators.
pub open spec fn decimal_text(n: nat) -> Seq<char>
    decreases n,
{
    if n < 10 {
        seq![digit_char(n)]
    } else {
        decimal_text(n / 10).push(digit_char(n % 10))
    }
}

fn digit(d: u8) -> (c: char)
    requires
        d < 10,
    ensures
        c == digit_char(d as nat),
{
    (48u8 + d) as char
}

/// Appends `n` in decimal.
pub fn push_decimal(out: &mut String, n: usize)
    ensures
        final(out)@ == old(out)@ + decimal_text(n as nat),
    decreases n,
{
    if n >= 10 {
        push_decimal(out, n / 10);
    }
    let d = (n % 10) as u8;
    out.push(digit(d));
}

/// A number in decimal has at least one digit; from 10 on it has more.
proof fn lemma_decimal_len(n: nat)
    ensures
        decimal_text(n).len() >= 1,
        n >= 10 ==> decimal_text(n).len() >= 2,
    decreases n,
{
    if n >= 10 {
        lemma_decimal_len(n / 10);
    }
}

/// Different numbers are written differently.
pub proof fn law_decimal_distinct(a: nat, b: nat)
    requires
        a != b,
    ensures
        decimal_text(a) != decimal_text(b),
    decreases a,
{
    lemma_decimal_len(a);
    lemma_decimal_len(b);
    if a < 10 && b < 10 {
        assert(decimal_text(a)[0] == digit_char(a));
        assert(decimal_text(b)[0] == digit_char(b));
    } else if a < 10 || b < 10 {
        assert(decimal_text(a).len() != decimal_text(b).len());
    } else {
        let pa = decimal_text(a / 10);
        let pb = decimal_text(b / 10);
        assert(decimal_text(a).last() == digit_char(a % 10));
        assert(decimal_text(b).last() == digit_char(b % 10));
        assert(decimal_text(a).drop_last() =~= pa);
        assert(decimal_text(b).drop_last() =~= pb);
        if a % 10 == b % 10 {
            assert(a / 10 != b / 10);
            law_decimal_distinct(a / 10, b / 10);
        }
    }
}

} // verus!
