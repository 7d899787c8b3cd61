//! Small text operations on `str` and `String`, stated over their character sequences.
use vstd::prelude::*;

verus! {

/// Index of the last occurrence of `c` in `s`, or -1 when `c` does not occur.
pub open spec fn rfind_char(s: Seq<char>, c: char) -> int
    decreases s.len(),
{
    if s.len() == 0 {
        -1
    } else if s.last() == c {
        s.len() - 1
    } else {
        rfind_char(s.drop_last(), c)
    }
}

/// `rfind_char` gives the position of an occurrence of `c` that no later
/// character repeats.
pub proof fn lemma_rfind_char_at(s: Seq<char>, c: char, k: int)
    requires
        0 <= k < s.len(),
        s[k] == c,
        forall|j: int| k < j < s.len() ==> s[j] != c,
    ensures
        rfind_char(s, c) == k,
    decreases s.len(),
{
    if s.last() != c {
        assert(k < s.len() - 1);
        lemma_rfind_char_at(s.drop_last(), c, k);
    }
}

/// `rfind_char` is -1 on text without `c`.
pub proof fn lemma_rfind_char_absent(s: Seq<char>, c: char)
    requires
        forall|j: int| 0 <= j < s.len() ==> s[j] != c,
    ensures
        rfind_char(s, c) == -1,
    decreases s.len(),
{
    if s.len() > 0 {
        lemma_rfind_char_absent(s.drop_last(), c);
    }
}

/// In `a`, then `c`, then text without `c`, the last `c` is the one after `a`.
pub proof fn lemma_rfind_char_join(a: Seq<char>, c: char, b: Seq<char>)
    requires
        forall|j: int| 0 <= j < b.len() ==> b[j] != c,
    ensures
        rfind_char(a + seq![c] + b, c) == a.len(),
{
    let s = a + seq![c] + b;
    assert(s[a.len() as int] == c);
    assert forall|j: int| a.len() < j < s.len() implies s[j] != c by {
        assert(s[j] == b[j - a.len() - 1]);
    }
    lemma_rfind_char_at(s, c, a.len() as int);
}

/// `str::rsplit_once` with a character delimiter: the text before and after
/// the last occurrence of `delim`, or `None` when `delim` does not occur.
pub fn rsplit_once<'a>(s: &'a str, delim: char) -> (res: Option<(&'a str, &'a str)>)
    ensures
        match res {
            None => rfind_char(s@, delim) == -1,
            Some((before, after)) => {
                let i = rfind_char(s@, delim);
                &&& 0 <= i < s@.len()
                &&& before@ == s@.subrange(0, i)
                &&& after@ == s@.subrange(i + 1, s@.len() as int)
            },
        },
{
    let n = s.unicode_len();
    let mut i = n;
    while i > 0
        invariant
            i <= n,
            n == s@.len(),
            forall|j: int| i <= j < n ==> s@[j] != delim,
        decreases i,
    {
        if s.get_char(i - 1) == delim {
            proof {
                lemma_rfind_char_at(s@, delim, i - 1);
            }
            return Some((s.substring_char(0, i - 1), s.substring_char(i, n)));
        }
        i -= 1;
    }
    proof {
        lemma_rfind_char_absent(s@, delim);
    }
    None
}

/// `String::push`: appends one character.
#[verifier::external_body]
pub(crate) fn push_char(s: &mut String, c: char)
    ensures
        final(s)@ == old(s)@.push(c),
{
    s.push(c);
}

/// Whether a character is an ASCII decimal digit.
pub open spec fn is_digit(c: char) -> bool {
    '0' <= c <= '9'
}

/// The number written by a string of decimal digits.
pub open spec fn digits_value(s: Seq<char>) -> nat
    decreases s.len(),
{
    if s.len() == 0 {
        0
    } else {
        digits_value(s.drop_last()) * 10 + (s.last() as nat - '0' as nat) as nat
    }
}

/// Whether every character is a decimal digit.
pub open spec fn all_digits(s: Seq<char>) -> bool {
    forall|i: int| 0 <= i < s.len() ==> is_digit(#[trigger] s[i])
}

/// The character of a decimal digit.
pub open spec fn decimal_digit(d: int) -> char {
    seq!['0', '1', '2', '3', '4', '5', '6', '7', '8', '9'][d]
}

/// Decimal text of a natural number, without leading zeros.
pub open spec fn decimal(n: nat) -> Seq<char>
    decreases n,
{
    if n < 10 {
        seq![decimal_digit(n as int)]
    } else {
        decimal(n / 10).push(decimal_digit((n % 10) as int))
    }
}

/// Decimal text of an integer, with a leading `-` when it is negative.
pub open spec fn signed_decimal(n: int) -> Seq<char> {
    if n < 0 {
        seq!['-'] + decimal((-n) as nat)
    } else {
        decimal(n as nat)
    }
}

fn digit_char(d: u64) -> (c: char)
    requires
        d < 10,
    ensures
        c == decimal_digit(d as int),
{
    match d {
        0 => '0',
        1 => '1',
        2 => '2',
        3 => '3',
        4 => '4',
        5 => '5',
        6 => '6',
        7 => '7',
        8 => '8',
        _ => '9',
    }
}

/// Appends the decimal text of `n`.
pub fn push_decimal(s: &mut String, n: u64)
    ensures
        final(s)@ == old(s)@ + decimal(n as nat),
    decreases n,
{
    if n >= 10 {
        push_decimal(s, n / 10);
    }
    push_char(s, digit_char(n % 10));
    proof {
        if n >= 10 {
            assert(old(s)@ + decimal(n as nat) =~= old(s)@ + decimal((n / 10) as nat) + seq![
                decimal_digit((n % 10) as int),
            ]);
        }
    }
}

/// The decimal text of a number is made of digits and denotes that number.
pub proof fn lemma_decimal_value(n: nat)
    ensures
        decimal(n).len() > 0,
        all_digits(decimal(n)),
        digits_value(decimal(n)) == n,
    decreases n,
{
    if n < 10 {
        lemma_decimal_digit(n as int);
        assert(decimal(n).drop_last() =~= Seq::<char>::empty());
        assert(digits_value(decimal(n)) == digits_value(Seq::<char>::empty()) * 10 + (decimal_digit(n as int) as nat - '0' as nat) as nat);
    } else {
        lemma_decimal_value(n / 10);
        lemma_decimal_digit((n % 10) as int);
        assert(decimal(n).drop_last() =~= decimal(n / 10));
        assert(decimal(n).last() == decimal_digit((n % 10) as int));
        assert(digits_value(decimal(n)) == digits_value(decimal(n / 10)) * 10 + (decimal_digit((n % 10) as int) as nat - '0' as nat) as nat);
        assert((n / 10) * 10 + n % 10 == n);
        assert forall|i: int| 0 <= i < decimal(n).len() implies is_digit(#[trigger] decimal(n)[i]) by {
            if i < decimal(n).len() - 1 {
                assert(decimal(n)[i] == decimal(n / 10)[i]);
            }
        }
    }
}

proof fn lemma_decimal_digit(d: int)
    requires
        0 <= d < 10,
    ensures
        is_digit(decimal_digit(d)),
        decimal_digit(d) as nat - '0' as nat == d,
{
}

/// Different numbers have different decimal text.
pub proof fn lemma_decimal_injective(a: nat, b: nat)
    requires
        decimal(a) == decimal(b),
    ensures
        a == b,
{
    lemma_decimal_value(a);
    lemma_decimal_value(b);
}

/// Different integers have different signed decimal text.
pub proof fn lemma_signed_decimal_injective(a: int, b: int)
    requires
        signed_decimal(a) == signed_decimal(b),
    ensures
        a == b,
{
    if a < 0 && b < 0 {
        assert(decimal((-a) as nat) =~= signed_decimal(a).drop_first());
        assert(decimal((-b) as nat) =~= signed_decimal(b).drop_first());
        lemma_decimal_injective((-a) as nat, (-b) as nat);
    } else if a < 0 {
        lemma_decimal_value(b as nat);
        assert(is_digit(decimal(b as nat)[0]));
        assert(signed_decimal(a)[0] == '-');
    } else if b < 0 {
        lemma_decimal_value(a as nat);
        assert(is_digit(decimal(a as nat)[0]));
        assert(signed_decimal(b)[0] == '-');
    } else {
        lemma_decimal_injective(a as nat, b as nat);
    }
}

/// The decimal text of an `i64`, as `to_string` writes it.
pub fn i64_to_string(n: i64) -> (res: String)
    ensures
        res@ == signed_decimal(n as int),
{
    let mut s = String::new();
    if n < 0 {
        push_char(&mut s, '-');
        let magnitude = (-(n as i128)) as u64;
        push_decimal(&mut s, magnitude);
    } else {
        push_decimal(&mut s, n as u64);
    }
    s
}

} // verus!
