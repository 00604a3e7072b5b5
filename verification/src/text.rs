//! Decimal rendering of signed integers and trimming of trailing slashes,
//! the two text operations from which shard URLs are built.
use vstd::prelude::*;

verus! {

/// The character of a decimal digit `d` (0 through 9).
pub open spec fn digit_char(d: int) -> char {
    if d == 0 {
        '0'
    } else if d == 1 {
        '1'
    } else if d == 2 {
        '2'
    } else if d == 3 {
        '3'
    } else if d == 4 {
        '4'
    } else if d == 5 {
        '5'
    } else if d == 6 {
        '6'
    } else if d == 7 {
        '7'
    } else if d == 8 {
        '8'
    } else {
        '9'
    }
}

/// The decimal digits of `n`, most significant first, without leading zeros.
pub open spec fn digits(n: nat) -> Seq<char>
    decreases n,
{
    if n < 10 {
        seq![digit_char(n as int)]
    } else {
        digits(n / 10) + seq![digit_char((n % 10) as int)]
    }
}

/// The decimal text of `x`: a minus sign for negative values, then the digits of `|x|`.
pub open spec fn decimal_text(x: int) -> Seq<char> {
    if x < 0 {
        seq!['-'] + digits((-x) as nat)
    } else {
        digits(x as nat)
    }
}

/// `s` with every trailing `/` removed.
pub open spec fn without_trailing_slashes(s: Seq<char>) -> Seq<char>
    decreases s.len(),
{
    if s.len() > 0 && s.last() == '/' {
        without_trailing_slashes(s.drop_last())
    } else {
        s
    }
}

/// Whether `c` is one of the characters `0` through `9`.
pub open spec fn is_digit(c: char) -> bool {
    '0' <= c && c <= '9'
}

/// The text of the decimal digit `d`.
fn digit_str(d: u64) -> (s: &'static str)
    requires
        d < 10,
    ensures
        s@ == seq![digit_char(d as int)],
{
    if d == 0 {
        proof {
            reveal_strlit("0");
        }
        "0"
    } else if d == 1 {
        proof {
            reveal_strlit("1");
        }
        "1"
    } else if d == 2 {
        proof {
            reveal_strlit("2");
        }
        "2"
    } else if d == 3 {
        proof {
            reveal_strlit("3");
        }
        "3"
    } else if d == 4 {
        proof {
            reveal_strlit("4");
        }
        "4"
    } else if d == 5 {
        proof {
            reveal_strlit("5");
        }
        "5"
    } else if d == 6 {
        proof {
            reveal_strlit("6");
        }
        "6"
    } else if d == 7 {
        proof {
            reveal_strlit("7");
        }
        "7"
    } else if d == 8 {
        proof {
            reveal_strlit("8");
        }
        "8"
    } else {
        proof {
            reveal_strlit("9");
        }
        "9"
    }
}

/// Appends the decimal digits of `n` to `out`.
fn push_digits(out: &mut String, n: u64)
    ensures
        final(out)@ == old(out)@ + digits(n as nat),
    decreases n,
{
    if n >= 10 {
        push_digits(out, n / 10);
    }
    out.append(digit_str(n % 10));
    proof {
        assert(old(out)@ + digits(n as nat) =~= if n >= 10 {
            old(out)@ + digits((n / 10) as nat) + seq![digit_char((n % 10) as int)]
        } else {
            old(out)@ + seq![digit_char((n % 10) as int)]
        });
    }
}

/// Appends the decimal text of `x` to `out`, as `x.to_string()` renders it.
pub fn push_decimal(out: &mut String, x: i64)
    ensures
        final(out)@ == old(out)@ + decimal_text(x as int),
{
    if x < 0 {
        let magnitude: u64 = (-(x + 1)) as u64 + 1;
        proof {
            reveal_strlit("-");
        }
        out.append("-");
        push_digits(out, magnitude);
        assert(final(out)@ =~= old(out)@ + decimal_text(x as int));
    } else {
        push_digits(out, x as u64);
    }
}

/// The decimal text of `x`, as `x.to_string()` renders it.
pub fn decimal(x: i64) -> (s: String)
    ensures
        s@ == decimal_text(x as int),
{
    let mut s = String::new();
    push_decimal(&mut s, x);
    assert(s@ =~= decimal_text(x as int));
    s
}

/// `s` without its trailing slashes, as `s.trim_end_matches('/')` gives it.
pub fn trim_trailing_slashes(s: &str) -> (t: &str)
    ensures
        t@ == without_trailing_slashes(s@),
{
    let n = s.unicode_len();
    let mut end: usize = n;
    assert(s@.subrange(0, n as int) =~= s@);
    loop
        invariant
            n == s@.len(),
            end <= n,
            without_trailing_slashes(s@) == without_trailing_slashes(s@.subrange(0, end as int)),
        ensures
            end <= n,
            without_trailing_slashes(s@) == s@.subrange(0, end as int),
        decreases end,
    {
        if end == 0 {
            assert(without_trailing_slashes(s@.subrange(0, 0)) == s@.subrange(0, 0));
            break;
        }
        let c = s.get_char(end - 1);
        if c != '/' {
            break;
        }
        assert(s@.subrange(0, end as int).drop_last() =~= s@.subrange(0, end - 1));
        end = end - 1;
    }
    s.substring_char(0, end)
}

/// A trailing slash added to a text is removed again: the text without trailing
/// slashes is the same with or without it.
pub proof fn lemma_trailing_slash_ignored(s: Seq<char>)
    ensures
        without_trailing_slashes(s.push('/')) == without_trailing_slashes(s),
{
    assert(s.push('/').drop_last() =~= s);
}

/// Every character of the digits of `n` is a digit; there is at least one, and
/// at least two from ten on.
pub proof fn lemma_digits_shape(n: nat)
    ensures
        digits(n).len() >= 1,
        n >= 10 ==> digits(n).len() >= 2,
        forall|i: int| 0 <= i < digits(n).len() ==> is_digit(#[trigger] digits(n)[i]),
    decreases n,
{
    if n >= 10 {
        lemma_digits_shape(n / 10);
        let prefix = digits(n / 10);
        assert forall|i: int| 0 <= i < digits(n).len() implies is_digit(#[trigger] digits(n)[i]) by {
            if i < prefix.len() {
                assert(digits(n)[i] == prefix[i]);
            }
        }
    }
}

proof fn lemma_digit_char_injective(a: int, b: int)
    requires
        0 <= a < 10,
        0 <= b < 10,
        digit_char(a) == digit_char(b),
    ensures
        a == b,
{
}

/// Different numbers have different digits.
pub proof fn lemma_digits_injective(m: nat, n: nat)
    requires
        digits(m) == digits(n),
    ensures
        m == n,
    decreases m,
{
    lemma_digits_shape(m);
    lemma_digits_shape(n);
    if m < 10 && n < 10 {
        assert(digits(m)[0] == digit_char(m as int));
        assert(digits(n)[0] == digit_char(n as int));
        lemma_digit_char_injective(m as int, n as int);
    } else if m >= 10 && n >= 10 {
        let dm = digits(m);
        let dn = digits(n);
        assert(dm.drop_last() =~= digits(m / 10));
        assert(dn.drop_last() =~= digits(n / 10));
        assert(dm.last() == digit_char((m % 10) as int));
        assert(dn.last() == digit_char((n % 10) as int));
        lemma_digit_char_injective((m % 10) as int, (n % 10) as int);
        lemma_digits_injective(m / 10, n / 10);
    }
}

/// The decimal text holds no slash: only digits and, first, a minus sign.
pub proof fn lemma_decimal_has_no_slash(x: int)
    ensures
        forall|i: int| 0 <= i < decimal_text(x).len() ==> #[trigger] decimal_text(x)[i] != '/',
        decimal_text(x).len() >= 1,
{
    if x < 0 {
        lemma_digits_shape((-x) as nat);
        let d = digits((-x) as nat);
        assert forall|i: int| 0 <= i < decimal_text(x).len() implies #[trigger] decimal_text(x)[i] != '/' by {
            if i > 0 {
                assert(decimal_text(x)[i] == d[i - 1]);
            }
        }
    } else {
        lemma_digits_shape(x as nat);
    }
}

/// Different integers have different decimal texts.
pub proof fn lemma_decimal_injective(x: int, y: int)
    requires
        decimal_text(x) == decimal_text(y),
    ensures
        x == y,
{
    if x < 0 && y < 0 {
        assert(decimal_text(x).drop_first() =~= digits((-x) as nat));
        assert(decimal_text(y).drop_first() =~= digits((-y) as nat));
        lemma_digits_injective((-x) as nat, (-y) as nat);
    } else if x >= 0 && y >= 0 {
        lemma_digits_injective(x as nat, y as nat);
    } else if x < 0 {
        lemma_digits_shape(y as nat);
        assert(decimal_text(x)[0] == '-');
        assert(is_digit(digits(y as nat)[0]));
    } else {
        lemma_digits_shape(x as nat);
        assert(decimal_text(y)[0] == '-');
        assert(is_digit(digits(x as nat)[0]));
    }
}

} // verus!
