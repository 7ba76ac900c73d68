use vstd::prelude::*;

verus! {

/// The character of a decimal digit.
pub open spec fn digit_char(d: nat) -> char {
    if d == 0 {
        '0'
    } else if d == 1 {
        '1'
    } else if d == 2 {
        '2'
    } else if d == 3 {
        '3'
    } else if d == 4 {
        '4'
    } else if d == 5 {
        '5'
    } else if d == 6 {
        '6'
    } else if d == 7 {
        '7'
    } else if d == 8 {
        '8'
    } else {
        '9'
    }
}

/// Decimal digits of a natural number, most significant first, no leading zeros.
pub open spec fn decimal_digits(n: nat) -> Seq<char>
    decreases n,
{
    if n < 10 {
        seq![digit_char(n)]
    } else {
        decimal_digits(n / 10).push(digit_char(n % 10))
    }
}

/// Decimal text of an integer, with a leading `-` when it is negative.
pub open spec fn decimal_text(i: int) -> Seq<char> {
    if i < 0 {
        seq!['-'] + decimal_digits((-i) as nat)
    } else {
        decimal_digits(i as nat)
    }
}

fn digit_str(d: u64) -> (s: &'static str)
    requires
        d < 10,
    ensures
        s@ == seq![digit_char(d as nat)],
{
    proof {
        reveal_strlit("0");
        reveal_strlit("1");
        reveal_strlit("2");
        reveal_strlit("3");
        reveal_strlit("4");
        reveal_strlit("5");
        reveal_strlit("6");
        reveal_strlit("7");
        reveal_strlit("8");
        reveal_strlit("9");
    }
    if d == 0 {
        "0"
    } else if d == 1 {
        "1"
    } else if d == 2 {
        "2"
    } else if d == 3 {
        "3"
    } else if d == 4 {
        "4"
    } else if d == 5 {
        "5"
    } else if d == 6 {
        "6"
    } else if d == 7 {
        "7"
    } else if d == 8 {
        "8"
    } else {
        "9"
    }
}

/// Appends the decimal digits of `n` to `out`.
pub fn push_decimal(out: &mut String, n: u64)
    ensures
        final(out)@ == old(out)@ + decimal_digits(n as nat),
    decreases n,
{
    if n >= 10 {
        push_decimal(out, n / 10);
    }
    let d = digit_str(n % 10);
    out.append(d);
    proof {
        if n >= 10 {
            assert(decimal_digits(n as nat) == decimal_digits((n / 10) as nat).push(
                digit_char((n % 10) as nat),
            ));
            assert(old(out)@ + decimal_digits((n / 10) as nat) + seq![digit_char((n % 10) as nat)]
                =~= old(out)@ + decimal_digits(n as nat));
        } else {
            assert(decimal_digits(n as nat) == seq![digit_char(n as nat)]);
        }
    }
}

/// Decimal text of an unsigned integer.
pub fn unsigned_text(n: u64) -> (s: String)
    ensures
        s@ == decimal_digits(n as nat),
{
    let mut s = String::new();
    push_decimal(&mut s, n);
    proof {
        assert(Seq::<char>::empty() + decimal_digits(n as nat) =~= decimal_digits(n as nat));
    }
    s
}

/// Decimal text of a signed integer, as `{}` formats it.
pub fn signed_text(v: i64) -> (s: String)
    ensures
        s@ == decimal_text(v as int),
{
    let mut s = String::new();
    if v < 0 {
        s.append("-");
        let magnitude: u64 = ((-(v + 1)) as u64) + 1;
        push_decimal(&mut s, magnitude);
        proof {
            reveal_strlit("-");
            assert(s@ =~= decimal_text(v as int));
        }
    } else {
        push_decimal(&mut s, v as u64);
        proof {
            assert(s@ =~= decimal_text(v as int));
        }
    }
    s
}


/// The value of a decimal digit character.
pub open spec fn digit_value(c: char) -> int {
    c as int - '0' as int
}

/// `c` is one of `0` to `9`.
pub open spec fn is_digit(c: char) -> bool {
    '0' <= c && c <= '9'
}

/// The number that a string of decimal digits denotes.
pub open spec fn read_decimal(s: Seq<char>) -> int
    decreases s.len(),
{
    if s.len() == 0 {
        0
    } else {
        read_decimal(s.drop_last()) * 10 + digit_value(s.last())
    }
}

/// `s` is the canonical decimal form of `n`: one or more digits, no leading
/// zero unless `n` is zero, denoting `n`.
pub open spec fn is_decimal_of(s: Seq<char>, n: int) -> bool {
    &&& s.len() >= 1
    &&& forall|i: int| 0 <= i < s.len() ==> is_digit(#[trigger] s[i])
    &&& (s.len() > 1 ==> s[0] != '0')
    &&& read_decimal(s) == n
}

/// The decimal digits of `n` are its canonical decimal form: reading them
/// back gives `n`.
pub proof fn lemma_decimal_digits_read_back(n: nat)
    ensures
        is_decimal_of(decimal_digits(n), n as int),
        decimal_digits(n).len() >= 1,
    decreases n,
{
    let d = decimal_digits(n);
    let last = digit_char(n % 10);
    assert(is_digit(last) && digit_value(last) == n % 10);
    if n < 10 {
        assert(d == seq![digit_char(n)]);
        assert(d.drop_last() =~= Seq::<char>::empty());
        assert(n < 10 ==> n % 10 == n);
        reveal_with_fuel(read_decimal, 2);
        assert(n == 0 || d[0] != '0');
    } else {
        lemma_decimal_digits_read_back(n / 10);
        let p = decimal_digits(n / 10);
        assert(d == p.push(last));
        assert(d.drop_last() =~= p);
        assert(d[0] == p[0]);
        assert((n / 10) * 10 + n % 10 == n);
        assert forall|i: int| 0 <= i < d.len() implies is_digit(#[trigger] d[i]) by {
            if i < p.len() {
                assert(d[i] == p[i]);
            }
        }
        if p.len() == 1 {
            assert(read_decimal(p) == digit_value(p[0])) by {
                assert(p.drop_last() =~= Seq::<char>::empty());
                reveal_with_fuel(read_decimal, 2);
            }
            assert(p[0] != '0');
        }
    }
}

/// The text of a signed integer is its magnitude's canonical decimal form,
/// after a `-` exactly when it is negative.
pub proof fn lemma_signed_text_reads_back(i: int)
    ensures
        i >= 0 ==> is_decimal_of(decimal_text(i), i),
        i < 0 ==> decimal_text(i)[0] == '-' && is_decimal_of(decimal_text(i).drop_first(), -i),
{
    if i >= 0 {
        lemma_decimal_digits_read_back(i as nat);
    } else {
        lemma_decimal_digits_read_back((-i) as nat);
        assert(decimal_text(i).drop_first() =~= decimal_digits((-i) as nat));
    }
}

} // verus!
