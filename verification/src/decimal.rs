//! Decimal rendering of integers.

use vstd::prelude::*;

verus! {

/// The character that writes the digit `d`.
pub open spec fn digit_char(d: int) -> char
    recommends
        0 <= d < 10,
{
    if d == 0 {
        '0'
    } else if d == 1 {
        '1'
    } else if d == 2 {
        '2'
    } else if d == 3 {
        '3'
    } else if d == 4 {
        '4'
    } else if d == 5 {
        '5'
    } else if d == 6 {
        '6'
    } else if d == 7 {
        '7'
    } else if d == 8 {
        '8'
    } else {
        '9'
    }
}

/// The decimal digits of `n`, most significant first, without leading zeros.
pub open spec fn nat_digits(n: nat) -> Seq<char>
    decreases n,
{
    if n < 10 {
        seq![digit_char(n as int)]
    } else {
        nat_digits(n / 10).push(digit_char((n % 10) as int))
    }
}

/// The decimal rendering of `n`: a minus sign for a negative number, then the
/// digits of its magnitude.
pub open spec fn int_digits(n: int) -> Seq<char> {
    if n < 0 {
        seq!['-'] + nat_digits((-n) as nat)
    } else {
        nat_digits(n as nat)
    }
}

/// The one-character string that writes the digit `d`.
fn digit_str(d: u64) -> (s: &'static str)
    requires
        d < 10,
    ensures
        s@ == seq![digit_char(d as int)],
{
    proof {
        reveal_strlit("0");
        reveal_strlit("1");
        reveal_strlit("2");
        reveal_strlit("3");
        reveal_strlit("4");
        reveal_strlit("5");
        reveal_strlit("6");
        reveal_strlit("7");
        reveal_strlit("8");
        reveal_strlit("9");
    }
    let s = if d == 0 {
        "0"
    } else if d == 1 {
        "1"
    } else if d == 2 {
        "2"
    } else if d == 3 {
        "3"
    } else if d == 4 {
        "4"
    } else if d == 5 {
        "5"
    } else if d == 6 {
        "6"
    } else if d == 7 {
        "7"
    } else if d == 8 {
        "8"
    } else {
        "9"
    };
    assert(s@ =~= seq![digit_char(d as int)]);
    s
}

/// Appends the decimal digits of `n` to `out`.
pub fn push_nat(out: &mut String, n: u64)
    ensures
        final(out)@ == old(out)@ + nat_digits(n as nat),
    decreases n,
{
    if n >= 10 {
        push_nat(out, n / 10);
    }
    let ghost before = out@;
    out.append(digit_str(n % 10));
    proof {
        if n >= 10 {
            assert(out@ =~= old(out)@ + nat_digits((n / 10) as nat).push(
                digit_char((n % 10) as int),
            ));
        } else {
            assert(out@ =~= old(out)@ + seq![digit_char(n as int)]);
        }
    }
}

/// Appends the decimal rendering of `n` to `out`.
pub fn push_int(out: &mut String, n: i32)
    ensures
        final(out)@ == old(out)@ + int_digits(n as int),
{
    if n < 0 {
        out.append("-");
        proof {
            reveal_strlit("-");
            assert("-"@ =~= seq!['-']);
        }
        let magnitude: u64 = (-(n as i64)) as u64;
        push_nat(out, magnitude);
        assert(out@ =~= old(out)@ + (seq!['-'] + nat_digits((-n) as nat)));
    } else {
        push_nat(out, n as u64);
    }
}

/// The digit that the character `c` writes; 0 for any other character.
pub open spec fn digit_value(c: char) -> nat {
    if c == '1' {
        1
    } else if c == '2' {
        2
    } else if c == '3' {
        3
    } else if c == '4' {
        4
    } else if c == '5' {
        5
    } else if c == '6' {
        6
    } else if c == '7' {
        7
    } else if c == '8' {
        8
    } else if c == '9' {
        9
    } else {
        0
    }
}

/// The number that a sequence of digits writes in base ten.
pub open spec fn digits_value(digits: Seq<char>) -> nat
    decreases digits.len(),
{
    if digits.len() == 0 {
        0
    } else {
        digits_value(digits.drop_last()) * 10 + digit_value(digits.last())
    }
}

/// The digits of a number write that number, consist of digit characters
/// only, and begin with a zero only for the number zero itself.
pub proof fn lemma_digits_read_back(n: nat)
    ensures
        digits_value(nat_digits(n)) == n,
        nat_digits(n).len() >= 1,
        forall|i: int|
            0 <= i < nat_digits(n).len() ==> digit_char(
                digit_value(#[trigger] nat_digits(n)[i]) as int,
            ) == nat_digits(n)[i],
        n > 0 ==> nat_digits(n)[0] != '0',
    decreases n,
{
    if n >= 10 {
        lemma_digits_read_back(n / 10);
        let front = nat_digits(n / 10);
        let all = front.push(digit_char((n % 10) as int));
        assert(all.drop_last() =~= front);
        assert(all.last() == digit_char((n % 10) as int));
        assert(all[0] == front[0]);
    } else {
        let all = seq![digit_char(n as int)];
        assert(all.drop_last() =~= Seq::<char>::empty());
        assert(digits_value(all.drop_last()) == 0);
    }
}

/// Different numbers are rendered differently: a rendering tells which
/// number it was made from.
pub proof fn lemma_rendering_is_injective(a: int, b: int)
    requires
        int_digits(a) == int_digits(b),
    ensures
        a == b,
{
    let ma = (if a < 0 { -a } else { a }) as nat;
    let mb = (if b < 0 { -b } else { b }) as nat;
    lemma_digits_read_back(ma);
    lemma_digits_read_back(mb);
    let da = nat_digits(ma);
    let db = nat_digits(mb);
    assert(da[0] != '-') by {
        assert(digit_char(digit_value(da[0]) as int) == da[0]);
    }
    assert(db[0] != '-') by {
        assert(digit_char(digit_value(db[0]) as int) == db[0]);
    }
    if a < 0 {
        assert(int_digits(a)[0] == '-');
        assert(b < 0);
        assert((seq!['-'] + da).subrange(1, 1 + da.len() as int) =~= da);
        assert((seq!['-'] + db).subrange(1, 1 + db.len() as int) =~= db);
        assert(da.len() == db.len()) by {
            assert((seq!['-'] + da).len() == (seq!['-'] + db).len());
        }
        assert(da == db);
    } else {
        assert(int_digits(a)[0] != '-');
        if b < 0 {
            assert(int_digits(b)[0] == '-');
        }
        assert(da == db);
    }
}

} // verus!
