use vstd::prelude::*;

verus! {

/// The character of a decimal digit `d` (for `0 <= d < 10`).
pub open spec fn digit_char(d: int) -> char {
    if d == 0 { '0' }
    else if d == 1 { '1' }
    else if d == 2 { '2' }
    else if d == 3 { '3' }
    else if d == 4 { '4' }
    else if d == 5 { '5' }
    else if d == 6 { '6' }
    else if d == 7 { '7' }
    else if d == 8 { '8' }
    else { '9' }
}

/// Decimal notation of a natural number, most significant digit first, no leading zeros.
pub open spec fn nat_decimal(n: nat) -> Seq<char>
    decreases n,
{
    if n < 10 {
        seq![digit_char(n as int)]
    } else {
        nat_decimal(n / 10) + seq![digit_char((n % 10) as int)]
    }
}

/// Decimal notation of an integer, with a leading `-` when it is negative.
pub open spec fn int_decimal(n: int) -> Seq<char> {
    if n < 0 {
        seq!['-'] + nat_decimal((-n) as nat)
    } else {
        nat_decimal(n as nat)
    }
}

/// Whether `c` is one of the digits `0` to `9`.
pub open spec fn is_digit(c: char) -> bool {
    48 <= (c as int) && (c as int) <= 57
}

/// The value of a digit character.
pub open spec fn digit_value(c: char) -> int {
    (c as int) - 48
}

/// The number that a string of digits denotes in base ten, read left to right.
pub open spec fn digits_value(s: Seq<char>) -> int
    decreases s.len(),
{
    if s.len() == 0 {
        0
    } else {
        digits_value(s.drop_last()) * 10 + digit_value(s.last())
    }
}

/// A non-empty string of digits with no leading zero (a lone `0` excepted).
pub open spec fn is_plain_decimal(s: Seq<char>) -> bool {
    &&& s.len() >= 1
    &&& forall|i: int| 0 <= i < s.len() ==> is_digit(#[trigger] s[i])
    &&& s.len() > 1 ==> s[0] != '0'
}

proof fn lemma_digit_char(d: int)
    requires
        0 <= d < 10,
    ensures
        is_digit(digit_char(d)),
        digit_value(digit_char(d)) == d,
        d != 0 ==> digit_char(d) != '0',
{
}

/// The decimal notation of a natural number is a plain string of digits whose value is
/// that number.
pub proof fn lemma_nat_decimal_is_decimal_notation(n: nat)
    ensures
        is_plain_decimal(nat_decimal(n)),
        digits_value(nat_decimal(n)) == n,
    decreases n,
{
    if n < 10 {
        lemma_digit_char(n as int);
        let s = nat_decimal(n);
        assert(s.drop_last() =~= Seq::<char>::empty());
        assert(digits_value(s) == digits_value(s.drop_last()) * 10 + digit_value(s.last()));
    } else {
        let q = (n / 10) as nat;
        lemma_nat_decimal_is_decimal_notation(q);
        lemma_digit_char((n % 10) as int);
        let s = nat_decimal(n);
        let p = nat_decimal(q);
        assert(s == p + seq![digit_char((n % 10) as int)]);
        assert(s.drop_last() =~= p);
        assert(s.last() == digit_char((n % 10) as int));
        assert(s[0] == p[0]);
        if p.len() == 1 {
            assert(p.drop_last() =~= Seq::<char>::empty());
            assert(digits_value(Seq::<char>::empty()) == 0);
            assert(p.last() == p[0]);
            assert(digits_value(p) == digits_value(p.drop_last()) * 10 + digit_value(p.last()));
            assert(digits_value(p) == digit_value(p[0]));
        }
        assert(digits_value(s) == digits_value(p) * 10 + digit_value(s.last()));
        assert(n == q * 10 + n % 10);
        assert forall|i: int| 0 <= i < s.len() implies is_digit(#[trigger] s[i]) by {
            if i < p.len() {
                assert(s[i] == p[i]);
            }
        }
    }
}

/// `int_decimal` is decimal notation: for a number that is not negative, a plain string
/// of digits whose value is the number; for a negative one, `-` followed by such a
/// string whose value is its magnitude. So reading the notation back gives the number.
pub proof fn lemma_int_decimal_is_decimal_notation(n: int)
    ensures
        n >= 0 ==> is_plain_decimal(int_decimal(n)) && digits_value(int_decimal(n)) == n,
        n < 0 ==> {
            &&& int_decimal(n).len() >= 2
            &&& int_decimal(n)[0] == '-'
            &&& is_plain_decimal(int_decimal(n).drop_first())
            &&& digits_value(int_decimal(n).drop_first()) == -n
        },
{
    if n < 0 {
        lemma_nat_decimal_is_decimal_notation((-n) as nat);
        assert(int_decimal(n).drop_first() =~= nat_decimal((-n) as nat));
    } else {
        lemma_nat_decimal_is_decimal_notation(n as nat);
    }
}

/// The one-character string of a decimal digit.
fn digit_str(d: u32) -> (r: &'static str)
    requires
        d < 10,
    ensures
        r@ == seq![digit_char(d as int)],
{
    if d == 0 {
        proof { reveal_strlit("0"); }
        "0"
    } else if d == 1 {
        proof { reveal_strlit("1"); }
        "1"
    } else if d == 2 {
        proof { reveal_strlit("2"); }
        "2"
    } else if d == 3 {
        proof { reveal_strlit("3"); }
        "3"
    } else if d == 4 {
        proof { reveal_strlit("4"); }
        "4"
    } else if d == 5 {
        proof { reveal_strlit("5"); }
        "5"
    } else if d == 6 {
        proof { reveal_strlit("6"); }
        "6"
    } else if d == 7 {
        proof { reveal_strlit("7"); }
        "7"
    } else if d == 8 {
        proof { reveal_strlit("8"); }
        "8"
    } else {
        proof { reveal_strlit("9"); }
        "9"
    }
}

/// Appends the decimal notation of `n` to `s`.
fn push_nat_decimal(s: &mut String, n: u32)
    ensures
        final(s)@ == old(s)@ + nat_decimal(n as nat),
    decreases n,
{
    if n >= 10 {
        push_nat_decimal(s, n / 10);
    }
    let d = digit_str(n % 10);
    s.append(d);
    proof {
        if n >= 10 {
            assert(old(s)@ + nat_decimal(n as nat) =~= old(s)@ + nat_decimal((n / 10) as nat) + seq![
                digit_char((n % 10) as int),
            ]);
        } else {
            assert(nat_decimal(n as nat) == seq![digit_char(n as int)]);
        }
    }
}

/// Appends the decimal notation of `n` (as `i32::to_string` writes it) to `s`: a `-`
/// when `n` is negative, then the digits of its magnitude, without leading zeros.
pub fn push_i32_decimal(s: &mut String, n: i32)
    ensures
        final(s)@ == old(s)@ + int_decimal(n as int),
        final(s)@.subrange(0, old(s)@.len() as int) == old(s)@,
        n >= 0 ==> {
            let added = final(s)@.skip(old(s)@.len() as int);
            is_plain_decimal(added) && digits_value(added) == n
        },
        n < 0 ==> {
            let added = final(s)@.skip(old(s)@.len() as int);
            &&& added.len() >= 2
            &&& added[0] == '-'
            &&& is_plain_decimal(added.drop_first())
            &&& digits_value(added.drop_first()) == -n
        },
{
    proof {
        lemma_int_decimal_is_decimal_notation(n as int);
    }
    if n < 0 {
        proof { reveal_strlit("-"); }
        s.append("-");
        let wide: i64 = n as i64;
        let magnitude: u32 = (-wide) as u32;
        push_nat_decimal(s, magnitude);
        assert(final(s)@ =~= old(s)@ + int_decimal(n as int));
    } else {
        push_nat_decimal(s, n as u32);
    }
    assert(s@.subrange(0, old(s)@.len() as int) =~= old(s)@);
    assert(s@.skip(old(s)@.len() as int) =~= int_decimal(n as int));
}

/// Whether two strings hold the same characters.
pub fn str_equals(a: &str, b: &str) -> (r: bool)
    ensures
        r == (a@ == b@),
{
    let n = a.unicode_len();
    if n != b.unicode_len() {
        return false;
    }
    let mut i: usize = 0;
    while i < n
        invariant
            n == a@.len(),
            n == b@.len(),
            i <= n,
            forall|j: int| 0 <= j < i ==> a@[j] == b@[j],
        decreases n - i,
    {
        if a.get_char(i) != b.get_char(i) {
            return false;
        }
        i = i + 1;
    }
    assert(a@ =~= b@);
    true
}

} // verus!
