//! Decimal rendering of integers and small string helpers.

use vstd::prelude::*;
use vstd::string::*;

verus! {

/// The ASCII digit for `d` (expected below 10).
pub open spec fn digit_char(d: nat) -> char {
    (48 + d) as char
}

/// Decimal digits of a natural number, most significant first, no leading zeros.
pub open spec fn nat_text(n: nat) -> Seq<char>
    decreases n,
{
    if n < 10 {
        seq![digit_char(n)]
    } else {
        nat_text(n / 10).push(digit_char(n % 10))
    }
}

/// Decimal text of an integer as `{}` prints it: a leading `-` for negatives.
pub open spec fn int_text(n: int) -> Seq<char> {
    if n < 0 {
        seq!['-'] + nat_text((-n) as nat)
    } else {
        nat_text(n as nat)
    }
}

/// Whether a character is an ASCII decimal digit.
pub open spec fn is_digit(c: char) -> bool {
    48 <= c as int <= 57
}

/// The number that a run of decimal digits denotes, read most significant
/// first.
pub open spec fn digits_value(s: Seq<char>) -> int
    decreases s.len(),
{
    if s.len() == 0 {
        0
    } else {
        digits_value(s.drop_last()) * 10 + (s.last() as int - 48)
    }
}

/// The decimal text of a natural number is a non-empty run of digits, without
/// a leading zero unless the number is zero, and it reads back as the number.
pub proof fn lemma_nat_text_reads_back(n: nat)
    ensures
        nat_text(n).len() >= 1,
        forall|i: int| 0 <= i < nat_text(n).len() ==> is_digit(#[trigger] nat_text(n)[i]),
        digits_value(nat_text(n)) == n,
        nat_text(n)[0] == '0' ==> n == 0,
    decreases n,
{
    if n < 10 {
        assert(digit_char(n) as int == 48 + n);
        assert(nat_text(n).drop_last() =~= Seq::<char>::empty());
        assert(nat_text(n).last() == digit_char(n));
        assert(digits_value(Seq::<char>::empty()) == 0);
        assert(digits_value(nat_text(n)) == n);
    } else {
        lemma_nat_text_reads_back(n / 10);
        let t = nat_text(n);
        assert(t.drop_last() =~= nat_text(n / 10));
        assert(t.last() == digit_char(n % 10));
        assert(digit_char(n % 10) as int == 48 + n % 10);
        assert(n == (n / 10) * 10 + n % 10);
        assert(digits_value(t) == digits_value(nat_text(n / 10)) * 10 + (n % 10));
        assert(digits_value(t) == n);
        assert(t[0] == nat_text(n / 10)[0]);
        assert forall|i: int| 0 <= i < t.len() implies is_digit(#[trigger] t[i]) by {
            if i < t.len() - 1 {
                assert(t[i] == nat_text(n / 10)[i]);
            }
        }
    }
}

/// The decimal text of an integer is `-` followed by the digits of its
/// magnitude when it is negative, else just its digits; either way the digits
/// read back as the magnitude.
pub proof fn lemma_int_text_reads_back(n: int)
    ensures
        n < 0 ==> int_text(n)[0] == '-' && int_text(n).drop_first() == nat_text((-n) as nat)
            && digits_value(int_text(n).drop_first()) == -n,
        n >= 0 ==> int_text(n) == nat_text(n as nat) && digits_value(int_text(n)) == n,
        forall|i: int| (n < 0 ==> 1 <= i) && 0 <= i < int_text(n).len() ==> is_digit(#[trigger] int_text(n)[i]),
{
    if n < 0 {
        lemma_nat_text_reads_back((-n) as nat);
        assert(int_text(n).drop_first() =~= nat_text((-n) as nat));
        assert forall|i: int| 1 <= i < int_text(n).len() implies is_digit(#[trigger] int_text(n)[i]) by {
            assert(int_text(n)[i] == nat_text((-n) as nat)[i - 1]);
        }
    } else {
        lemma_nat_text_reads_back(n as nat);
    }
}

/// `String::push`: appends one character.
#[verifier::external_body]
pub(crate) fn push_char(s: &mut String, c: char)
    ensures
        final(s)@ == old(s)@.push(c),
{
    s.push(c);
}

fn push_nat(s: &mut String, n: u64)
    ensures
        final(s)@ == old(s)@ + nat_text(n as nat),
    decreases n,
{
    if n >= 10 {
        push_nat(s, n / 10);
    }
    let d: u8 = (n % 10) as u8;
    let c: char = (48u8 + d) as char;
    assert(c == digit_char((n % 10) as nat));
    push_char(s, c);
    proof {
        if n >= 10 {
            assert(nat_text(n as nat) == nat_text((n / 10) as nat).push(digit_char((n % 10) as nat)));
        }
    }
}

/// Appends the decimal text of `n` to `s`.
pub fn push_int(s: &mut String, n: i64)
    ensures
        final(s)@ == old(s)@ + int_text(n as int),
{
    if n < 0 {
        push_char(s, '-');
        let m: u64 = if n == i64::MIN {
            9223372036854775808u64
        } else {
            (-n) as u64
        };
        push_nat(s, m);
        assert(s@ =~= old(s)@ + int_text(n as int)) by {
            assert(seq!['-'] + nat_text(m as nat) =~= int_text(n as int));
        }
    } else {
        push_nat(s, n as u64);
    }
}

} // verus!
