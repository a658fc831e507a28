//! Character-sequence utilities shared by the JSON codec and the TOML
//! emitter: conversions between `String` and `Vec<char>`, and printing and
//! parsing of decimal integers.

use vstd::prelude::*;

verus! {

/// Relies on `str::chars` collected into a `Vec`: the characters of the
/// string, in order.
#[verifier::external_body]
pub fn string_to_chars(s: &str) -> (r: Vec<char>)
    ensures
        r@ == s@,
{
    s.chars().collect()
}

/// Relies on `String::from_iter` over `Iterator` of `char`: builds the string
/// with exactly the given characters, in order.
#[verifier::external_body]
pub fn chars_to_string(v: &Vec<char>) -> (r: String)
    ensures
        r@ == v@,
{
    v.iter().collect()
}

/// Decimal digit for a value below ten.
pub open spec fn digit_char(d: nat) -> char
    recommends
        d < 10,
{
    if d == 0 {
        '0'
    } else if d == 1 {
        '1'
    } else if d == 2 {
        '2'
    } else if d == 3 {
        '3'
    } else if d == 4 {
        '4'
    } else if d == 5 {
        '5'
    } else if d == 6 {
        '6'
    } else if d == 7 {
        '7'
    } else if d == 8 {
        '8'
    } else {
        '9'
    }
}

/// The decimal text of a natural number, without sign or leading zeros.
pub open spec fn dec_nat(n: nat) -> Seq<char>
    decreases n,
{
    if n < 10 {
        seq![digit_char(n)]
    } else {
        dec_nat(n / 10) + seq![digit_char(n % 10)]
    }
}

/// The decimal text of an integer: a minus sign ahead of the magnitude when
/// the value is negative.
pub open spec fn dec_int(n: int) -> Seq<char> {
    if n < 0 {
        seq!['-'] + dec_nat((-n) as nat)
    } else {
        dec_nat(n as nat)
    }
}

proof fn lemma_dec_nat_len(n: nat)
    ensures
        dec_nat(n).len() >= 1,
    decreases n,
{
    if n >= 10 {
        lemma_dec_nat_len(n / 10);
    }
}

/// Writes the decimal text of `n` onto the end of `out`.
pub fn push_dec_u64(n: u64, out: &mut Vec<char>)
    ensures
        final(out)@ == old(out)@ + dec_nat(n as nat),
    decreases n,
{
    if n < 10 {
        let d: u64 = n;
        let c: char = if d == 0 {
            '0'
        } else if d == 1 {
            '1'
        } else if d == 2 {
            '2'
        } else if d == 3 {
            '3'
        } else if d == 4 {
            '4'
        } else if d == 5 {
            '5'
        } else if d == 6 {
            '6'
        } else if d == 7 {
            '7'
        } else if d == 8 {
            '8'
        } else {
            '9'
        };
        out.push(c);
        assert(out@ =~= old(out)@ + dec_nat(n as nat));
    } else {
        push_dec_u64(n / 10, out);
        let d: u64 = n % 10;
        let c: char = if d == 0 {
            '0'
        } else if d == 1 {
            '1'
        } else if d == 2 {
            '2'
        } else if d == 3 {
            '3'
        } else if d == 4 {
            '4'
        } else if d == 5 {
            '5'
        } else if d == 6 {
            '6'
        } else if d == 7 {
            '7'
        } else if d == 8 {
            '8'
        } else {
            '9'
        };
        out.push(c);
        assert(out@ =~= old(out)@ + dec_nat(n as nat));
    }
}

/// Writes the decimal text of a signed value onto the end of `out`.
pub fn push_dec_i64(n: i64, out: &mut Vec<char>)
    ensures
        final(out)@ == old(out)@ + dec_int(n as int),
{
    if n < 0 {
        out.push('-');
        let magnitude: u64 = if n == i64::MIN {
            9223372036854775808u64
        } else {
            (-n) as u64
        };
        assert(magnitude == (-(n as int)) as nat);
        push_dec_u64(magnitude, out);
        assert(out@ =~= old(out)@ + dec_int(n as int));
    } else {
        push_dec_u64(n as u64, out);
    }
}

/// Relies on `<str as PartialEq>::eq`: string slices compare equal exactly
/// when their character sequences are equal.
#[verifier::external_body]
pub fn str_eq(a: &str, b: &str) -> (r: bool)
    ensures
        r == (a@ == b@),
{
    a == b
}

/// Writes the characters of `s` onto the end of `out`.
pub fn push_str_chars(s: &str, out: &mut Vec<char>)
    ensures
        final(out)@ == old(out)@ + s@,
{
    let cs = string_to_chars(s);
    let mut i: usize = 0;
    assert(out@ =~= old(out)@ + s@.take(0));
    while i < cs.len()
        invariant
            0 <= i <= cs.len(),
            cs@ == s@,
            out@ == old(out)@ + s@.take(i as int),
        decreases cs.len() - i,
    {
        out.push(cs[i]);
        assert(out@ =~= old(out)@ + s@.take(i + 1));
        i += 1;
    }
    assert(s@.take(s@.len() as int) =~= s@);
}

/// Whether the character is a decimal digit.
pub open spec fn is_digit(c: char) -> bool {
    '0' <= c && c <= '9'
}

/// Numeric value of a decimal digit character.
pub open spec fn digit_val(c: char) -> nat
    recommends
        is_digit(c),
{
    (c as nat - '0' as nat) as nat
}

/// Whether every character of the sequence is a decimal digit.
pub open spec fn all_digits(s: Seq<char>) -> bool {
    forall|i: int| 0 <= i < s.len() ==> is_digit(#[trigger] s[i])
}

/// The natural number denoted by a sequence of decimal digits.
pub open spec fn nat_of_digits(s: Seq<char>) -> nat
    decreases s.len(),
{
    if s.len() == 0 {
        0
    } else {
        nat_of_digits(s.drop_last()) * 10 + digit_val(s.last())
    }
}

/// A canonical run of digits, as JSON numbers use: non-empty and without a
/// leading zero unless the run is exactly `0`.
pub open spec fn canonical_digits(s: Seq<char>) -> bool {
    &&& s.len() >= 1
    &&& all_digits(s)
    &&& (s[0] == '0' ==> s.len() == 1)
}

/// The integer denoted by a decimal integer lexeme (optional minus sign, then
/// a canonical digit run), or `None` when the text is no such lexeme.
pub open spec fn int_text_value(s: Seq<char>) -> Option<int> {
    if s.len() >= 1 && s[0] == '-' {
        let d = s.subrange(1, s.len() as int);
        if canonical_digits(d) {
            Some(-(nat_of_digits(d) as int))
        } else {
            None
        }
    } else {
        if canonical_digits(s) {
            Some(nat_of_digits(s) as int)
        } else {
            None
        }
    }
}

proof fn lemma_nat_of_digits_upper(s: Seq<char>)
    requires
        all_digits(s),
    ensures
        nat_of_digits(s) < vstd::arithmetic::power::pow(10, s.len()),
    decreases s.len(),
{
    vstd::arithmetic::power::lemma_pow_positive(10, s.len());
    if s.len() == 0 {
    } else {
        let d = s.drop_last();
        assert(all_digits(d));
        lemma_nat_of_digits_upper(d);
        vstd::arithmetic::power::lemma_pow_adds(10, (s.len() - 1) as nat, 1);
        assert(vstd::arithmetic::power::pow(10, s.len()) == vstd::arithmetic::power::pow(
            10,
            (s.len() - 1) as nat,
        ) * 10) by {
            vstd::arithmetic::power::lemma_pow1(10);
        }
        assert(digit_val(s.last()) <= 9);
        assert(nat_of_digits(d) * 10 + 10 <= vstd::arithmetic::power::pow(
            10,
            (s.len() - 1) as nat,
        ) * 10) by (nonlinear_arith)
            requires
                nat_of_digits(d) + 1 <= vstd::arithmetic::power::pow(10, (s.len() - 1) as nat),
        ;
    }
}

proof fn lemma_nat_of_digits_lower(s: Seq<char>)
    requires
        all_digits(s),
        s.len() >= 1,
        s[0] != '0',
    ensures
        nat_of_digits(s) >= vstd::arithmetic::power::pow(10, (s.len() - 1) as nat),
    decreases s.len(),
{
    if s.len() == 1 {
        assert(vstd::arithmetic::power::pow(10, 0) == 1) by {
            vstd::arithmetic::power::lemma_pow0(10);
        }
        assert(s.drop_last() =~= Seq::<char>::empty());
        assert(nat_of_digits(Seq::<char>::empty()) == 0);
        assert(digit_val(s.last()) >= 1);
    } else {
        let d = s.drop_last();
        lemma_nat_of_digits_lower(d);
        assert(vstd::arithmetic::power::pow(10, (s.len() - 1) as nat)
            == vstd::arithmetic::power::pow(10, (s.len() - 2) as nat) * 10) by {
            vstd::arithmetic::power::lemma_pow_adds(10, (s.len() - 2) as nat, 1);
            vstd::arithmetic::power::lemma_pow1(10);
        }
        assert(nat_of_digits(d) * 10 >= vstd::arithmetic::power::pow(10, (s.len() - 2) as nat)
            * 10) by (nonlinear_arith)
            requires
                nat_of_digits(d) >= vstd::arithmetic::power::pow(10, (s.len() - 2) as nat),
        ;
    }
}

proof fn lemma_pow10_19()
    ensures
        vstd::arithmetic::power::pow(10, 19) == 10000000000000000000,
        vstd::arithmetic::power::pow(10, 18) == 1000000000000000000,
{
    reveal_with_fuel(vstd::arithmetic::power::pow, 20);
    assert(vstd::arithmetic::power::pow(10, 19) == 10000000000000000000
        && vstd::arithmetic::power::pow(10, 18) == 1000000000000000000);
}

/// Parses a decimal integer lexeme, accepting exactly the values inside
/// `[lo, hi]`.
pub fn parse_int_text(t: &Vec<char>, lo: i64, hi: i64) -> (r: Option<i64>)
    requires
        lo <= hi,
    ensures
        match r {
            Some(n) => {
                &&& int_text_value(t@) == Some(n as int)
                &&& lo <= n <= hi
            },
            None => forall|n: int|
                int_text_value(t@) == Some(n) ==> !(lo as int <= n <= hi as int),
        },
{
    let ghost whole = t@;
    let negative: bool = t.len() >= 1 && t[0] == '-';
    let start: usize = if negative {
        1
    } else {
        0
    };
    let ghost d = whole.subrange(start as int, whole.len() as int);
    proof {
        if !negative {
            assert(d =~= whole);
        }
        vstd::arithmetic::power::lemma_pow0(10);
    }
    if t.len() == start {
        assert(!canonical_digits(d));
        return None;
    }
    if t[start] == '0' && t.len() > start + 1 {
        assert(d[0] == whole[start as int]);
        assert(!canonical_digits(d));
        return None;
    }
    // Reject any run whose characters are not all digits.
    let mut i: usize = start;
    while i < t.len()
        invariant
            start <= i <= t.len(),
            whole == t@,
            negative == (whole.len() >= 1 && whole[0] == '-'),
            start == if negative { 1int } else { 0int },
            d == whole.subrange(start as int, whole.len() as int),
            !negative ==> d == whole,
            forall|j: int| start <= j < i ==> is_digit(#[trigger] whole[j]),
        decreases t.len() - i,
    {
        let c = t[i];
        if !('0' <= c && c <= '9') {
            assert(!all_digits(d)) by {
                assert(d[i - start] == whole[i as int]);
            }
            return None;
        }
        i += 1;
    }
    assert(all_digits(d)) by {
        assert(forall|j: int| 0 <= j < d.len() ==> d[j] == whole[j + start]);
    }
    assert(canonical_digits(d));
    proof {
        lemma_pow10_19();
    }
    if t.len() - start > 19 {
        // Too many digits for the range: the canonical run has no leading
        // zero, so its value is at least ten to the eighteenth power times ten.
        proof {
            lemma_nat_of_digits_lower(d);
            vstd::arithmetic::power::lemma_pow_increases(10, 19, (d.len() - 1) as nat);
        }
        return None;
    }
    let mut acc: u64 = 0;
    let mut k: usize = start;
    while k < t.len()
        invariant
            start <= k <= t.len(),
            whole == t@,
            negative == (whole.len() >= 1 && whole[0] == '-'),
            start == if negative { 1int } else { 0int },
            d == whole.subrange(start as int, whole.len() as int),
            !negative ==> d == whole,
            canonical_digits(d),
            d.len() <= 19,
            acc == nat_of_digits(d.take(k - start)),
            acc < vstd::arithmetic::power::pow(10, (k - start) as nat),
            vstd::arithmetic::power::pow(10, 19) == 10000000000000000000,
        decreases t.len() - k,
    {
        let c = t[k];
        assert(is_digit(c)) by {
            assert(d[k - start] == whole[k as int]);
        }
        let dv: u64 = (c as u32 as u64) - ('0' as u32 as u64);
        proof {
            let p = d.take(k - start);
            let p2 = d.take(k - start + 1);
            assert(p2.drop_last() =~= p);
            assert(p2.last() == d[k - start]);
            vstd::arithmetic::power::lemma_pow_adds(10, (k - start) as nat, 1);
            vstd::arithmetic::power::lemma_pow1(10);
            vstd::arithmetic::power::lemma_pow_increases(
                10,
                (k - start + 1) as nat,
                19,
            );
            assert(acc * 10 + 10 <= vstd::arithmetic::power::pow(10, (k - start) as nat) * 10)
                by (nonlinear_arith)
                requires
                    acc + 1 <= vstd::arithmetic::power::pow(10, (k - start) as nat),
            ;
        }
        acc = acc * 10 + dv;
        k += 1;
        assert(d.take(k - start) == d.take(k - start));
    }
    assert(d.take(t.len() - start) =~= d);
    // `acc` now holds the magnitude exactly.
    if negative {
        if acc <= 9223372036854775807u64 {
            let n: i64 = -(acc as i64);
            if lo <= n && n <= hi {
                Some(n)
            } else {
                None
            }
        } else if acc == 9223372036854775808u64 {
            let n: i64 = i64::MIN;
            if lo <= n && n <= hi {
                Some(n)
            } else {
                None
            }
        } else {
            None
        }
    } else {
        if acc <= 9223372036854775807u64 {
            let n: i64 = acc as i64;
            if lo <= n && n <= hi {
                Some(n)
            } else {
                None
            }
        } else {
            None
        }
    }
}

/// The printed form of an integer reads back as the same integer.
pub proof fn lemma_dec_int_round_trip(n: int)
    ensures
        int_text_value(dec_int(n)) == Some(n),
{
    if n < 0 {
        lemma_dec_nat_round_trip((-n) as nat);
        lemma_dec_nat_canonical((-n) as nat);
        let s = dec_int(n);
        assert(s[0] == '-');
        assert(s.subrange(1, s.len() as int) =~= dec_nat((-n) as nat));
        assert(nat_of_digits(dec_nat((-n) as nat)) == (-n) as nat);
        assert(s.len() >= 1);
    } else {
        lemma_dec_nat_round_trip(n as nat);
        lemma_dec_nat_canonical(n as nat);
        let s = dec_int(n);
        assert(s == dec_nat(n as nat));
        assert(s[0] != '-') by {
            lemma_dec_nat_first_digit(n as nat);
        }
    }
}

proof fn lemma_dec_nat_first_digit(n: nat)
    ensures
        dec_nat(n).len() >= 1,
        is_digit(dec_nat(n)[0]),
        n >= 1 ==> dec_nat(n)[0] != '0',
        n < 10 ==> dec_nat(n) == seq![digit_char(n)],
    decreases n,
{
    if n >= 10 {
        lemma_dec_nat_first_digit(n / 10);
        assert(dec_nat(n)[0] == dec_nat(n / 10)[0]);
    }
}

proof fn lemma_dec_nat_canonical(n: nat)
    ensures
        canonical_digits(dec_nat(n)),
    decreases n,
{
    lemma_dec_nat_first_digit(n);
    if n < 10 {
        assert(canonical_digits(dec_nat(n)));
    } else {
        lemma_dec_nat_canonical(n / 10);
        let s = dec_nat(n);
        let p = dec_nat(n / 10);
        assert(s == p + seq![digit_char(n % 10)]);
        assert(forall|i: int| 0 <= i < s.len() ==> is_digit(#[trigger] s[i])) by {
            assert(forall|i: int| 0 <= i < p.len() ==> s[i] == p[i]);
            assert(s[s.len() - 1] == digit_char(n % 10));
            assert(is_digit(digit_char(n % 10)));
        }
        assert(s[0] == p[0]);
        assert(s[0] != '0');
    }
}

proof fn lemma_dec_nat_round_trip(n: nat)
    ensures
        nat_of_digits(dec_nat(n)) == n,
    decreases n,
{
    if n < 10 {
        assert(dec_nat(n) == seq![digit_char(n)]);
        assert(dec_nat(n).drop_last() =~= Seq::<char>::empty());
        assert(nat_of_digits(Seq::<char>::empty()) == 0);
        assert(dec_nat(n).last() == digit_char(n));
        assert(digit_val(digit_char(n)) == n);
    } else {
        lemma_dec_nat_round_trip(n / 10);
        let s = dec_nat(n);
        assert(s.drop_last() =~= dec_nat(n / 10));
        assert(s.last() == digit_char(n % 10));
        assert(digit_val(digit_char(n % 10)) == n % 10);
    }
}

} // verus!
