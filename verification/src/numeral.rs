//! Decimal numerals for the wire format: rendering a signed fixed-point
//! value as text and parsing it back, with a proved round trip.

use vstd::prelude::*;

verus! {

/// The character for one decimal digit.
pub open spec fn spec_digit_char(d: nat) -> char {
    if d == 0 {
        '0'
    } else if d == 1 {
        '1'
    } else if d == 2 {
        '2'
    } else if d == 3 {
        '3'
    } else if d == 4 {
        '4'
    } else if d == 5 {
        '5'
    } else if d == 6 {
        '6'
    } else if d == 7 {
        '7'
    } else if d == 8 {
        '8'
    } else {
        '9'
    }
}

pub open spec fn spec_is_digit(c: char) -> bool {
    c == '0' || c == '1' || c == '2' || c == '3' || c == '4' || c == '5' || c == '6' || c == '7'
        || c == '8' || c == '9'
}

/// The numeric value of one digit character.
pub open spec fn spec_char_digit(c: char) -> nat {
    if c == '0' {
        0
    } else if c == '1' {
        1
    } else if c == '2' {
        2
    } else if c == '3' {
        3
    } else if c == '4' {
        4
    } else if c == '5' {
        5
    } else if c == '6' {
        6
    } else if c == '7' {
        7
    } else if c == '8' {
        8
    } else {
        9
    }
}

/// The canonical decimal numeral of a natural number: no sign, no
/// leading zero (except for the single digit of zero itself).
pub open spec fn spec_u64_string(n: nat) -> Seq<char>
    decreases n,
{
    if n < 10 {
        seq![spec_digit_char(n)]
    } else {
        spec_u64_string(n / 10).push(spec_digit_char(n % 10))
    }
}

/// The value of a digit string, most significant digit first.
pub open spec fn spec_digits_val(s: Seq<char>) -> nat
    decreases s.len(),
{
    if s.len() == 0 {
        0
    } else {
        spec_digits_val(s.drop_last()) * 10 + spec_char_digit(s.last())
    }
}

pub open spec fn spec_pow10(k: nat) -> nat
    decreases k,
{
    if k == 0 {
        1
    } else {
        10 * spec_pow10((k - 1) as nat)
    }
}

/// A digit string the parser accepts: one to nineteen digits and no
/// leading zero. Every magnitude of an `i64` renders inside this shape.
pub open spec fn spec_canon_digits(s: Seq<char>) -> bool {
    1 <= s.len() <= 19 && (forall|i: int| 0 <= i < s.len() ==> spec_is_digit(s[i])) && (s.len() > 1
        ==> s[0] != '0')
}

/// The canonical numeral of a signed value: a minus sign on negative
/// values, followed by the numeral of the magnitude.
pub open spec fn spec_i64_string(v: i64) -> Seq<char> {
    if v < 0 {
        seq!['-'] + spec_u64_string((-(v as int)) as nat)
    } else {
        spec_u64_string(v as nat)
    }
}

/// What the parser makes of a character sequence: the value of a
/// canonical signed numeral in `i64` range, or nothing.
pub open spec fn spec_parse_i64(s: Seq<char>) -> Option<i64> {
    if s.len() > 0 && s[0] == '-' {
        let t = s.skip(1);
        if spec_canon_digits(t) && 1 <= spec_digits_val(t) <= 0x8000000000000000 {
            Option::Some((-(spec_digits_val(t) as int)) as i64)
        } else {
            Option::None
        }
    } else if spec_canon_digits(s) && spec_digits_val(s) <= 0x7fffffffffffffff {
        Option::Some(spec_digits_val(s) as i64)
    } else {
        Option::None
    }
}

proof fn lemma_pow10_mono(a: nat, b: nat)
    requires
        a <= b,
    ensures
        spec_pow10(a) <= spec_pow10(b),
    decreases b,
{
    if a < b {
        lemma_pow10_mono(a, (b - 1) as nat);
    }
}

/// The canonical numeral of `n` is made of digits, has no leading zero,
/// and evaluates back to `n`.
proof fn lemma_u64_string_canon(n: nat)
    ensures
        spec_u64_string(n).len() >= 1,
        forall|i: int| 0 <= i < spec_u64_string(n).len() ==> spec_is_digit(spec_u64_string(n)[i]),
        spec_u64_string(n).len() > 1 ==> spec_u64_string(n)[0] != '0',
        spec_digits_val(spec_u64_string(n)) == n,
        n > 0 ==> spec_u64_string(n)[0] != '0',
    decreases n,
{
    if n < 10 {
        let w = seq![spec_digit_char(n)];
        assert(w.drop_last() =~= Seq::<char>::empty());
        assert(spec_digits_val(w.drop_last()) == 0);
        assert(spec_digits_val(w) == spec_char_digit(spec_digit_char(n)));
        assert(spec_char_digit(spec_digit_char(n)) == n);
    } else {
        lemma_u64_string_canon(n / 10);
        let s = spec_u64_string(n / 10);
        let w = s.push(spec_digit_char(n % 10));
        assert(w.drop_last() =~= s);
        assert(w.last() == spec_digit_char(n % 10));
        assert(spec_digits_val(w) == spec_digits_val(s) * 10 + spec_char_digit(
            spec_digit_char(n % 10),
        ));
        assert(spec_char_digit(spec_digit_char(n % 10)) == n % 10);
        assert(spec_digits_val(w) == (n / 10) * 10 + n % 10);
        assert((n / 10) * 10 + n % 10 == n) by (nonlinear_arith);
        assert(w[0] == s[0]);
    }
}

/// The canonical numeral grows one digit per factor of ten: a value
/// below ten to the `k` renders in at most `k` digits.
proof fn lemma_u64_string_len(n: nat, k: nat)
    requires
        k >= 1,
        n < spec_pow10(k),
    ensures
        spec_u64_string(n).len() <= k,
    decreases n,
{
    if n >= 10 {
        assert(spec_pow10(k) == 10 * spec_pow10((k - 1) as nat));
        assert(n / 10 < spec_pow10((k - 1) as nat)) by (nonlinear_arith)
            requires
                n < 10 * spec_pow10((k - 1) as nat),
        ;
        if k == 1 {
            assert(spec_pow10(1nat) == 10);
            assert(false);
        }
        lemma_u64_string_len(n / 10, (k - 1) as nat);
    }
}

proof fn lemma_pow10_19()
    ensures
        spec_pow10(19) == 10_000_000_000_000_000_000,
{
    assert(spec_pow10(0) == 1);
    assert(spec_pow10(1) == 10);
    assert(spec_pow10(2) == 100);
    assert(spec_pow10(3) == 1_000);
    assert(spec_pow10(4) == 10_000);
    assert(spec_pow10(5) == 100_000);
    assert(spec_pow10(6) == 1_000_000);
    assert(spec_pow10(7) == 10_000_000);
    assert(spec_pow10(8) == 100_000_000);
    assert(spec_pow10(9) == 1_000_000_000);
    assert(spec_pow10(10) == 10_000_000_000);
    assert(spec_pow10(11) == 100_000_000_000);
    assert(spec_pow10(12) == 1_000_000_000_000);
    assert(spec_pow10(13) == 10_000_000_000_000);
    assert(spec_pow10(14) == 100_000_000_000_000);
    assert(spec_pow10(15) == 1_000_000_000_000_000);
    assert(spec_pow10(16) == 10_000_000_000_000_000);
    assert(spec_pow10(17) == 100_000_000_000_000_000);
    assert(spec_pow10(18) == 1_000_000_000_000_000_000);
}

/// A rendered numeral is never empty.
pub proof fn lemma_i64_string_nonempty(v: i64)
    ensures
        spec_i64_string(v).len() >= 1,
{
    if v < 0 {
        lemma_u64_string_canon((-(v as int)) as nat);
    } else {
        lemma_u64_string_canon(v as nat);
    }
}

/// Round trip of the signed numeral: parsing what was rendered gives
/// the value back.
pub proof fn lemma_i64_numeral_round_trip(v: i64)
    ensures
        spec_parse_i64(spec_i64_string(v)) == Option::Some(v),
{
    lemma_pow10_19();
    if v < 0 {
        let mag = (-(v as int)) as nat;
        lemma_u64_string_canon(mag);
        lemma_u64_string_len(mag, 19);
        let s = seq!['-'] + spec_u64_string(mag);
        assert(s[0] == '-');
        assert(s.skip(1) =~= spec_u64_string(mag));
        assert(spec_canon_digits(spec_u64_string(mag)));
        assert(1 <= spec_digits_val(spec_u64_string(mag)) <= 0x8000000000000000);
        assert((-(mag as int)) as i64 == v);
    } else {
        let mag = v as nat;
        lemma_u64_string_canon(mag);
        lemma_u64_string_len(mag, 19);
        let s = spec_u64_string(mag);
        assert(spec_is_digit(s[0]));
        assert(s[0] != '-');
        assert(spec_canon_digits(s));
    }
}

/// One digit as a string slice.
pub(crate) fn digit_str(d: u64) -> (r: &'static str)
    requires
        d < 10,
    ensures
        r@ =~= seq![spec_digit_char(d as nat)],
{
    proof {
        reveal_strlit("0");
        reveal_strlit("1");
        reveal_strlit("2");
        reveal_strlit("3");
        reveal_strlit("4");
        reveal_strlit("5");
        reveal_strlit("6");
        reveal_strlit("7");
        reveal_strlit("8");
        reveal_strlit("9");
    }
    match d {
        0 => "0",
        1 => "1",
        2 => "2",
        3 => "3",
        4 => "4",
        5 => "5",
        6 => "6",
        7 => "7",
        8 => "8",
        _ => "9",
    }
}

/// Renders an unsigned value as its canonical decimal numeral.
pub fn u64_string(n: u64) -> (r: String)
    ensures
        r@ == spec_u64_string(n as nat),
    decreases n,
{
    if n < 10 {
        String::from_str(digit_str(n))
    } else {
        let mut s = u64_string(n / 10);
        s.append(digit_str(n % 10));
        proof {
            assert(s@ =~= spec_u64_string(n as nat));
        }
        s
    }
}

/// Renders a signed value as its canonical decimal numeral.
pub fn i64_string(v: i64) -> (r: String)
    ensures
        r@ == spec_i64_string(v),
{
    if v >= 0 {
        u64_string(v as u64)
    } else {
        let mag: u64 = if v == i64::MIN {
            0x8000000000000000u64
        } else {
            (-v) as u64
        };
        let mut s = String::new();
        proof {
            reveal_strlit("-");
        }
        s.append("-");
        let digits = u64_string(mag);
        s.append(digits.as_str());
        proof {
            assert(s@ =~= spec_i64_string(v));
        }
        s
    }
}

/// The fractional digits of a fixed-point value, thousandths trimmed of
/// trailing zeros: 500 reads ".5", 550 ".55", 55 ".055".
pub open spec fn spec_frac_digits(f: nat) -> Seq<char> {
    let h = spec_digit_char(f / 100);
    let t = spec_digit_char((f / 10) % 10);
    let o = spec_digit_char(f % 10);
    if f % 10 != 0 {
        seq![h, t, o]
    } else if (f / 10) % 10 != 0 {
        seq![h, t]
    } else {
        seq![h]
    }
}

/// A fixed-point value in thousandths, rendered the way a plain decimal
/// reads: whole part, and a fractional part only where it is non-zero.
pub open spec fn spec_milli_string(v: i64) -> Seq<char> {
    let mag = if v < 0 {
        -(v as int)
    } else {
        v as int
    };
    let sign: Seq<char> = if v < 0 {
        seq!['-']
    } else {
        Seq::empty()
    };
    let frac: Seq<char> = if mag % 1000 == 0 {
        Seq::empty()
    } else {
        seq!['.'] + spec_frac_digits((mag % 1000) as nat)
    };
    sign + spec_u64_string((mag / 1000) as nat) + frac
}

/// Renders a fixed-point value held in thousandths.
pub fn milli_string(v: i64) -> (r: String)
    ensures
        r@ == spec_milli_string(v),
{
    let mag: u64 = if v == i64::MIN {
        0x8000000000000000u64
    } else if v < 0 {
        (-v) as u64
    } else {
        v as u64
    };
    let mut s = String::new();
    proof {
        reveal_strlit("-");
        reveal_strlit(".");
    }
    if v < 0 {
        s.append("-");
    }
    let whole = u64_string(mag / 1000);
    s.append(whole.as_str());
    let f = mag % 1000;
    if f > 0 {
        s.append(".");
        s.append(digit_str(f / 100));
        if f % 10 != 0 {
            s.append(digit_str((f / 10) % 10));
            s.append(digit_str(f % 10));
        } else if (f / 10) % 10 != 0 {
            s.append(digit_str((f / 10) % 10));
        }
    }
    proof {
        assert(s@ =~= spec_milli_string(v));
    }
    s
}

/// The numeric value of one digit character, or nothing.
fn char_digit(c: char) -> (r: Option<u64>)
    ensures
        match r {
            Option::Some(d) => spec_is_digit(c) && d == spec_char_digit(c) && d < 10,
            Option::None => !spec_is_digit(c),
        },
{
    match c {
        '0' => Some(0),
        '1' => Some(1),
        '2' => Some(2),
        '3' => Some(3),
        '4' => Some(4),
        '5' => Some(5),
        '6' => Some(6),
        '7' => Some(7),
        '8' => Some(8),
        '9' => Some(9),
        _ => None,
    }
}

/// Parses a canonical signed decimal numeral; rejects everything else.
pub fn parse_i64(s: &str) -> (r: Option<i64>)
    ensures
        r == spec_parse_i64(s@),
{
    let n = s.unicode_len();
    if n == 0 {
        return None;
    }
    let neg = s.get_char(0) == '-';
    let start: usize = if neg {
        1
    } else {
        0
    };
    let len = n - start;
    if len < 1 || len > 19 {
        return None;
    }
    if len > 1 && s.get_char(start) == '0' {
        proof {
            if !neg {
                assert(!spec_canon_digits(s@));
            } else {
                assert(s@.skip(1)[0] == s@[1]);
                assert(!spec_canon_digits(s@.skip(1)));
            }
        }
        return None;
    }
    let ghost digits: Seq<char> = if neg {
        s@.skip(1)
    } else {
        s@
    };
    let mut acc: u64 = 0;
    let mut i: usize = start;
    while i < n
        invariant
            start <= i <= n,
            1 <= n == s@.len(),
            neg == (s@[0] == '-'),
            start == if neg {
                1int
            } else {
                0int
            },
            digits == if neg {
                s@.skip(1)
            } else {
                s@
            },
            1 <= n - start <= 19,
            acc == spec_digits_val(s@.subrange(start as int, i as int)),
            acc < spec_pow10((i - start) as nat),
            forall|j: int| start <= j < i ==> spec_is_digit(s@[j]),
        decreases n - i,
    {
        let c = s.get_char(i);
        match char_digit(c) {
            None => {
                proof {
                    assert(digits =~= s@.subrange(start as int, n as int));
                    assert(digits[i - start] == s@[i as int]);
                    assert(!spec_canon_digits(digits));
                }
                return None;
            },
            Some(d) => {
                proof {
                    lemma_pow10_mono(((i - start) as nat) + 1, 19);
                    lemma_pow10_19();
                    assert(spec_pow10(((i - start) as nat) + 1) == 10 * spec_pow10(
                        (i - start) as nat,
                    ));
                    assert(acc * 10 + d < spec_pow10(((i - start) as nat) + 1)) by (nonlinear_arith)
                        requires
                            acc < spec_pow10((i - start) as nat),
                            d < 10,
                            spec_pow10(((i - start) as nat) + 1) == 10 * spec_pow10(
                                (i - start) as nat,
                            ),
                    ;
                    let pre = s@.subrange(start as int, i as int);
                    let post = s@.subrange(start as int, i as int + 1);
                    assert(post.drop_last() =~= pre);
                    assert(post.last() == s@[i as int]);
                }
                acc = acc * 10 + d;
            },
        }
        i += 1;
    }
    proof {
        assert(s@.subrange(start as int, n as int) =~= digits);
        assert(spec_canon_digits(digits)) by {
            assert(forall|j: int| 0 <= j < digits.len() ==> digits[j] == s@[j + start]);
            if digits.len() > 1 {
                assert(digits[0] == s@[start as int]);
            }
        }
    }
    if neg {
        if acc == 0 {
            return None;
        }
        if acc <= 0x8000000000000000u64 {
            let out = if acc == 0x8000000000000000u64 {
                i64::MIN
            } else {
                -(acc as i64)
            };
            Some(out)
        } else {
            None
        }
    } else {
        if acc <= 0x7fffffffffffffffu64 {
            Some(acc as i64)
        } else {
            None
        }
    }
}

} // verus!
