//! Reading and writing numbers as text: unsigned integers in a given radix
//! (as `from_str_radix` reads them) and fixed-point values in
//! ten-thousandths written with a decimal point ("0.75", "2", "2.0").
use vstd::prelude::*;
use crate::text::{decimal, decimal_digit, hex_digit, hexadecimal, push_decimal};

verus! {

/// Value of `c` as a digit in base `radix` (letters of either case stand for
/// 10 and up), if it is one.
pub open spec fn char_digit(c: char, radix: int) -> Option<int> {
    let v = c as int;
    let d: int = if 48 <= v <= 57 {
        v - 48
    } else if 97 <= v <= 122 {
        v - 87
    } else if 65 <= v <= 90 {
        v - 55
    } else {
        radix
    };
    if d < radix {
        Some(d)
    } else {
        None
    }
}

/// `s` is not empty and each of its characters is a digit in base `radix`.
pub open spec fn all_digits(s: Seq<char>, radix: int) -> bool {
    s.len() > 0 && forall|i: int| 0 <= i < s.len() ==> #[trigger] char_digit(s[i], radix) is Some
}

/// The value of the digits `s` in base `radix`.
pub open spec fn radix_value(s: Seq<char>, radix: int) -> int
    decreases s.len(),
{
    if s.len() == 0 {
        0
    } else {
        radix_value(s.drop_last(), radix) * radix + match char_digit(s.last(), radix) {
            Some(d) => d,
            None => 0,
        }
    }
}

/// The digits of an unsigned number: `s` without a leading '+'.
pub open spec fn unsigned_digits(s: Seq<char>) -> Seq<char> {
    if s.len() > 0 && s[0] == '+' {
        s.drop_first()
    } else {
        s
    }
}

/// The unsigned number written `s` in base `radix`, with an optional leading
/// '+', if it is at most `max`.
pub open spec fn parse_unsigned(s: Seq<char>, radix: int, max: int) -> Option<int> {
    let d = unsigned_digits(s);
    if all_digits(d, radix) && radix_value(d, radix) <= max {
        Some(radix_value(d, radix))
    } else {
        None
    }
}

/// The decimal places of `f` (1 to 9999 ten-thousandths): four digits with
/// the trailing zeros left out.
pub open spec fn fraction_text(f: nat) -> Seq<char> {
    if f % 1000 == 0 {
        seq![decimal_digit(f / 1000)]
    } else if f % 100 == 0 {
        seq![decimal_digit(f / 1000), decimal_digit(f / 100 % 10)]
    } else if f % 10 == 0 {
        seq![decimal_digit(f / 1000), decimal_digit(f / 100 % 10), decimal_digit(f / 10 % 10)]
    } else {
        seq![
            decimal_digit(f / 1000),
            decimal_digit(f / 100 % 10),
            decimal_digit(f / 10 % 10),
            decimal_digit(f % 10),
        ]
    }
}

/// A value in ten-thousandths written in decimal: the whole part, then a
/// point and the decimal places without trailing zeros. A whole value has no
/// point, or ".0" when `point` is set ("2" or "2.0").
pub open spec fn fixed_text(v: nat, point: bool) -> Seq<char> {
    decimal(v / 10000) + if v % 10000 == 0 {
        if point {
            seq!['.', '0']
        } else {
            Seq::<char>::empty()
        }
    } else {
        seq!['.'] + fraction_text(v % 10000)
    }
}

/// What one unit of the last of `n` decimal places is worth, in
/// ten-thousandths.
pub open spec fn place_value(n: int) -> int {
    if n == 1 {
        1000
    } else if n == 2 {
        100
    } else if n == 3 {
        10
    } else {
        1
    }
}

/// `s` has a point at `i`.
pub open spec fn point_at(s: Seq<char>, i: int) -> bool {
    0 <= i < s.len() && s[i] == '.'
}

/// The value in ten-thousandths written `s`: decimal digits, optionally
/// followed by a point and one to four decimal places; `None` when `s` is
/// not of that form or the value exceeds `u32::MAX`.
pub open spec fn parse_fixed(s: Seq<char>) -> Option<int> {
    if all_digits(s, 10) {
        if radix_value(s, 10) * 10000 <= u32::MAX {
            Some(radix_value(s, 10) * 10000)
        } else {
            None
        }
    } else if exists|i: int| point_at(s, i) {
        let i = choose|i: int| point_at(s, i);
        let w = s.subrange(0, i);
        let f = s.subrange(i + 1, s.len() as int);
        let v = radix_value(w, 10) * 10000 + radix_value(f, 10) * place_value(f.len() as int);
        if all_digits(w, 10) && all_digits(f, 10) && f.len() <= 4 && v <= u32::MAX {
            Some(v)
        } else {
            None
        }
    } else {
        None
    }
}

/// Digit values are below the radix and values are not negative; a prefix
/// of digits is worth no more than the whole.
pub proof fn lemma_radix_value_grows(s: Seq<char>, radix: int, k: int)
    requires
        radix >= 1,
        0 <= k <= s.len(),
    ensures
        0 <= radix_value(s.take(k), radix) <= radix_value(s, radix),
    decreases s.len(),
{
    if s.len() == 0 {
        assert(s.take(k) =~= s);
    } else if k == s.len() {
        assert(s.take(k) =~= s);
        lemma_radix_value_grows(s.drop_last(), radix, 0);
        assert(s.drop_last().take(0) =~= s.take(0));
        assert(radix_value(s.drop_last(), radix) * radix >= 0) by (nonlinear_arith)
            requires
                radix_value(s.drop_last(), radix) >= 0,
                radix >= 1,
        ;
    } else {
        lemma_radix_value_grows(s.drop_last(), radix, k);
        assert(s.drop_last().take(k) =~= s.take(k));
        let x = radix_value(s.drop_last(), radix);
        assert(x * radix >= x) by (nonlinear_arith)
            requires
                x >= 0,
                radix >= 1,
        ;
    }
}

/// The character of a decimal digit reads back as that digit.
proof fn lemma_digit_value(d: nat)
    requires
        d < 10,
    ensures
        char_digit(decimal_digit(d), 10) == Some(d as int),
        decimal_digit(d) != '+',
        decimal_digit(d) != '.',
        decimal_digit(d) != ':',
{
    assert((d + 48) as char as int == d + 48);
}

/// The character of a hexadecimal digit reads back as that digit.
proof fn lemma_hex_digit_value(d: nat)
    requires
        d < 16,
    ensures
        char_digit(hex_digit(d), 16) == Some(d as int),
        hex_digit(d) != '+',
        hex_digit(d) != ':',
{
    if d < 10 {
        assert((d + 48) as char as int == d + 48);
    } else {
        assert((d + 87) as char as int == d + 87);
    }
}

/// Appending a character adds it as the last digit.
proof fn lemma_value_push(s: Seq<char>, c: char, radix: int)
    ensures
        radix_value(s.push(c), radix) == radix_value(s, radix) * radix + match char_digit(c, radix) {
            Some(d) => d,
            None => 0,
        },
{
    assert(s.push(c).drop_last() =~= s);
}

/// The decimal rendering of `n` is made of digits and is worth `n`.
pub proof fn lemma_decimal_value(n: nat)
    ensures
        all_digits(decimal(n), 10),
        radix_value(decimal(n), 10) == n,
        decimal(n)[0] != '+',
        forall|i: int| 0 <= i < decimal(n).len() ==> decimal(n)[i] != ':',
    decreases n,
{
    lemma_digit_value(n % 10);
    if n < 10 {
        lemma_value_push(Seq::<char>::empty(), decimal_digit(n), 10);
        assert(seq![decimal_digit(n)] =~= Seq::<char>::empty().push(decimal_digit(n)));
    } else {
        lemma_decimal_value(n / 10);
        let s = decimal(n);
        lemma_value_push(decimal(n / 10), decimal_digit(n % 10), 10);
        assert forall|i: int| 0 <= i < s.len() implies #[trigger] char_digit(s[i], 10) is Some
            && s[i] != ':' by {
            if i < s.len() - 1 {
                assert(s[i] == decimal(n / 10)[i]);
            }
        }
        assert(s[0] == decimal(n / 10)[0]);
    }
}

/// The hexadecimal rendering of `n` is made of base-16 digits and is worth
/// `n`.
pub proof fn lemma_hexadecimal_value(n: nat)
    ensures
        all_digits(hexadecimal(n), 16),
        radix_value(hexadecimal(n), 16) == n,
        hexadecimal(n)[0] != '+',
        forall|i: int| 0 <= i < hexadecimal(n).len() ==> hexadecimal(n)[i] != ':',
    decreases n,
{
    lemma_hex_digit_value(n % 16);
    if n < 16 {
        lemma_value_push(Seq::<char>::empty(), hex_digit(n), 16);
        assert(seq![hex_digit(n)] =~= Seq::<char>::empty().push(hex_digit(n)));
    } else {
        lemma_hexadecimal_value(n / 16);
        let s = hexadecimal(n);
        lemma_value_push(hexadecimal(n / 16), hex_digit(n % 16), 16);
        assert forall|i: int| 0 <= i < s.len() implies #[trigger] char_digit(s[i], 16) is Some
            && s[i] != ':' by {
            if i < s.len() - 1 {
                assert(s[i] == hexadecimal(n / 16)[i]);
            }
        }
        assert(s[0] == hexadecimal(n / 16)[0]);
    }
}

/// A number written in hexadecimal reads back as itself.
pub proof fn lemma_parse_hexadecimal(n: u64)
    ensures
        parse_unsigned(hexadecimal(n as nat), 16, u64::MAX as int) == Some(n as int),
{
    lemma_hexadecimal_value(n as nat);
    assert(unsigned_digits(hexadecimal(n as nat)) == hexadecimal(n as nat));
}

/// A number written in decimal reads back as itself.
pub proof fn lemma_parse_decimal(n: u32)
    ensures
        parse_unsigned(decimal(n as nat), 10, u32::MAX as int) == Some(n as int),
{
    lemma_decimal_value(n as nat);
    assert(unsigned_digits(decimal(n as nat)) == decimal(n as nat));
}

/// The decimal places of `f` are digits worth `f`.
proof fn lemma_fraction_value(f: nat)
    requires
        0 < f < 10000,
    ensures
        all_digits(fraction_text(f), 10),
        1 <= fraction_text(f).len() <= 4,
        radix_value(fraction_text(f), 10) * place_value(fraction_text(f).len() as int) == f,
        forall|i: int| 0 <= i < fraction_text(f).len() ==> fraction_text(f)[i] != '.',
{
    let t = fraction_text(f);
    let a = f / 1000;
    let b = f / 100 % 10;
    let c = f / 10 % 10;
    let d = f % 10;
    assert(f == a * 1000 + b * 100 + c * 10 + d && a < 10 && b < 10 && c < 10 && d < 10
        && f % 1000 == b * 100 + c * 10 + d && f % 100 == c * 10 + d) by (nonlinear_arith)
        requires
            0 < f < 10000,
            a == f / 1000,
            b == f / 100 % 10,
            c == f / 10 % 10,
            d == f % 10,
    ;
    lemma_digit_value(a);
    lemma_digit_value(b);
    lemma_digit_value(c);
    lemma_digit_value(d);
    let e = Seq::<char>::empty();
    let t1 = e.push(decimal_digit(a));
    let t2 = t1.push(decimal_digit(b));
    let t3 = t2.push(decimal_digit(c));
    let t4 = t3.push(decimal_digit(d));
    lemma_value_push(e, decimal_digit(a), 10);
    lemma_value_push(t1, decimal_digit(b), 10);
    lemma_value_push(t2, decimal_digit(c), 10);
    lemma_value_push(t3, decimal_digit(d), 10);
    if f % 1000 == 0 {
        assert(t =~= t1);
    } else if f % 100 == 0 {
        assert(t =~= t2);
    } else if f % 10 == 0 {
        assert(t =~= t3);
    } else {
        assert(t =~= t4);
    }
}

/// The point in `s` at `i` is its only one when the parts before and after
/// it are digits.
proof fn lemma_single_point(s: Seq<char>, i: int)
    requires
        point_at(s, i),
        all_digits(s.subrange(0, i), 10) || i == 0,
        all_digits(s.subrange(i + 1, s.len() as int), 10),
    ensures
        forall|j: int| #[trigger] point_at(s, j) ==> j == i,
        !all_digits(s, 10),
{
    assert forall|j: int| #[trigger] point_at(s, j) implies j == i by {
        if j < i {
            assert(s.subrange(0, i)[j] == s[j]);
        }
        if j > i {
            assert(s.subrange(i + 1, s.len() as int)[j - i - 1] == s[j]);
        }
    }
    assert(char_digit(s[i], 10) is None);
}

/// A fixed-point value written out reads back as itself.
pub proof fn lemma_parse_fixed(v: u32, point: bool)
    ensures
        parse_fixed(fixed_text(v as nat, point)) == Some(v as int),
{
    let q = (v / 10000) as nat;
    let r = (v % 10000) as nat;
    assert(v == q * 10000 + r && q <= 429496) by (nonlinear_arith)
        requires
            q == v / 10000,
            r == v % 10000,
            v <= 4294967295,
    ;
    lemma_decimal_value(q);
    let w = decimal(q);
    let s = fixed_text(v as nat, point);
    if r == 0 && !point {
        assert(s =~= w);
    } else {
        let f = if r == 0 {
            seq!['0']
        } else {
            fraction_text(r)
        };
        if r == 0 {
            lemma_digit_value(0);
            assert(decimal_digit(0) == '0');
            lemma_value_push(Seq::<char>::empty(), '0', 10);
            assert(f =~= Seq::<char>::empty().push('0'));
            assert(all_digits(f, 10));
        } else {
            lemma_fraction_value(r);
        }
        assert(s =~= w + seq!['.'] + f);
        let i = w.len() as int;
        assert(s.subrange(0, i) =~= w);
        assert(s.subrange(i + 1, s.len() as int) =~= f);
        lemma_single_point(s, i);
        assert(point_at(s, i));
        let k = choose|k: int| point_at(s, k);
        assert(k == i);
    }
}

/// A fixed-point value written out has no ':'.
pub proof fn lemma_fixed_text_plain(v: nat, point: bool)
    ensures
        forall|i: int| 0 <= i < fixed_text(v, point).len() ==> fixed_text(v, point)[i] != ':',
{
    let w = decimal(v / 10000);
    lemma_decimal_value(v / 10000);
    let t = fixed_text(v, point);
    let r = v % 10000;
    if r != 0 {
        lemma_fraction_value(r);
    }
    assert forall|i: int| 0 <= i < t.len() implies t[i] != ':' by {
        if i < w.len() {
            assert(t[i] == w[i]);
        } else if i > w.len() && r != 0 {
            assert(t[i] == fraction_text(r)[i - w.len() - 1]);
            assert(char_digit(fraction_text(r)[i - w.len() - 1], 10) is Some);
        }
    }
}

/// Up to four decimal digits are worth less than 10000.
proof fn lemma_decimal_bound(s: Seq<char>)
    requires
        s.len() <= 4,
        forall|i: int| 0 <= i < s.len() ==> #[trigger] char_digit(s[i], 10) is Some,
    ensures
        radix_value(s, 10) < if s.len() == 0 {
            1int
        } else if s.len() == 1 {
            10int
        } else if s.len() == 2 {
            100int
        } else if s.len() == 3 {
            1000int
        } else {
            10000int
        },
    decreases s.len(),
{
    if s.len() > 0 {
        let t = s.drop_last();
        assert forall|i: int| 0 <= i < t.len() implies #[trigger] char_digit(t[i], 10) is Some by {
            assert(t[i] == s[i]);
        }
        lemma_decimal_bound(t);
        assert(char_digit(s.last(), 10) is Some);
    }
}

/// Value of `c` as a digit in base `radix`.
fn digit_of(c: char, radix: u32) -> (r: Option<u32>)
    ensures
        match r {
            Some(d) => char_digit(c, radix as int) == Some(d as int),
            None => char_digit(c, radix as int) is None,
        },
{
    let v = c as u32;
    let d: u32 = if 48 <= v && v <= 57 {
        v - 48
    } else if 97 <= v && v <= 122 {
        v - 87
    } else if 65 <= v && v <= 90 {
        v - 55
    } else {
        radix
    };
    if d < radix {
        Some(d)
    } else {
        None
    }
}

/// The value of the digits `s[start..end]` in base `radix`, if they are all
/// digits and the value is at most `max`.
fn digits_value(s: &Vec<char>, start: usize, end: usize, radix: u32, max: u64) -> (r: Option<u64>)
    requires
        2 <= radix <= 36,
        start <= end <= s@.len(),
    ensures
        match r {
            Some(x) => all_digits(s@.subrange(start as int, end as int), radix as int)
                && radix_value(s@.subrange(start as int, end as int), radix as int) == x
                && x <= max,
            None => !(all_digits(s@.subrange(start as int, end as int), radix as int)
                && radix_value(s@.subrange(start as int, end as int), radix as int) <= max),
        },
{
    let ghost d = s@.subrange(start as int, end as int);
    if start == end {
        return None;
    }
    let mut acc: u128 = 0;
    let mut i: usize = start;
    while i < end
        invariant
            start <= i <= end <= s@.len(),
            2 <= radix <= 36,
            d == s@.subrange(start as int, end as int),
            acc == radix_value(s@.subrange(start as int, i as int), radix as int),
            acc <= max,
            forall|j: int| start <= j < i ==> #[trigger] char_digit(s@[j], radix as int) is Some,
        decreases end - i,
    {
        let t = Ghost(s@.subrange(start as int, i + 1));
        proof {
            assert(t@.drop_last() =~= s@.subrange(start as int, i as int));
            assert(t@.last() == s@[i as int]);
        }
        match digit_of(s[i], radix) {
            None => {
                proof {
                    assert(d[i - start] == s@[i as int]);
                }
                return None;
            },
            Some(v) => {
                proof {
                    assert(acc * radix <= 18446744073709551615u128 * 36) by (nonlinear_arith)
                        requires
                            acc <= 18446744073709551615u128,
                            radix <= 36,
                    ;
                }
                let next: u128 = acc * (radix as u128) + (v as u128);
                if next > max as u128 {
                    proof {
                        if all_digits(d, radix as int) {
                            assert(d.take(i + 1 - start) =~= t@);
                            lemma_radix_value_grows(d, radix as int, i + 1 - start);
                        }
                    }
                    return None;
                }
                acc = next;
            },
        }
        i = i + 1;
    }
    proof {
        assert forall|j: int| 0 <= j < d.len() implies #[trigger] char_digit(d[j], radix as int) is Some by {
            assert(d[j] == s@[start + j]);
        }
    }
    Some(acc as u64)
}

/// The unsigned number written in `s[start..end]` in base `radix`, with an
/// optional leading '+', if it is at most `max`.
pub fn parse_unsigned_chars(s: &Vec<char>, start: usize, end: usize, radix: u32, max: u64) -> (r:
    Option<u64>)
    requires
        2 <= radix <= 36,
        start <= end <= s@.len(),
    ensures
        match r {
            Some(x) => parse_unsigned(s@.subrange(start as int, end as int), radix as int, max as int)
                == Some(x as int),
            None => parse_unsigned(s@.subrange(start as int, end as int), radix as int, max as int)
                is None,
        },
{
    let ghost t = s@.subrange(start as int, end as int);
    if start < end && s[start] == '+' {
        proof {
            assert(unsigned_digits(t) =~= s@.subrange(start + 1, end as int));
        }
        digits_value(s, start + 1, end, radix, max)
    } else {
        proof {
            assert(unsigned_digits(t) =~= t);
        }
        digits_value(s, start, end, radix, max)
    }
}

/// The value in ten-thousandths written in `s[start..end]`, as
/// `parse_fixed` reads it.
pub fn parse_fixed_chars(s: &Vec<char>, start: usize, end: usize) -> (r: Option<u32>)
    requires
        start <= end <= s@.len(),
    ensures
        match r {
            Some(x) => parse_fixed(s@.subrange(start as int, end as int)) == Some(x as int),
            None => parse_fixed(s@.subrange(start as int, end as int)) is None,
        },
{
    let ghost t = s@.subrange(start as int, end as int);
    let mut i: usize = start;
    while i < end && s[i] != '.'
        invariant
            start <= i <= end <= s@.len(),
            t == s@.subrange(start as int, end as int),
            forall|j: int| start <= j < i ==> s@[j] != '.',
        decreases end - i,
    {
        i = i + 1;
    }
    if i == end {
        proof {
            assert forall|j: int| !point_at(t, j) by {
                if 0 <= j < t.len() {
                    assert(t[j] == s@[start + j]);
                }
            }
        }
        match digits_value(s, start, end, 10, 429496) {
            Some(w) => {
                return Some((w as u32) * 10000);
            },
            None => {
                proof {
                    if all_digits(t, 10) {
                        assert(radix_value(t, 10) > 429496);
                    }
                }
                return None;
            },
        }
    }
    let p = i;
    proof {
        assert(point_at(t, p - start));
        assert(char_digit(t[p - start], 10) is None);
        assert(t.subrange(0, p - start) =~= s@.subrange(start as int, p as int));
        assert(t.subrange(p - start + 1, t.len() as int) =~= s@.subrange(p + 1, end as int));
    }
    let n = end - (p + 1);
    if n == 0 || n > 4 {
        proof {
            let k = choose|k: int| point_at(t, k);
            if k > p - start {
                assert(t.subrange(0, k)[p - start] == t[p - start]);
            }
            if k < p - start {
                assert(t[k] == s@[start + k]);
            }
        }
        return None;
    }
    let whole = digits_value(s, start, p, 10, 429496);
    let frac = digits_value(s, p + 1, end, 10, 9999);
    match (whole, frac) {
        (Some(w), Some(f)) => {
            let scale: u64 = if n == 1 {
                1000
            } else if n == 2 {
                100
            } else if n == 3 {
                10
            } else {
                1
            };
            proof {
                let wt = s@.subrange(start as int, p as int);
                lemma_single_point(t, p - start);
            }
            let v: u64 = w * 10000 + f * scale;
            if v > 4294967295 {
                return None;
            }
            Some(v as u32)
        },
        _ => {
            proof {
                let wt = s@.subrange(start as int, p as int);
                let ft = s@.subrange(p + 1, end as int);
                let k = choose|k: int| point_at(t, k);
                if all_digits(wt, 10) && all_digits(ft, 10) {
                    lemma_single_point(t, p - start);
                    lemma_decimal_bound(ft);
                    lemma_radix_value_grows(ft, 10, 0);
                    lemma_radix_value_grows(wt, 10, 0);
                    assert(radix_value(wt, 10) > 429496);
                } else {
                    if k > p - start {
                        assert(t.subrange(0, k)[p - start] == t[p - start]);
                    }
                    if k < p - start {
                        assert(t[k] == s@[start + k]);
                    }
                }
            }
            None
        },
    }
}

/// Appends `fixed_text(v, point)` to `out`.
pub fn push_fixed(out: &mut Vec<char>, v: u32, point: bool)
    ensures
        final(out)@ == old(out)@ + fixed_text(v as nat, point),
{
    push_decimal(out, (v / 10000) as u64);
    let f = v % 10000;
    if f == 0 {
        if point {
            out.push('.');
            out.push('0');
        }
    } else {
        out.push('.');
        out.push(digit_char(f / 1000));
        if f % 1000 != 0 {
            out.push(digit_char(f / 100 % 10));
            if f % 100 != 0 {
                out.push(digit_char(f / 10 % 10));
                if f % 10 != 0 {
                    out.push(digit_char(f % 10));
                }
            }
        }
    }
    proof {
        assert(out@ =~= old(out)@ + fixed_text(v as nat, point));
    }
}

/// The character of decimal digit `d`.
pub(crate) fn digit_char(d: u32) -> (c: char)
    requires
        d < 10,
    ensures
        c == decimal_digit(d as nat),
{
    if d == 0 {
        '0'
    } else if d == 1 {
        '1'
    } else if d == 2 {
        '2'
    } else if d == 3 {
        '3'
    } else if d == 4 {
        '4'
    } else if d == 5 {
        '5'
    } else if d == 6 {
        '6'
    } else if d == 7 {
        '7'
    } else if d == 8 {
        '8'
    } else {
        '9'
    }
}

/// `r` is the integer square root of `x`: the largest number whose square
/// is at most `x`.
pub open spec fn is_isqrt(r: int, x: int) -> bool {
    0 <= r && r * r <= x < (r + 1) * (r + 1)
}

/// The integer square root of `x`.
pub fn isqrt(x: u128) -> (r: u64)
    ensures
        is_isqrt(r as int, x as int),
{
    let mut lo: u128 = 0;
    let mut hi: u128 = 0x1_0000_0000_0000_0000;
    proof {
        assert(hi * hi == 0x1_0000_0000_0000_0000_0000_0000_0000_0000int) by (nonlinear_arith)
            requires
                hi == 0x1_0000_0000_0000_0000int,
        ;
    }
    while hi - lo > 1
        invariant
            lo < hi <= 0x1_0000_0000_0000_0000u128,
            lo * lo <= x,
            x < hi * hi,
        decreases hi - lo,
    {
        let mid = lo + (hi - lo) / 2;
        proof {
            assert(mid * mid < 0x1_0000_0000_0000_0000_0000_0000_0000_0000int) by (nonlinear_arith)
                requires
                    mid < 0x1_0000_0000_0000_0000int,
            ;
        }
        if mid * mid <= x {
            lo = mid;
        } else {
            hi = mid;
        }
    }
    proof {
        assert(hi == lo + 1);
    }
    lo as u64
}

} // verus!
