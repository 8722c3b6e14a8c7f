//! Numbers as text: decimals, clock times and byte counts.
use vstd::prelude::*;
use vstd::string::*;
use crate::text;

verus! {

/// The character of a decimal digit.
pub open spec fn digit(d: nat) -> char {
    ((0x30 + d) as u32) as char
}

/// A number in decimal, without leading zeros.
pub open spec fn decimal(n: nat) -> Seq<char>
    decreases n,
{
    if n < 10 {
        seq![digit(n)]
    } else {
        decimal(n / 10).push(digit(n % 10))
    }
}

/// A whole number in decimal, with a minus sign where it is negative.
pub open spec fn signed_decimal(n: int) -> Seq<char> {
    if n < 0 {
        seq!['-'] + decimal((-n) as nat)
    } else {
        decimal(n as nat)
    }
}

/// A number below one hundred in two decimal digits.
pub open spec fn two_digits(n: nat) -> Seq<char> {
    seq![digit(n / 10), digit(n % 10)]
}

/// The time of day, in UTC, of a number of seconds since the Unix epoch: `HH:MM:SS`.
pub open spec fn clock_text(secs: nat) -> Seq<char> {
    two_digits((secs / 3600) % 24) + seq![':'] + two_digits((secs / 60) % 60) + seq![':']
        + two_digits(secs % 60)
}

fn digit_char(d: u64) -> (r: char)
    requires
        d < 10,
    ensures
        r == digit(d as nat),
{
    (0x30u8 + (d as u8)) as char
}

/// Writes a number in decimal.
pub fn decimal_text(n: u64) -> (r: String)
    ensures
        r@ == decimal(n as nat),
    decreases n,
{
    if n < 10 {
        let mut out = String::new();
        out.push(digit_char(n));
        assert(out@ =~= seq![digit(n as nat)]);
        out
    } else {
        let mut out = decimal_text(n / 10);
        out.push(digit_char(n % 10));
        out
    }
}

/// Writes a number of 128 bits in decimal.
pub fn wide_decimal_text(n: u128) -> (r: String)
    ensures
        r@ == decimal(n as nat),
    decreases n,
{
    if n < 10 {
        let mut out = String::new();
        out.push(digit_char(n as u64));
        assert(out@ =~= seq![digit(n as nat)]);
        out
    } else {
        let mut out = wide_decimal_text(n / 10);
        out.push(digit_char((n % 10) as u64));
        out
    }
}

/// Writes a whole number in decimal.
pub fn signed_text(n: i32) -> (r: String)
    ensures
        r@ == signed_decimal(n as int),
{
    if n < 0 {
        let mut out = String::new();
        out.push('-');
        let magnitude = decimal_text((-(n as i64)) as u64);
        out.append(magnitude.as_str());
        out
    } else {
        decimal_text(n as u64)
    }
}

fn push_two_digits(out: &mut String, n: u64)
    requires
        n < 100,
    ensures
        final(out)@ == old(out)@ + two_digits(n as nat),
{
    out.push(digit_char(n / 10));
    out.push(digit_char(n % 10));
    assert(out@ =~= old(out)@ + two_digits(n as nat));
}

/// Writes the time of day of a number of seconds since the Unix epoch.
pub fn hms_text(secs: u64) -> (r: String)
    ensures
        r@ == clock_text(secs as nat),
{
    let mut out = String::new();
    push_two_digits(&mut out, (secs / 3600) % 24);
    out.push(':');
    push_two_digits(&mut out, (secs / 60) % 60);
    out.push(':');
    push_two_digits(&mut out, secs % 60);
    assert(out@ =~= clock_text(secs as nat));
    out
}

pub const KIB: u64 = 1_024;

pub const MIB: u64 = 1_048_576;

pub const GIB: u64 = 1_073_741_824;

pub const TIB: u64 = 1_099_511_627_776;

/// `num / den` rounded to the nearest whole number; a tie goes to the even one.
pub open spec fn half_even(num: nat, den: nat) -> nat {
    let q = num / den;
    let r = num % den;
    if 2 * r < den || (2 * r == den && q % 2 == 0) {
        q
    } else {
        q + 1
    }
}

/// The distance between neighbouring double-precision numbers around `n`, for
/// whole numbers: 1 below 2^53, doubling with every further bit.
pub open spec fn double_step(n: nat) -> nat
    decreases n,
{
    if n < 0x20_0000_0000_0000 {
        1
    } else {
        2 * double_step(n / 2)
    }
}

/// The double-precision number that is nearest to `n`.
pub open spec fn nearest_double(n: nat) -> nat {
    half_even(n, double_step(n)) * double_step(n)
}

/// The binary unit that a byte count is written in.
pub open spec fn byte_unit(n: nat) -> (nat, Seq<char>) {
    if n >= TIB {
        (TIB as nat, "TiB"@)
    } else if n >= GIB {
        (GIB as nat, "GiB"@)
    } else if n >= MIB {
        (MIB as nat, "MiB"@)
    } else {
        (KIB as nat, "KiB"@)
    }
}

/// The hundredths of its unit that a byte count is written with.
pub open spec fn unit_hundredths(n: nat) -> nat {
    half_even(100 * nearest_double(n), byte_unit(n).0)
}

/// A byte count as text: whole bytes below one KiB, else two decimals of the
/// largest binary unit up to TiB that the count reaches.
pub open spec fn byte_text(n: nat) -> Seq<char> {
    if n < KIB {
        decimal(n) + "B"@
    } else {
        decimal(unit_hundredths(n) / 100) + "."@ + two_digits(unit_hundredths(n) % 100) + byte_unit(
            n,
        ).1
    }
}

fn divide_half_even(num: u128, den: u128) -> (r: u128)
    requires
        0 < den <= 0xffff_ffff_ffff_ffff,
    ensures
        r == half_even(num as nat, den as nat),
        r <= num / den + 1,
{
    let q = num / den;
    let rem = num % den;
    if 2 * rem < den || (2 * rem == den && q % 2 == 0) {
        q
    } else {
        proof {
            assert(rem > 0);
            assert(q < u128::MAX) by (nonlinear_arith)
                requires
                    q == num / den,
                    rem == num % den,
                    rem > 0,
                    den > 0,
            ;
        }
        q + 1
    }
}

fn double_step_of(n: u64) -> (r: u64)
    ensures
        r == double_step(n as nat),
        r == 1 || r * 0x10_0000_0000_0000 <= n,
        r >= 1,
    decreases n,
{
    if n < 0x20_0000_0000_0000 {
        1
    } else {
        2 * double_step_of(n / 2)
    }
}

fn nearest_double_of(n: u64) -> (r: u128)
    ensures
        r == nearest_double(n as nat),
        r <= 0x1_0000_0000_0000_1000,
{
    let step = double_step_of(n) as u128;
    let units = divide_half_even(n as u128, step);
    proof {
        let num = n as u128;
        assert(units * step <= num + step) by (nonlinear_arith)
            requires
                units <= num / step + 1,
                step > 0,
        ;
    }
    units * step
}

/// Writes a byte count.
pub fn format_bytes(n: u64) -> (r: String)
    ensures
        r@ == byte_text(n as nat),
{
    if n < KIB {
        let count = decimal_text(n);
        return text::concat2(count.as_str(), "B");
    }
    let (unit, name): (u64, &str) = if n >= TIB {
        (TIB, "TiB")
    } else if n >= GIB {
        (GIB, "GiB")
    } else if n >= MIB {
        (MIB, "MiB")
    } else {
        (KIB, "KiB")
    };
    let scaled: u128 = 100 * nearest_double_of(n);
    let hundredths: u128 = divide_half_even(scaled, unit as u128);
    let mut out = wide_decimal_text(hundredths / 100);
    out.append(".");
    push_two_digits(&mut out, (hundredths % 100) as u64);
    out.append(name);
    out
}

/// Rounding to the nearest is off by half a unit at most.
pub proof fn lemma_half_even_is_near(num: nat, den: nat)
    requires
        den > 0,
    ensures
        -(den as int) <= 2 * (half_even(num, den) * den - num) <= den,
{
    let q = num / den;
    let r = num % den;
    assert(num == q * den + r) by {
        vstd::arithmetic::div_mod::lemma_fundamental_div_mod(num as int, den as int);
        vstd::arithmetic::mul::lemma_mul_is_commutative(q as int, den as int);
    }
    assert((q + 1) * den == q * den + den) by (nonlinear_arith);
}

/// Below 2^53 bytes the number that is written is off by half of its last
/// decimal at most, and is at least one whole unit.
pub proof fn lemma_byte_text_is_near(n: nat)
    requires
        KIB <= n < 0x20_0000_0000_0000,
    ensures
        ({
            let unit = byte_unit(n).0;
            let h = unit_hundredths(n);
            &&& -(unit as int) <= 2 * (h * unit - 100 * n) <= unit
            &&& h >= 100
        }),
{
    assert(nearest_double(n) == n) by {
        assert(double_step(n) == 1);
        assert(half_even(n, 1) == n);
    }
    let unit = byte_unit(n).0;
    lemma_half_even_is_near(100 * n, unit);
    let h = unit_hundredths(n);
    assert(h >= 100) by (nonlinear_arith)
        requires
            -(unit as int) <= 2 * (h * unit - 100 * n),
            unit <= n,
            unit > 0,
    ;
}

/// The number that a run of decimal digits stands for.
pub open spec fn digits_value(s: Seq<char>) -> int
    decreases s.len(),
{
    if s.len() == 0 {
        0
    } else {
        10 * digits_value(s.drop_last()) + (s.last() as int - '0' as int)
    }
}

/// A character that is a decimal digit.
pub open spec fn is_digit(c: char) -> bool {
    '0' <= c <= '9'
}

/// A number in decimal is digits only, reads back as the number, and starts with
/// a zero only if it is zero.
pub proof fn lemma_decimal_reads_back(n: nat)
    ensures
        digits_value(decimal(n)) == n,
        decimal(n).len() > 0,
        forall|i: int| 0 <= i < decimal(n).len() ==> is_digit(#[trigger] decimal(n)[i]),
        decimal(n)[0] == '0' <==> n == 0,
    decreases n,
{
    reveal_with_fuel(digits_value, 2);
    if n >= 10 {
        lemma_decimal_reads_back(n / 10);
        assert(decimal(n).drop_last() =~= decimal(n / 10));
        assert(decimal(n)[0] == decimal(n / 10)[0]);
    } else {
        assert(decimal(n).drop_last() =~= Seq::<char>::empty());
    }
}

/// A negative number has a minus sign in front of its size, any other none.
pub proof fn lemma_signed_decimals(n: int)
    ensures
        n >= 0 ==> signed_decimal(n) == decimal(n as nat) && signed_decimal(n)[0] != '-',
        n < 0 ==> signed_decimal(n)[0] == '-' && digits_value(signed_decimal(n).skip(1)) == -n,
{
    if n < 0 {
        lemma_decimal_reads_back((-n) as nat);
        assert(signed_decimal(n).skip(1) =~= decimal((-n) as nat));
    } else {
        lemma_decimal_reads_back(n as nat);
        assert(is_digit(decimal(n as nat)[0]));
    }
}

/// A time of day has two digits each for hours, minutes and seconds with colons
/// between them, and they tell the second of the day.
pub proof fn lemma_clock_reads_back(secs: nat)
    ensures
        ({
            let t = clock_text(secs);
            let h = digits_value(t.subrange(0, 2));
            let m = digits_value(t.subrange(3, 5));
            let s = digits_value(t.subrange(6, 8));
            &&& t.len() == 8
            &&& t[2] == ':' && t[5] == ':'
            &&& 0 <= h < 24 && 0 <= m < 60 && 0 <= s < 60
            &&& 3600 * h + 60 * m + s == secs % 86400
        }),
{
    let t = clock_text(secs);
    let h = (secs / 3600) % 24;
    let m = (secs / 60) % 60;
    let s = secs % 60;
    assert(t.subrange(0, 2) =~= two_digits(h));
    assert(t.subrange(3, 5) =~= two_digits(m));
    assert(t.subrange(6, 8) =~= two_digits(s));
    lemma_two_digits(h);
    lemma_two_digits(m);
    lemma_two_digits(s);
    lemma_second_of_the_day(secs);
}

proof fn lemma_second_of_the_day(secs: nat)
    ensures
        3600 * ((secs / 3600) % 24) + 60 * ((secs / 60) % 60) + secs % 60 == secs % 86400,
{
    let minutes = secs / 60;
    let hours = minutes / 60;
    let days = hours / 24;
    assert(secs == 60 * minutes + secs % 60);
    assert(minutes == 60 * hours + minutes % 60);
    assert(hours == 24 * days + hours % 24);
    assert(secs / 3600 == hours);
    assert(secs % 86400 == secs - 86400 * days);
}

proof fn lemma_two_digits(n: nat)
    requires
        n < 100,
    ensures
        digits_value(two_digits(n)) == n,
{
    reveal_with_fuel(digits_value, 3);
    assert(two_digits(n).drop_last() =~= seq![digit(n / 10)]);
    assert(seq![digit(n / 10)].drop_last() =~= Seq::<char>::empty());
}

/// The unit of a byte count: the largest of KiB, MiB, GiB and TiB, in steps of
/// 1024, that the count reaches; below the first, whole bytes.
pub proof fn lemma_units_of_byte_counts(n: nat)
    ensures
        n < 1024 ==> byte_text(n) == decimal(n) + "B"@,
        1024 <= n < 1024 * 1024 ==> byte_unit(n) == (1024nat, "KiB"@),
        1024 * 1024 <= n < 1024 * 1024 * 1024 ==> byte_unit(n) == ((1024 * 1024) as nat, "MiB"@),
        1024 * 1024 * 1024 <= n < 1024 * 1024 * 1024 * 1024 ==> byte_unit(n) == (
            (1024 * 1024 * 1024) as nat,
            "GiB"@,
        ),
        1024 * 1024 * 1024 * 1024 <= n ==> byte_unit(n) == (
            (1024 * 1024 * 1024 * 1024) as nat,
            "TiB"@,
        ),
        n >= 1024 ==> text::finishes_with(byte_text(n), byte_unit(n).1),
{
    if n >= 1024 {
        let t = byte_text(n);
        let u = byte_unit(n).1;
        assert(t.subrange(t.len() - u.len(), t.len() as int) =~= u);
    }
}

/// What is written of a byte count reads back as the hundredths of its unit: a
/// whole part, a point and two decimals.
pub proof fn lemma_byte_count_reads_back(n: nat)
    requires
        n >= 1024,
    ensures
        ({
            let t = byte_text(n);
            let k = t.len() - byte_unit(n).1.len() - 3;
            &&& k > 0
            &&& t[k] == '.'
            &&& 100 * digits_value(t.take(k)) + digits_value(t.subrange(k + 1, k + 3))
                == unit_hundredths(n)
        }),
{
    let h = unit_hundredths(n);
    let t = byte_text(n);
    reveal_strlit(".");
    lemma_decimal_reads_back(h / 100);
    let k = decimal(h / 100).len() as int;
    assert(t.take(k) =~= decimal(h / 100));
    assert(t.subrange(k + 1, k + 3) =~= two_digits(h % 100));
    lemma_two_digits(h % 100);
    assert(t[k] == "."@[0]);
}

/// A number that stands halfway between two goes to the even one.
pub proof fn lemma_ties_go_to_even(q: nat, den: nat)
    requires
        den > 0,
    ensures
        half_even(2 * q * den + den, 2 * den) % 2 == 0,
        half_even(q * den, den) == q,
{
    assert(q * den / den == q && (q * den) % den == 0) by (nonlinear_arith)
        requires
            den > 0,
    ;
    let num = 2 * q * den + den;
    assert(num == q * (2 * den) + den) by (nonlinear_arith)
        requires
            num == 2 * q * den + den,
    ;
    vstd::arithmetic::div_mod::lemma_fundamental_div_mod_converse(
        num as int,
        (2 * den) as int,
        q as int,
        den as int,
    );
}

} // verus!
