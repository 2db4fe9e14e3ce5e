use vstd::prelude::*;

verus! {

/// Calls `String::push`: appends `c` to `s`.
#[verifier::external_body]
pub(crate) fn push_char(s: &mut String, c: char)
    ensures
        final(s)@ == old(s)@.push(c),
{
    s.push(c);
}

/// The character of decimal digit `d` (`0 <= d < 10`).
pub open spec fn digit_char(d: int) -> char {
    (48 + d) as char
}

/// Decimal text of `n`, without leading zeros.
pub open spec fn digits_of(n: nat) -> Seq<char>
    decreases n,
{
    if n < 10 {
        seq![digit_char(n as int)]
    } else {
        digits_of(n / 10).push(digit_char((n % 10) as int))
    }
}

fn digit_exec(d: u64) -> (c: char)
    requires
        d < 10,
    ensures
        c == digit_char(d as int),
{
    let b: u8 = 48 + d as u8;
    b as char
}

/// Appends the decimal text of `n` to `s`.
pub fn append_digits(s: &mut String, n: u64)
    ensures
        final(s)@ == old(s)@ + digits_of(n as nat),
    decreases n,
{
    if n < 10 {
        push_char(s, digit_exec(n));
        assert(final(s)@ =~= old(s)@ + digits_of(n as nat));
    } else {
        append_digits(s, n / 10);
        push_char(s, digit_exec(n % 10));
        assert(final(s)@ =~= old(s)@ + digits_of(n as nat));
    }
}

/// Decimal text of `n`.
pub fn count_text(n: usize) -> (s: String)
    ensures
        s@ == digits_of(n as nat),
{
    let mut s = String::new();
    append_digits(&mut s, n as u64);
    assert(s@ =~= digits_of(n as nat));
    s
}

/// `s` without its trailing `'0'` characters.
pub open spec fn strip_trailing_zeros(s: Seq<char>) -> Seq<char>
    decreases s.len(),
{
    if s.len() > 0 && s.last() == '0' {
        strip_trailing_zeros(s.drop_last())
    } else {
        s
    }
}

/// The four decimal digits of `f` (`0 <= f < 10000`), zero-padded.
pub open spec fn four_digits(f: int) -> Seq<char> {
    seq![
        digit_char(f / 1000),
        digit_char((f / 100) % 10),
        digit_char((f / 10) % 10),
        digit_char(f % 10),
    ]
}

/// Absolute value.
pub open spec fn abs(x: int) -> int {
    if x < 0 {
        -x
    } else {
        x
    }
}

/// The shortest decimal text of `units` ten-thousandths of a currency unit:
/// an optional `-`, the whole units, and the fraction without trailing zeros
/// (no point when the fraction is zero), as in `10`, `69.5`, `-0.0025`.
pub open spec fn amount_text(units: int) -> Seq<char> {
    let a = abs(units);
    let sign = if units < 0 {
        seq!['-']
    } else {
        Seq::<char>::empty()
    };
    let frac = a % 10000;
    sign + digits_of((a / 10000) as nat) + if frac == 0 {
        Seq::<char>::empty()
    } else {
        seq!['.'] + strip_trailing_zeros(four_digits(frac))
    }
}

/// `units / 100` rounded to the nearest integer, ties to even (`units >= 0`).
pub open spec fn cents_half_even(units: int) -> int {
    let q = units / 100;
    let r = units % 100;
    if r > 50 || (r == 50 && q % 2 == 1) {
        q + 1
    } else {
        q
    }
}

/// `units` ten-thousandths of a currency unit with exactly two decimals,
/// rounded half to even, as in `69.50`, `-0.00`.
pub open spec fn amount_text_2dp(units: int) -> Seq<char> {
    let c = cents_half_even(abs(units));
    let sign = if units < 0 {
        seq!['-']
    } else {
        Seq::<char>::empty()
    };
    sign + digits_of((c / 100) as nat) + seq!['.', digit_char((c % 100) / 10), digit_char(c % 10)]
}

/// Appends the shortest decimal text of an amount to `s`.
pub fn append_amount(s: &mut String, units: i64)
    ensures
        final(s)@ == old(s)@ + amount_text(units as int),
{
    let ghost start = s@;
    let a: u64 = if units < 0 {
        (0i128 - units as i128) as u64
    } else {
        units as u64
    };
    assert(a as int == abs(units as int));
    if units < 0 {
        push_char(s, '-');
    }
    let ghost after_sign = s@;
    append_digits(s, a / 10000);
    let frac = a % 10000;
    if frac == 0 {
        assert(s@ =~= start + amount_text(units as int));
        return;
    }
    push_char(s, '.');
    let mut d: [char; 4] = [
        digit_exec(frac / 1000),
        digit_exec((frac / 100) % 10),
        digit_exec((frac / 10) % 10),
        digit_exec(frac % 10),
    ];
    let ghost fd = four_digits(frac as int);
    assert(d@ =~= fd);
    let mut n: usize = 4;
    assert(fd.take(4) =~= fd);
    while n > 0 && d[n - 1] == '0'
        invariant
            0 <= n <= 4,
            d@ == fd,
            strip_trailing_zeros(fd) == strip_trailing_zeros(fd.take(n as int)),
        decreases n,
    {
        proof {
            assert(fd.take(n as int).drop_last() =~= fd.take(n - 1));
        }
        n = n - 1;
    }
    let ghost before = s@;
    let mut k: usize = 0;
    while k < n
        invariant
            0 <= k <= n <= 4,
            d@ == fd,
            s@ == before + fd.take(k as int),
        decreases n - k,
    {
        push_char(s, d[k]);
        proof {
            assert(fd.take(k + 1) =~= fd.take(k as int).push(fd[k as int]));
        }
        k = k + 1;
    }
    assert(n == 0 || fd.take(n as int).last() != '0');
    assert(strip_trailing_zeros(fd.take(n as int)) == fd.take(n as int));
    assert(s@ =~= start + amount_text(units as int));
}

/// Appends an amount with exactly two decimals to `s`.
pub fn append_amount_2dp(s: &mut String, units: i64)
    ensures
        final(s)@ == old(s)@ + amount_text_2dp(units as int),
{
    let ghost start = s@;
    let a: u64 = if units < 0 {
        (0i128 - units as i128) as u64
    } else {
        units as u64
    };
    assert(a as int == abs(units as int));
    let q = a / 100;
    let r = a % 100;
    let c: u64 = if r > 50 || (r == 50 && q % 2 == 1) {
        q + 1
    } else {
        q
    };
    if units < 0 {
        push_char(s, '-');
    }
    append_digits(s, c / 100);
    push_char(s, '.');
    push_char(s, digit_exec((c % 100) / 10));
    push_char(s, digit_exec(c % 10));
    assert(s@ =~= start + amount_text_2dp(units as int));
}

} // verus!
