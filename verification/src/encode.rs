//! Canonical text encoding used by the message-binding scheme.
//!
//! Every signed assertion is checked against a message that the engine
//! reconstructs itself, so both sides must agree on one byte-exact
//! rendering of numbers.  The spec functions here are that rendering:
//! plain decimal for counters and timestamps, lower-case hex for digests,
//! and a fixed-point decimal (nine fractional digits, trailing zeros
//! trimmed) for native-token amounts.

use vstd::prelude::*;
use vstd::string::StringExecFns;

verus! {

/// Compares two byte strings for equality.
pub fn bytes_eq(a: &[u8], b: &[u8]) -> (r: bool)
    ensures
        r == (a@ == b@),
{
    if a.len() != b.len() {
        assert(a@.len() != b@.len());
        return false;
    }
    let mut i: usize = 0;
    while i < a.len()
        invariant
            i <= a.len(),
            a.len() == b.len(),
            forall|j: int| 0 <= j < i ==> a@[j] == b@[j],
        decreases a.len() - i,
    {
        if a[i] != b[i] {
            assert(a@ != b@);
            return false;
        }
        i += 1;
    }
    assert(a@ =~= b@);
    true
}

/// The decimal digit character for a value below ten.
pub open spec fn dec_digit(d: nat) -> char {
    if d == 0 {
        '0'
    } else if d == 1 {
        '1'
    } else if d == 2 {
        '2'
    } else if d == 3 {
        '3'
    } else if d == 4 {
        '4'
    } else if d == 5 {
        '5'
    } else if d == 6 {
        '6'
    } else if d == 7 {
        '7'
    } else if d == 8 {
        '8'
    } else {
        '9'
    }
}

/// The decimal rendering of a natural number, most significant digit first,
/// with no leading zeros (a lone zero for zero itself).
pub open spec fn dec_nat(n: nat) -> Seq<char>
    decreases n,
{
    if n < 10 {
        seq![dec_digit(n)]
    } else {
        dec_nat(n / 10).push(dec_digit(n % 10))
    }
}

/// The decimal rendering of a signed value: a minus sign before the
/// magnitude for negative values.
pub open spec fn dec_int(n: int) -> Seq<char> {
    if n < 0 {
        seq!['-'] + dec_nat((-n) as nat)
    } else {
        dec_nat(n as nat)
    }
}

/// The hex digit character for a value below sixteen.
pub open spec fn hex_digit(d: nat) -> char {
    if d < 10 {
        dec_digit(d)
    } else if d == 10 {
        'a'
    } else if d == 11 {
        'b'
    } else if d == 12 {
        'c'
    } else if d == 13 {
        'd'
    } else if d == 14 {
        'e'
    } else {
        'f'
    }
}

/// The lower-case hex rendering of a byte string, two digits per byte.
pub open spec fn hex_of(s: Seq<u8>) -> Seq<char> {
    Seq::new(
        2 * s.len(),
        |i: int|
            if i % 2 == 0 {
                hex_digit((s[i / 2] / 16) as nat)
            } else {
                hex_digit((s[i / 2] % 16) as nat)
            },
    )
}

/// A run of zero characters.
pub open spec fn zero_chars(k: nat) -> Seq<char> {
    Seq::new(k, |i: int| '0')
}

/// A decimal rendering with trailing zero characters removed.
pub open spec fn trim_trailing_zeros(s: Seq<char>) -> Seq<char>
    decreases s.len(),
{
    if s.len() > 0 && s.last() == '0' {
        trim_trailing_zeros(s.drop_last())
    } else {
        s
    }
}

/// Ten to the power `k`.
pub open spec fn pow10(k: nat) -> nat
    decreases k,
{
    if k == 0 {
        1
    } else {
        10 * pow10((k - 1) as nat)
    }
}

/// The canonical text of `amount` base units (10^-9 of the native token)
/// expressed in whole tokens: the integer part in plain decimal and, when
/// the fractional part is non-zero, a point followed by its nine digits
/// with trailing zeros trimmed.
pub open spec fn sol_amount_chars(amount: u64) -> Seq<char> {
    let whole = amount as nat / 1_000_000_000;
    let frac = amount as nat % 1_000_000_000;
    if frac == 0 {
        dec_nat(whole)
    } else {
        dec_nat(whole) + seq!['.'] + trim_trailing_zeros(
            zero_chars((9 - dec_nat(frac).len()) as nat) + dec_nat(frac),
        )
    }
}

/// The single-character string for a decimal digit.
fn dec_digit_str(d: u64) -> (r: &'static str)
    requires
        d < 10,
    ensures
        r@ == seq![dec_digit(d as nat)],
{
    proof {
        reveal_strlit("0");
        reveal_strlit("1");
        reveal_strlit("2");
        reveal_strlit("3");
        reveal_strlit("4");
        reveal_strlit("5");
        reveal_strlit("6");
        reveal_strlit("7");
        reveal_strlit("8");
        reveal_strlit("9");
    }
    if d == 0 {
        "0"
    } else if d == 1 {
        "1"
    } else if d == 2 {
        "2"
    } else if d == 3 {
        "3"
    } else if d == 4 {
        "4"
    } else if d == 5 {
        "5"
    } else if d == 6 {
        "6"
    } else if d == 7 {
        "7"
    } else if d == 8 {
        "8"
    } else {
        "9"
    }
}

/// The single-character string for a hex digit.
fn hex_digit_str(d: u64) -> (r: &'static str)
    requires
        d < 16,
    ensures
        r@ == seq![hex_digit(d as nat)],
{
    proof {
        reveal_strlit("a");
        reveal_strlit("b");
        reveal_strlit("c");
        reveal_strlit("d");
        reveal_strlit("e");
        reveal_strlit("f");
    }
    if d < 10 {
        dec_digit_str(d)
    } else if d == 10 {
        "a"
    } else if d == 11 {
        "b"
    } else if d == 12 {
        "c"
    } else if d == 13 {
        "d"
    } else if d == 14 {
        "e"
    } else {
        "f"
    }
}

/// Appends the decimal rendering of `n` to `s`.
pub fn append_dec_u64(s: &mut String, n: u64)
    ensures
        final(s)@ == old(s)@ + dec_nat(n as nat),
    decreases n,
{
    if n < 10 {
        s.append(dec_digit_str(n));
    } else {
        append_dec_u64(s, n / 10);
        s.append(dec_digit_str(n % 10));
        assert(final(s)@ =~= old(s)@ + dec_nat(n as nat));
    }
}

/// Appends the decimal rendering of `n` to `s`, minus sign included.
pub fn append_dec_i64(s: &mut String, n: i64)
    ensures
        final(s)@ == old(s)@ + dec_int(n as int),
{
    if n >= 0 {
        append_dec_u64(s, n as u64);
    } else {
        proof {
            reveal_strlit("-");
        }
        s.append("-");
        let mag: u64 = (-(n as i128)) as u64;
        append_dec_u64(s, mag);
        assert(final(s)@ =~= old(s)@ + dec_int(n as int));
    }
}

/// Rendering a number below `pow10(k)` takes at most `k` digits.
proof fn lemma_dec_nat_len_bound(n: nat, k: nat)
    requires
        k >= 1,
        n < pow10(k),
    ensures
        dec_nat(n).len() <= k,
    decreases k,
{
    if n < 10 {
    } else {
        assert(pow10(k) == 10 * pow10((k - 1) as nat));
        lemma_dec_nat_len_bound(n / 10, (k - 1) as nat);
    }
}

/// Multiplying by ten appends a zero digit.
proof fn lemma_dec_nat_times10(n: nat)
    requires
        n >= 1,
    ensures
        dec_nat(n * 10) == dec_nat(n).push('0'),
{
    assert(n * 10 >= 10) by (nonlinear_arith)
        requires n >= 1;
    assert(n * 10 / 10 == n) by (nonlinear_arith);
    assert(n * 10 % 10 == 0) by (nonlinear_arith);
}

/// Multiplying by `pow10(z)` appends `z` zero digits.
proof fn lemma_dec_nat_shift(n: nat, z: nat)
    requires
        n >= 1,
    ensures
        dec_nat(n * pow10(z)) =~= dec_nat(n) + zero_chars(z),
    decreases z,
{
    if z == 0 {
        assert(n * pow10(0) == n) by (nonlinear_arith)
            requires pow10(0) == 1;
        assert(dec_nat(n) + zero_chars(0) =~= dec_nat(n));
    } else {
        lemma_dec_nat_shift(n, (z - 1) as nat);
        lemma_pow10_positive((z - 1) as nat);
        let m = n * pow10((z - 1) as nat);
        assert(m >= n) by (nonlinear_arith)
            requires n >= 1, pow10((z - 1) as nat) >= 1, m == n * pow10((z - 1) as nat);
        lemma_dec_nat_times10(m);
        assert(n * pow10(z) == m * 10) by (nonlinear_arith)
            requires
                pow10(z) == 10 * pow10((z - 1) as nat),
                m == n * pow10((z - 1) as nat),
        ;
        assert(dec_nat(m).push('0') =~= dec_nat(n) + zero_chars(z));
    }
}

/// `pow10` never yields zero.
proof fn lemma_pow10_positive(k: nat)
    ensures
        pow10(k) >= 1,
    decreases k,
{
    if k > 0 {
        lemma_pow10_positive((k - 1) as nat);
    }
}

/// `pow10` is monotone.
proof fn lemma_pow10_mono(a: nat, b: nat)
    requires
        a <= b,
    ensures
        pow10(a) <= pow10(b),
    decreases b,
{
    if a < b {
        lemma_pow10_mono(a, (b - 1) as nat);
        lemma_pow10_positive((b - 1) as nat);
    }
}

/// Trimming ignores a trailing zero character.
proof fn lemma_trim_push_zero(s: Seq<char>)
    ensures
        trim_trailing_zeros(s.push('0')) == trim_trailing_zeros(s),
{
    assert(s.push('0').drop_last() =~= s);
}

/// Trimming ignores any run of trailing zero characters.
proof fn lemma_trim_concat_zeros(s: Seq<char>, z: nat)
    ensures
        trim_trailing_zeros(s + zero_chars(z)) == trim_trailing_zeros(s),
    decreases z,
{
    if z == 0 {
        assert(s + zero_chars(0) =~= s);
    } else {
        lemma_trim_concat_zeros(s, (z - 1) as nat);
        assert(s + zero_chars(z) =~= (s + zero_chars((z - 1) as nat)).push('0'));
        lemma_trim_push_zero(s + zero_chars((z - 1) as nat));
    }
}

/// A rendering that does not end in a zero character is already trimmed.
proof fn lemma_trim_noop(s: Seq<char>)
    requires
        s.len() == 0 || s.last() != '0',
    ensures
        trim_trailing_zeros(s) == s,
{
}

/// The rendering of a number not divisible by ten does not end in a zero.
proof fn lemma_dec_nat_last_nonzero(n: nat)
    requires
        n % 10 != 0,
    ensures
        dec_nat(n).last() != '0',
{
}

/// A decimal rendering always has at least one digit.
proof fn lemma_dec_nat_len_pos(n: nat)
    ensures
        dec_nat(n).len() >= 1,
    decreases n,
{
    if n >= 10 {
        lemma_dec_nat_len_pos(n / 10);
    }
}

/// Appends the canonical amount text of `amount` base units to `s`.
pub fn append_sol_amount(s: &mut String, amount: u64)
    ensures
        final(s)@ == old(s)@ + sol_amount_chars(amount),
{
    let whole = amount / 1_000_000_000;
    let frac = amount % 1_000_000_000;
    append_dec_u64(s, whole);
    if frac == 0 {
        return ;
    }
    proof {
        reveal_strlit(".");
    }
    s.append(".");
    let ghost mid = s@;
    proof {
        assert(frac as nat * pow10(0) == frac as nat) by (nonlinear_arith)
            requires pow10(0) == 1;
    }
    // Strip the trailing zero digits of the fraction numerically.
    let mut f = frac;
    let mut z: u64 = 0;
    while f % 10 == 0
        invariant
            1 <= f,
            f as nat * pow10(z as nat) == frac as nat,
            1 <= frac < 1_000_000_000,
            z <= 9,
        decreases f,
    {
        proof {
            let fp = (f / 10) as nat;
            assert(fp * 10 == f) by (nonlinear_arith)
                requires f % 10 == 0, f >= 1, fp == f as nat / 10;
            assert(fp * pow10(z as nat + 1) == (fp * 10) * pow10(z as nat)) by (nonlinear_arith)
                requires pow10(z as nat + 1) == 10 * pow10(z as nat);
            assert((fp * 10) * pow10(z as nat) == frac as nat) by (nonlinear_arith)
                requires fp * 10 == f, f as nat * pow10(z as nat) == frac as nat;
            if z as nat + 1 > 9 {
                lemma_pow10_mono(10, z as nat + 1);
                lemma_pow10_positive(z as nat + 1);
                assert(fp * pow10(z as nat + 1) >= pow10(10)) by (nonlinear_arith)
                    requires fp >= 1, pow10(z as nat + 1) >= pow10(10);
                assert(pow10(10) == 10_000_000_000) by {
                    reveal_with_fuel(pow10, 11);
                }
                assert(false);
            }
        }
        f = f / 10;
        z = z + 1;
    }
    proof {
        // The reduced fraction fits in the remaining digit positions.
        if z as nat > 8 {
            lemma_pow10_positive(9);
            assert(f as nat * pow10(9) >= pow10(9)) by (nonlinear_arith)
                requires f >= 1, pow10(9) >= 1;
            assert(pow10(9) == 1_000_000_000) by {
                reveal_with_fuel(pow10, 10);
            }
            assert(false);
        }
        assert(pow10(9) == 1_000_000_000) by {
            reveal_with_fuel(pow10, 10);
        }
        assert(pow10((9 - z) as nat) * pow10(z as nat) == pow10(9)) by {
            lemma_pow10_product((9 - z) as nat, z as nat);
        }
        assert(f < pow10((9 - z) as nat)) by (nonlinear_arith)
            requires
                f as nat * pow10(z as nat) < pow10((9 - z) as nat) * pow10(z as nat),
                pow10(z as nat) >= 1,
        ;
        lemma_pow10_positive(z as nat);
        lemma_dec_nat_len_bound(f as nat, (9 - z) as nat);
    }
    // Count the digits of the reduced fraction.
    let mut t = f;
    let mut dn: u64 = 1;
    while t >= 10
        invariant
            1 <= t,
            1 <= dn <= 9,
            dec_nat(f as nat).len() == dn - 1 + dec_nat(t as nat).len(),
            dec_nat(f as nat).len() <= 9,
        decreases t,
    {
        proof {
            lemma_dec_nat_len_pos((t / 10) as nat);
        }
        t = t / 10;
        dn = dn + 1;
    }
    assert(dec_nat(f as nat).len() == dn);
    let width = 9 - z;
    // Zero-pad to the field width, then write the reduced digits.
    let mut j: u64 = 0;
    while j < width - dn
        invariant
            j <= width - dn,
            dn <= width <= 9,
            s@ == mid + zero_chars(j as nat),
        decreases width - dn - j,
    {
        proof {
            reveal_strlit("0");
        }
        s.append("0");
        assert(s@ =~= mid + zero_chars(j as nat + 1));
        j += 1;
    }
    append_dec_u64(s, f);
    proof {
        let fracn = frac as nat;
        let fn_ = f as nat;
        let zn = z as nat;
        lemma_dec_nat_shift(fn_, zn);
        assert(dec_nat(fracn) =~= dec_nat(fn_) + zero_chars(zn));
        assert(dec_nat(fracn).len() == dn + zn);
        let pad = (9 - dec_nat(fracn).len()) as nat;
        assert(pad == width - dn);
        assert(zero_chars(pad) + dec_nat(fracn) =~= (zero_chars(pad) + dec_nat(fn_))
            + zero_chars(zn));
        lemma_trim_concat_zeros(zero_chars(pad) + dec_nat(fn_), zn);
        lemma_dec_nat_last_nonzero(fn_);
        assert((zero_chars(pad) + dec_nat(fn_)).last() != '0');
        lemma_trim_noop(zero_chars(pad) + dec_nat(fn_));
        assert(trim_trailing_zeros(zero_chars(pad) + dec_nat(fracn)) == zero_chars(pad)
            + dec_nat(fn_));
        assert(final(s)@ =~= old(s)@ + sol_amount_chars(amount));
    }
}

/// `pow10` turns addition of exponents into multiplication.
proof fn lemma_pow10_product(a: nat, b: nat)
    ensures
        pow10(a) * pow10(b) == pow10(a + b),
    decreases b,
{
    if b == 0 {
        assert(pow10(a) * 1 == pow10(a)) by (nonlinear_arith);
    } else {
        lemma_pow10_product(a, (b - 1) as nat);
        assert(pow10(a) * pow10(b) == (pow10(a) * pow10((b - 1) as nat)) * 10)
            by (nonlinear_arith)
            requires pow10(b) == 10 * pow10((b - 1) as nat);
        assert(pow10(a + b) == pow10((a + b - 1) as nat) * 10) by (nonlinear_arith)
            requires pow10(a + b) == 10 * pow10((a + b - 1) as nat);
    }
}

/// Converts a byte string to its lower-case hex text, two digits per byte.
pub fn to_hex(bytes: &[u8]) -> (r: String)
    ensures
        r@ == hex_of(bytes@),
{
    let mut r = String::new();
    let mut i: usize = 0;
    while i < bytes.len()
        invariant
            i <= bytes.len(),
            r@ == hex_of(bytes@.take(i as int)),
        decreases bytes.len() - i,
    {
        let b = bytes[i];
        r.append(hex_digit_str((b / 16) as u64));
        r.append(hex_digit_str((b % 16) as u64));
        assert(r@ =~= hex_of(bytes@.take(i + 1)));
        i += 1;
    }
    assert(bytes@.take(bytes@.len() as int) =~= bytes@);
    r
}

} // verus!
