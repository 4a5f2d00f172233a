use vstd::prelude::*;

verus! {

/// The character of a decimal digit `d` (0 to 9).
pub open spec fn digit_char(d: nat) -> char {
    if d == 0 {
        '0'
    } else if d == 1 {
        '1'
    } else if d == 2 {
        '2'
    } else if d == 3 {
        '3'
    } else if d == 4 {
        '4'
    } else if d == 5 {
        '5'
    } else if d == 6 {
        '6'
    } else if d == 7 {
        '7'
    } else if d == 8 {
        '8'
    } else {
        '9'
    }
}

/// Whether `c` is one of the ten decimal digits.
pub open spec fn is_digit(c: char) -> bool {
    '0' <= c && c <= '9'
}

/// The decimal notation of `n`, without sign or leading zeros.
pub open spec fn decimal(n: nat) -> Seq<char>
    decreases n,
{
    if n < 10 {
        seq![digit_char(n)]
    } else {
        decimal(n / 10).push(digit_char(n % 10))
    }
}

/// `x / d` rounded to the nearest integer, ties going to the even neighbour.
pub open spec fn round_half_even(x: nat, d: nat) -> nat
    recommends
        d > 0,
{
    let q = x / d;
    let r = x % d;
    if 2 * r > d || (2 * r == d && q % 2 == 1) {
        q + 1
    } else {
        q
    }
}

/// The number of bytes in unit `k` of the table B, KB, MB, GB, TB.
pub open spec fn unit_divisor(k: nat) -> nat {
    if k == 0 {
        1
    } else if k == 1 {
        1024
    } else if k == 2 {
        1048576
    } else if k == 3 {
        1073741824
    } else {
        1099511627776
    }
}

/// `floor(log_1024(n))`, clamped to the last unit of the table (TB).
pub open spec fn unit_index(n: nat) -> nat {
    if n < 1024 {
        0
    } else if n < 1048576 {
        1
    } else if n < 1073741824 {
        2
    } else if n < 1099511627776 {
        3
    } else {
        4
    }
}

/// The suffix of unit `k`.
pub open spec fn unit_suffix(k: nat) -> Seq<char> {
    if k == 0 {
        seq!['B']
    } else if k == 1 {
        seq!['K', 'B']
    } else if k == 2 {
        seq!['M', 'B']
    } else if k == 3 {
        seq!['G', 'B']
    } else {
        seq!['T', 'B']
    }
}

/// The quantity that the text of `n` bytes shows, in hundredths of its unit:
/// exact for plain bytes, rounded to two decimals for the larger units.
pub open spec fn shown_hundredths(n: nat) -> nat {
    let k = unit_index(n);
    if k == 0 {
        n * 100
    } else {
        round_half_even(n * 100, unit_divisor(k))
    }
}

/// `v` hundredths written with exactly two decimals.
pub open spec fn two_decimals(v: nat) -> Seq<char> {
    decimal(v / 100) + seq!['.', digit_char((v % 100) / 10), digit_char(v % 10)]
}

/// The human-readable text of a byte count: the integer and " B" below 1024,
/// else the scaled value with two decimals and the unit's suffix.
pub open spec fn format_bytes_spec(n: nat) -> Seq<char> {
    let k = unit_index(n);
    if k == 0 {
        decimal(n) + seq![' '] + unit_suffix(0)
    } else {
        two_decimals(shown_hundredths(n)) + seq![' '] + unit_suffix(k)
    }
}

/// Every character of a decimal notation is a digit.
pub proof fn lemma_decimal_digits(n: nat)
    ensures
        decimal(n).len() >= 1,
        forall|i: int| 0 <= i < decimal(n).len() ==> is_digit(#[trigger] decimal(n)[i]),
    decreases n,
{
    if n >= 10 {
        lemma_decimal_digits(n / 10);
    }
}

/// Rounding half to even is monotonic in the dividend.
pub proof fn lemma_round_half_even_monotonic(x: nat, y: nat, d: nat)
    requires
        x <= y,
        d > 0,
    ensures
        round_half_even(x, d) <= round_half_even(y, d),
{
    let qx = x / d;
    let qy = y / d;
    vstd::arithmetic::div_mod::lemma_div_is_ordered(x as int, y as int, d as int);
    vstd::arithmetic::div_mod::lemma_fundamental_div_mod(x as int, d as int);
    vstd::arithmetic::div_mod::lemma_fundamental_div_mod(y as int, d as int);
    if qx == qy {
        assert(x % d <= y % d);
    }
}

/// Below 1024 the text of a byte count is the exact integer followed by " B",
/// without a decimal point.
pub proof fn lemma_small_counts_exact(n: nat)
    requires
        n < 1024,
    ensures
        format_bytes_spec(n) == decimal(n) + seq![' ', 'B'],
        !format_bytes_spec(n).contains('.'),
{
    let t = format_bytes_spec(n);
    assert(t =~= decimal(n) + seq![' ', 'B']);
    lemma_decimal_digits(n);
    if t.contains('.') {
        let i = choose|i: int| 0 <= i < t.len() && t[i] == '.';
        if i < decimal(n).len() {
            assert(is_digit(decimal(n)[i]));
        }
    }
}

/// From 1024^4 bytes on, the unit stays TB: the table is never overrun.
pub proof fn lemma_large_counts_in_terabytes(n: nat)
    requires
        n >= 1099511627776,
    ensures
        unit_index(n) == 4,
        format_bytes_spec(n) == two_decimals(round_half_even(n * 100, 1099511627776))
            + seq![' ', 'T', 'B'],
{
    assert(format_bytes_spec(n) =~= two_decimals(round_half_even(n * 100, 1099511627776))
        + seq![' ', 'T', 'B']);
}

/// Of two byte counts shown in the same unit, the smaller never shows the
/// larger quantity.
pub proof fn lemma_shown_quantity_monotonic(a: nat, b: nat)
    requires
        a < b,
        unit_index(a) == unit_index(b),
    ensures
        shown_hundredths(a) <= shown_hundredths(b),
{
    assert(a * 100 <= b * 100) by (nonlinear_arith)
        requires
            a < b,
    ;
    if unit_index(a) > 0 {
        lemma_round_half_even_monotonic(a * 100, b * 100, unit_divisor(unit_index(a)));
    }
}


/// The one-character text of the digit `d`.
fn digit_str(d: u64) -> (r: &'static str)
    requires
        d < 10,
    ensures
        r@ == seq![digit_char(d as nat)],
{
    proof {
        reveal_strlit("0");
        reveal_strlit("1");
        reveal_strlit("2");
        reveal_strlit("3");
        reveal_strlit("4");
        reveal_strlit("5");
        reveal_strlit("6");
        reveal_strlit("7");
        reveal_strlit("8");
        reveal_strlit("9");
    }
    if d == 0 {
        "0"
    } else if d == 1 {
        "1"
    } else if d == 2 {
        "2"
    } else if d == 3 {
        "3"
    } else if d == 4 {
        "4"
    } else if d == 5 {
        "5"
    } else if d == 6 {
        "6"
    } else if d == 7 {
        "7"
    } else if d == 8 {
        "8"
    } else {
        "9"
    }
}

/// The decimal notation of `n`.
pub fn decimal_string(n: u64) -> (r: String)
    ensures
        r@ == decimal(n as nat),
    decreases n,
{
    if n < 10 {
        String::from_str(digit_str(n))
    } else {
        let mut s = decimal_string(n / 10);
        s.append(digit_str(n % 10));
        s
    }
}

/// `v` hundredths written with exactly two decimals.
pub fn two_decimals_string(v: u64) -> (r: String)
    ensures
        r@ == two_decimals(v as nat),
{
    let mut s = decimal_string(v / 100);
    proof {
        reveal_strlit(".");
    }
    s.append(".");
    s.append(digit_str((v % 100) / 10));
    s.append(digit_str(v % 10));
    assert(s@ =~= two_decimals(v as nat));
    s
}

/// `x / d` rounded half to even.
fn round_half_even_exec(x: u128, d: u128) -> (r: u128)
    requires
        0 < d <= 0x1_0000_0000_0000_0000,
        x <= 0x1_0000_0000_0000_0000_0000,
    ensures
        r == round_half_even(x as nat, d as nat),
{
    let q = x / d;
    let r = x % d;
    proof {
        vstd::arithmetic::div_mod::lemma_div_is_ordered_by_denominator(x as int, 1, d as int);
    }
    if 2 * r > d || (2 * r == d && q % 2 == 1) {
        q + 1
    } else {
        q
    }
}

/// The index of the unit that `bytes` is shown in.
pub fn unit_index_of(bytes: u64) -> (r: u64)
    ensures
        r as nat == unit_index(bytes as nat),
{
    if bytes < 1024 {
        0
    } else if bytes < 1048576 {
        1
    } else if bytes < 1073741824 {
        2
    } else if bytes < 1099511627776 {
        3
    } else {
        4
    }
}

/// The number of bytes in unit `k`.
fn unit_divisor_of(k: u64) -> (r: u64)
    ensures
        r as nat == unit_divisor(k as nat),
        r > 0,
{
    if k == 0 {
        1
    } else if k == 1 {
        1024
    } else if k == 2 {
        1048576
    } else if k == 3 {
        1073741824
    } else {
        1099511627776
    }
}

/// The suffix of unit `k`.
fn unit_suffix_str(k: u64) -> (r: &'static str)
    ensures
        r@ == unit_suffix(k as nat),
{
    proof {
        reveal_strlit("B");
        reveal_strlit("KB");
        reveal_strlit("MB");
        reveal_strlit("GB");
        reveal_strlit("TB");
    }
    if k == 0 {
        "B"
    } else if k == 1 {
        "KB"
    } else if k == 2 {
        "MB"
    } else if k == 3 {
        "GB"
    } else {
        "TB"
    }
}

/// The quantity shown for `bytes`, in hundredths of its unit.
pub fn shown_hundredths_of(bytes: u64) -> (r: u64)
    ensures
        r as nat == shown_hundredths(bytes as nat),
{
    let k = unit_index_of(bytes);
    if k == 0 {
        bytes * 100
    } else {
        let d = unit_divisor_of(k);
        let x: u128 = bytes as u128 * 100;
        let h = round_half_even_exec(x, d as u128);
        proof {
            vstd::arithmetic::div_mod::lemma_div_is_ordered_by_denominator(x as int, 1024, d as int);
        }
        assert(x / 1024 < 0xffff_ffff_ffff_fff0u128) by (nonlinear_arith)
            requires
                x <= 0xffff_ffff_ffff_ffffu128 * 100,
        ;
        h as u64
    }
}

/// Converts a byte count to text in binary units (1024 = 1 KB): the exact
/// integer with " B" below 1024, else the value in the largest unit up to TB
/// with two decimals, rounded half to even ("1.50 KB", "1.00 GB").
pub fn format_bytes(bytes: u64) -> (r: String)
    ensures
        r@ == format_bytes_spec(bytes as nat),
{
    let k = unit_index_of(bytes);
    let mut s = if k == 0 {
        decimal_string(bytes)
    } else {
        two_decimals_string(shown_hundredths_of(bytes))
    };
    proof {
        reveal_strlit(" ");
    }
    s.append(" ");
    s.append(unit_suffix_str(k));
    s
}

} // verus!
