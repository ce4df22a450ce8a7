use vstd::prelude::*;

verus! {

// ---------------------------------------------------------------------------
// Digits
// ---------------------------------------------------------------------------

/// The lower-case digit for `d < 16`.
pub open spec fn digit_char(d: nat) -> char {
    if d < 10 {
        (48 + d) as char
    } else {
        (87 + d) as char
    }
}

/// The value of `c` as a digit in base 16 (upper or lower case), if it is one.
pub open spec fn digit_value(c: char) -> Option<nat> {
    let n = c as u32;
    if 48 <= n <= 57 {
        Some((n - 48) as nat)
    } else if 97 <= n <= 122 {
        Some((n - 87) as nat)
    } else if 65 <= n <= 90 {
        Some((n - 55) as nat)
    } else {
        None
    }
}

/// `c` is a digit of base `radix`.
pub open spec fn is_digit_of(c: char, radix: nat) -> bool {
    match digit_value(c) {
        Some(v) => v < radix,
        None => false,
    }
}

/// Every character of `d` is a digit of base `radix`.
pub open spec fn all_digits(d: Seq<char>, radix: nat) -> bool {
    forall|i: int| 0 <= i < d.len() ==> is_digit_of(#[trigger] d[i], radix)
}

/// The number that the digits `d` write in base `radix`, most significant first.
pub open spec fn digits_value(d: Seq<char>, radix: nat) -> nat
    decreases d.len(),
{
    if d.len() == 0 {
        0
    } else {
        digits_value(d.drop_last(), radix) * radix + digit_value(d.last()).unwrap()
    }
}

/// `from_str_radix` for an unsigned type whose largest value is `max`: an optional `+`,
/// then at least one digit of base `radix`, with a value that fits.
pub open spec fn parse_unsigned(s: Seq<char>, radix: nat, max: nat) -> Option<nat> {
    let d = if s.len() > 0 && s[0] == '+' { s.drop_first() } else { s };
    if d.len() > 0 && all_digits(d, radix) && digits_value(d, radix) <= max {
        Some(digits_value(d, radix))
    } else {
        None
    }
}

/// The digits of `n` in base `radix`, without leading zeros (`"0"` for zero).
pub open spec fn digits_of(n: nat, radix: nat) -> Seq<char>
    decreases n,
{
    if n < radix || radix < 2 {
        seq![digit_char(n)]
    } else {
        proof {
            assert(n / radix < n) by (nonlinear_arith)
                requires
                    n >= radix,
                    radix >= 2,
            ;
        }
        digits_of(n / radix, radix).push(digit_char(n % radix))
    }
}

/// The lowest `width` digits of `n` in base `radix`, zero-padded.
pub open spec fn fixed_digits(n: nat, radix: nat, width: nat) -> Seq<char>
    decreases width,
{
    if width == 0 {
        seq![]
    } else {
        fixed_digits(n / radix, radix, (width - 1) as nat).push(digit_char(n % radix))
    }
}

/// `s` padded on the left with `'0'` to at least `width` characters.
pub open spec fn zero_pad(s: Seq<char>, width: nat) -> Seq<char> {
    if s.len() >= width {
        s
    } else {
        Seq::new((width - s.len()) as nat, |i: int| '0') + s
    }
}

/// `format!("{:016x}", h)`.
pub open spec fn hex16(h: u64) -> Seq<char> {
    fixed_digits(h as nat, 16, 16)
}

/// `format!("{}", n)` for an unsigned integer.
pub open spec fn decimal(n: nat) -> Seq<char> {
    digits_of(n, 10)
}

fn digit_char_exec(d: u64) -> (c: char)
    requires
        d < 16,
    ensures
        c == digit_char(d as nat),
{
    if d < 10 {
        ((48 + d) as u8) as char
    } else {
        ((87 + d) as u8) as char
    }
}

fn digit_value_exec(c: char) -> (r: Option<u64>)
    ensures
        match r {
            Some(v) => digit_value(c) == Some(v as nat),
            None => digit_value(c) is None,
        },
{
    let n = c as u32;
    if 48 <= n && n <= 57 {
        Some((n - 48) as u64)
    } else if 97 <= n && n <= 122 {
        Some((n - 87) as u64)
    } else if 65 <= n && n <= 90 {
        Some((n - 55) as u64)
    } else {
        None
    }
}

// ---------------------------------------------------------------------------
// Formatting
// ---------------------------------------------------------------------------

/// The digits of `n` in base `radix`.
pub fn format_radix(n: u64, radix: u64) -> (r: Vec<char>)
    requires
        2 <= radix <= 16,
    ensures
        r@ == digits_of(n as nat, radix as nat),
{
    let mut rem = n;
    let mut out: Vec<char> = Vec::new();
    while rem >= radix
        invariant
            2 <= radix <= 16,
            digits_of(n as nat, radix as nat) == digits_of(rem as nat, radix as nat) + out@,
        decreases rem,
    {
        let d = digit_char_exec(rem % radix);
        let ghost old_out = out@;
        out.insert(0, d);
        assert(out@ =~= seq![d] + old_out);
        assert(digits_of(rem as nat, radix as nat) == digits_of((rem / radix) as nat, radix as nat).push(d));
        assert(digits_of((rem / radix) as nat, radix as nat).push(d) + old_out =~= digits_of((rem / radix) as nat, radix as nat) + out@);
        rem = rem / radix;
    }
    let d = digit_char_exec(rem);
    let ghost old_out = out@;
    out.insert(0, d);
    assert(out@ =~= seq![d] + old_out);
    out
}

/// The lowest `width` digits of `n` in base `radix`, zero-padded.
pub fn format_fixed(n: u64, radix: u64, width: usize) -> (r: Vec<char>)
    requires
        2 <= radix <= 16,
    ensures
        r@ == fixed_digits(n as nat, radix as nat, width as nat),
{
    let mut rem = n;
    let mut k: usize = width;
    let mut out: Vec<char> = Vec::new();
    while k > 0
        invariant
            2 <= radix <= 16,
            k <= width,
            fixed_digits(n as nat, radix as nat, width as nat) == fixed_digits(rem as nat, radix as nat, k as nat) + out@,
        decreases k,
    {
        let d = digit_char_exec(rem % radix);
        let ghost old_out = out@;
        out.insert(0, d);
        assert(out@ =~= seq![d] + old_out);
        assert(fixed_digits((rem / radix) as nat, radix as nat, (k - 1) as nat).push(d) + old_out
            =~= fixed_digits((rem / radix) as nat, radix as nat, (k - 1) as nat) + out@);
        rem = rem / radix;
        k -= 1;
    }
    assert(fixed_digits(rem as nat, radix as nat, 0) + out@ =~= out@);
    out
}

/// `format!("{:016x}", h)`.
pub fn format_hex16(h: u64) -> (r: Vec<char>)
    ensures
        r@ == hex16(h),
{
    format_fixed(h, 16, 16)
}

/// `format!("{}", n)`.
pub fn format_decimal(n: u64) -> (r: Vec<char>)
    ensures
        r@ == decimal(n as nat),
{
    format_radix(n, 10)
}

/// `s` padded on the left with `'0'` to at least `width` characters.
pub fn zero_pad_exec(s: Vec<char>, width: usize) -> (r: Vec<char>)
    ensures
        r@ == zero_pad(s@, width as nat),
{
    if s.len() >= width {
        return s;
    }
    let mut out: Vec<char> = Vec::new();
    let mut i: usize = 0;
    let fill = width - s.len();
    while i < fill
        invariant
            i <= fill,
            out@ == Seq::new(i as nat, |j: int| '0'),
        decreases fill - i,
    {
        out.push('0');
        i += 1;
        assert(out@ =~= Seq::new(i as nat, |j: int| '0'));
    }
    let mut j: usize = 0;
    let ghost pad = out@;
    while j < s.len()
        invariant
            j <= s@.len(),
            out@ == pad + s@.take(j as int),
        decreases s.len() - j,
    {
        out.push(s[j]);
        j += 1;
        assert(out@ =~= pad + s@.take(j as int));
    }
    assert(s@.take(s@.len() as int) =~= s@);
    out
}

// ---------------------------------------------------------------------------
// Parsing
// ---------------------------------------------------------------------------

proof fn lemma_digits_value_prefix_le(d: Seq<char>, radix: nat, j: int)
    requires
        radix >= 1,
        0 <= j <= d.len(),
    ensures
        digits_value(d.take(j), radix) <= digits_value(d, radix),
    decreases d.len() - j,
{
    if j < d.len() {
        lemma_digits_value_prefix_le(d, radix, j + 1);
        assert(d.take(j + 1).drop_last() =~= d.take(j));
        let v = digits_value(d.take(j), radix);
        assert(v * radix >= v) by (nonlinear_arith)
            requires
                radix >= 1,
        ;
    } else {
        assert(d.take(j) =~= d);
    }
}

/// `from_str_radix(s, radix)` for an unsigned type whose largest value is `max`.
pub fn parse_unsigned_exec(s: &[char], radix: u64, max: u64) -> (r: Option<u64>)
    requires
        2 <= radix <= 16,
    ensures
        match r {
            Some(v) => parse_unsigned(s@, radix as nat, max as nat) == Some(v as nat),
            None => parse_unsigned(s@, radix as nat, max as nat) is None,
        },
{
    let start: usize = if s.len() > 0 && s[0] == '+' { 1 } else { 0 };
    let ghost d = if s@.len() > 0 && s@[0] == '+' { s@.drop_first() } else { s@ };
    assert(d =~= s@.skip(start as int));
    if start >= s.len() {
        return None;
    }
    let mut acc: u64 = 0;
    let mut i: usize = start;
    while i < s.len()
        invariant
            2 <= radix <= 16,
            start <= i <= s@.len(),
            d == s@.skip(start as int),
            d == (if s@.len() > 0 && s@[0] == '+' { s@.drop_first() } else { s@ }),
            acc as nat == digits_value(d.take(i - start), radix as nat),
            acc <= max,
            forall|k: int| 0 <= k < i - start ==> is_digit_of(#[trigger] d[k], radix as nat),
        decreases s.len() - i,
    {
        let dv = digit_value_exec(s[i]);
        assert(d[i - start] == s@[i as int]);
        match dv {
            Some(v) => {
                if v >= radix {
                    assert(!is_digit_of(d[i - start], radix as nat));
                    assert(!all_digits(d, radix as nat));
                    return None;
                }
                assert(d.take(i - start + 1).drop_last() =~= d.take(i - start));
                assert(d.take(i - start + 1).last() == s@[i as int]);
                let ghost next = digits_value(d.take(i - start + 1), radix as nat);
                assert(next == acc * radix + v);
                let lim = (u64::MAX - v) / radix;
                if acc > lim {
                    proof {
                        assert(acc * radix + v > u64::MAX) by (nonlinear_arith)
                            requires
                                acc > lim,
                                lim == (u64::MAX - v) as int / radix as int,
                                radix >= 2,
                                v < radix,
                        ;
                        if all_digits(d, radix as nat) {
                            lemma_digits_value_prefix_le(d, radix as nat, i - start + 1);
                        }
                    }
                    return None;
                }
                assert(acc * radix + v <= u64::MAX) by (nonlinear_arith)
                    requires
                        acc <= lim,
                        lim == (u64::MAX - v) as int / radix as int,
                        radix >= 2,
                        v < radix,
                ;
                let next_acc = acc * radix + v;
                if next_acc > max {
                    proof {
                        if all_digits(d, radix as nat) {
                            lemma_digits_value_prefix_le(d, radix as nat, i - start + 1);
                        }
                    }
                    return None;
                }
                acc = next_acc;
            },
            None => {
                assert(!is_digit_of(d[i - start], radix as nat));
                assert(!all_digits(d, radix as nat));
                return None;
            },
        }
        i += 1;
    }
    assert(d.take(d.len() as int) =~= d);
    Some(acc)
}

} // verus!

verus! {

/// `r` to the power `w`.
pub open spec fn pow_radix(r: nat, w: nat) -> nat
    decreases w,
{
    if w == 0 {
        1
    } else {
        r * pow_radix(r, (w - 1) as nat)
    }
}

/// A digit character reads back as its value.
pub proof fn lemma_digit_char(d: nat)
    requires
        d < 16,
    ensures
        digit_value(digit_char(d)) == Some(d),
        digit_char(d) != '+',
        digit_char(d) != '_',
        digit_char(d) != '[',
        digit_char(d) != '=',
        digit_char(d) != '\n',
{
    if d < 10 {
        assert(((48 + d) as char) as u32 == 48 + d);
    } else {
        assert(((87 + d) as char) as u32 == 87 + d);
    }
}

/// Zero-padded digits read back as the number they write, when it has at most `w`
/// digits.
pub proof fn lemma_fixed_digits_value(n: nat, r: nat, w: nat)
    requires
        2 <= r <= 16,
        n < pow_radix(r, w),
    ensures
        fixed_digits(n, r, w).len() == w,
        all_digits(fixed_digits(n, r, w), r),
        digits_value(fixed_digits(n, r, w), r) == n,
        forall|i: int| 0 <= i < w ==> #[trigger] fixed_digits(n, r, w)[i] != '_' && fixed_digits(n, r, w)[i] != '+'
            && fixed_digits(n, r, w)[i] != '[' && fixed_digits(n, r, w)[i] != '=' && fixed_digits(n, r, w)[i] != '\n',
    decreases w,
{
    if w > 0 {
        let p = pow_radix(r, (w - 1) as nat);
        assert(n / r < p) by (nonlinear_arith)
            requires
                n < r * p,
                r >= 2,
        ;
        assert(n % r < r) by (nonlinear_arith)
            requires
                r >= 2,
        ;
        lemma_fixed_digits_value(n / r, r, (w - 1) as nat);
        let prev = fixed_digits(n / r, r, (w - 1) as nat);
        let f = fixed_digits(n, r, w);
        assert(f == prev.push(digit_char(n % r)));
        assert(f.drop_last() =~= prev);
        lemma_digit_char(n % r);
        assert((n / r) * r + n % r == n) by (nonlinear_arith)
            requires
                r >= 2,
        ;
        assert forall|i: int| 0 <= i < f.len() implies is_digit_of(#[trigger] f[i], r) by {
            if i < prev.len() {
                assert(f[i] == prev[i]);
            }
        }
        assert forall|i: int| 0 <= i < w implies #[trigger] f[i] != '_' && f[i] != '+' && f[i] != '['
            && f[i] != '=' && f[i] != '\n' by {
            if i < prev.len() {
                assert(f[i] == prev[i]);
            }
        }
    } else {
        assert(fixed_digits(n, r, w) =~= Seq::<char>::empty());
    }
}

/// The digits of `n` read back as `n`; the first is never a sign.
pub proof fn lemma_digits_of_value(n: nat, r: nat)
    requires
        2 <= r <= 16,
    ensures
        digits_of(n, r).len() > 0,
        all_digits(digits_of(n, r), r),
        digits_value(digits_of(n, r), r) == n,
        digits_of(n, r)[0] != '+',
    decreases n,
{
    let d = digits_of(n, r);
    if n < r {
        lemma_digit_char(n);
        assert(d =~= seq![digit_char(n)]);
        assert(d.drop_last() =~= Seq::<char>::empty());
        assert(digits_value(d.drop_last(), r) == 0);
        assert(0 * r == 0);
        assert(digits_value(d, r) == digits_value(d.drop_last(), r) * r + digit_value(d.last()).unwrap());
    } else {
        assert(n / r < n) by (nonlinear_arith)
            requires
                n >= r,
                r >= 2,
        ;
        assert(n % r < r) by (nonlinear_arith)
            requires
                r >= 2,
        ;
        assert((n / r) * r + n % r == n) by (nonlinear_arith)
            requires
                r >= 2,
        ;
        lemma_digits_of_value(n / r, r);
        lemma_digit_char(n % r);
        let prev = digits_of(n / r, r);
        assert(d == prev.push(digit_char(n % r)));
        assert(d.drop_last() =~= prev);
        assert forall|i: int| 0 <= i < d.len() implies is_digit_of(#[trigger] d[i], r) by {
            if i < prev.len() {
                assert(d[i] == prev[i]);
            }
        }
        assert(d[0] == prev[0]);
        assert(d.last() == digit_char(n % r));
        assert(digits_value(d, r) == digits_value(prev, r) * r + digit_value(d.last()).unwrap());
    }
}

/// `k` zeros.
pub open spec fn zeros(k: nat) -> Seq<char> {
    Seq::new(k, |i: int| '0')
}

proof fn lemma_zeros_value(k: nat, r: nat)
    requires
        2 <= r <= 16,
    ensures
        all_digits(zeros(k), r),
        digits_value(zeros(k), r) == 0,
    decreases k,
{
    assert(digit_value('0') == Some(0nat));
    if k > 0 {
        lemma_zeros_value((k - 1) as nat, r);
        assert(zeros(k).drop_last() =~= zeros((k - 1) as nat));
        assert(zeros(k).last() == '0');
        assert(0 * r == 0);
        assert(digits_value(zeros(k), r) == digits_value(zeros(k).drop_last(), r) * r + digit_value(
            zeros(k).last(),
        ).unwrap());
    }
}

/// Leading zeros change neither the digits' validity nor their value.
pub proof fn lemma_leading_zeros(k: nat, d: Seq<char>, r: nat)
    requires
        2 <= r <= 16,
        all_digits(d, r),
    ensures
        all_digits(zeros(k) + d, r),
        digits_value(zeros(k) + d, r) == digits_value(d, r),
    decreases d.len(),
{
    let z = zeros(k);
    lemma_zeros_value(k, r);
    let s = z + d;
    assert forall|i: int| 0 <= i < s.len() implies is_digit_of(#[trigger] s[i], r) by {
        if i < k {
            assert(s[i] == z[i]);
        } else {
            assert(s[i] == d[i - k]);
        }
    }
    if d.len() == 0 {
        assert(s =~= z);
    } else {
        let rest = d.drop_last();
        assert forall|i: int| 0 <= i < rest.len() implies is_digit_of(#[trigger] rest[i], r) by {
            assert(rest[i] == d[i]);
        }
        lemma_leading_zeros(k, rest, r);
        assert(s.drop_last() =~= z + rest);
        assert(s.last() == d.last());
    }
}

/// Sixteen hexadecimal digits read back as the number they write.
pub proof fn lemma_hex16_parses(h: u64)
    ensures
        parse_unsigned(hex16(h), 16, u64::MAX as nat) == Some(h as nat),
        hex16(h).len() == 16,
        forall|i: int| 0 <= i < 16 ==> #[trigger] hex16(h)[i] != '_' && hex16(h)[i] != '['
            && hex16(h)[i] != '=' && hex16(h)[i] != '\n',
{
    reveal_with_fuel(pow_radix, 17);
    assert(pow_radix(16, 16) == 0x1_0000_0000_0000_0000);
    lemma_fixed_digits_value(h as nat, 16, 16);
}

} // verus!
