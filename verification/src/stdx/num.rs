//! Unsigned integer parsing and formatting over characters.
use vstd::prelude::*;

verus! {

/// The value of `c` as a digit in `radix`, as `char::to_digit` gives it.
pub open spec fn digit_value(c: char, radix: nat) -> Option<nat> {
    let v: int = if '0' <= c && c <= '9' {
        c as int - '0' as int
    } else if 'a' <= c && c <= 'z' {
        c as int - 'a' as int + 10
    } else if 'A' <= c && c <= 'Z' {
        c as int - 'A' as int + 10
    } else {
        36
    };
    if v < radix {
        Some(v as nat)
    } else {
        None
    }
}

fn digit_of(c: char, radix: u32) -> (r: Option<u32>)
    requires
        2 <= radix <= 36,
    ensures
        match digit_value(c, radix as nat) {
            Some(d) => r == Some(d as u32),
            None => r is None,
        },
{
    let v: u32 = if '0' <= c && c <= '9' {
        (c as u32) - ('0' as u32)
    } else if 'a' <= c && c <= 'z' {
        (c as u32) - ('a' as u32) + 10
    } else if 'A' <= c && c <= 'Z' {
        (c as u32) - ('A' as u32) + 10
    } else {
        36
    };
    if v < radix {
        Some(v)
    } else {
        None
    }
}

/// The character for digit `d` (below 36), lowercase for letters.
pub open spec fn digit_char(d: nat) -> char {
    if d < 10 {
        (('0' as int) + d) as char
    } else {
        (('a' as int) + d - 10) as char
    }
}

fn digit_char_of(d: u32) -> (c: char)
    requires
        d < 36,
    ensures
        c == digit_char(d as nat),
{
    if d < 10 {
        ((('0' as u32) + d) as u8) as char
    } else {
        ((('a' as u32) + d - 10) as u8) as char
    }
}

/// Why parsing an unsigned integer failed, as `std::num::IntErrorKind` tells it.
#[derive(Debug, Clone, Copy, PartialEq, Eq, Structural)]
pub enum IntErrorKind {
    /// The input was empty.
    Empty,
    /// The input held a character that is not a digit of the radix.
    InvalidDigit,
    /// The value does not fit the target type.
    PosOverflow,
}

/// The text a `std::num::ParseIntError` of this kind displays.
pub open spec fn int_error_text(e: IntErrorKind) -> Seq<char> {
    match e {
        IntErrorKind::Empty => "cannot parse integer from empty string"@,
        IntErrorKind::InvalidDigit => "invalid digit found in string"@,
        IntErrorKind::PosOverflow => "number too large to fit in target type"@,
    }
}

impl IntErrorKind {
    /// The text a `std::num::ParseIntError` of this kind displays.
    pub fn text(&self) -> (s: &'static str)
        ensures
            s@ == int_error_text(*self),
    {
        match self {
            IntErrorKind::Empty => "cannot parse integer from empty string",
            IntErrorKind::InvalidDigit => "invalid digit found in string",
            IntErrorKind::PosOverflow => "number too large to fit in target type",
        }
    }
}

/// Reading the digits of `s` left to right in `radix`, failing at the first
/// character that is not a digit or at the first prefix whose value exceeds `max`.
pub open spec fn scan_digits(s: Seq<char>, radix: nat, max: nat) -> Result<nat, IntErrorKind>
    decreases s.len(),
{
    if s.len() == 0 {
        Ok(0)
    } else {
        match scan_digits(s.drop_last(), radix, max) {
            Err(e) => Err(e),
            Ok(acc) => match digit_value(s.last(), radix) {
                None => Err(IntErrorKind::InvalidDigit),
                Some(d) => if acc * radix + d > max {
                    Err(IntErrorKind::PosOverflow)
                } else {
                    Ok(acc * radix + d)
                },
            },
        }
    }
}

/// `u*::from_str_radix` for an unsigned type whose largest value is `max`:
/// an optional leading `+`, then at least one digit.
pub open spec fn parse_uint(s: Seq<char>, radix: nat, max: nat) -> Result<nat, IntErrorKind> {
    if s.len() == 0 {
        Err(IntErrorKind::Empty)
    } else if s.len() == 1 && (s[0] == '+' || s[0] == '-') {
        Err(IntErrorKind::InvalidDigit)
    } else if s[0] == '+' {
        scan_digits(s.drop_first(), radix, max)
    } else {
        scan_digits(s, radix, max)
    }
}

/// The digits of `n` in `radix`, most significant first, without leading zeros.
pub open spec fn radix_digits(n: nat, radix: nat) -> Seq<char>
    decreases n,
{
    if radix < 2 || n < radix {
        seq![digit_char(n)]
    } else {
        proof {
            lemma_div_smaller(n, radix);
        }
        radix_digits(n / radix, radix).push(digit_char(n % radix))
    }
}

pub proof fn lemma_div_smaller(n: nat, radix: nat)
    requires
        radix >= 2,
        n >= radix,
    ensures
        n / radix < n,
{
    assert(n / radix < n) by (nonlinear_arith)
        requires
            radix >= 2,
            n >= radix,
    ;
}

/// The decimal digits of `n`.
pub open spec fn decimal(n: nat) -> Seq<char> {
    radix_digits(n, 10)
}

/// `n` in decimal, left-padded with zeros to at least `width` characters (`{:0width$}`).
pub open spec fn zero_padded(n: nat, width: nat) -> Seq<char> {
    let d = decimal(n);
    if d.len() >= width {
        d
    } else {
        Seq::new((width - d.len()) as nat, |i: int| '0') + d
    }
}

proof fn lemma_scan_err_extends(s: Seq<char>, radix: nat, max: nat, j: int)
    requires
        0 <= j <= s.len(),
        scan_digits(s.take(j), radix, max) is Err,
    ensures
        scan_digits(s, radix, max) == scan_digits(s.take(j), radix, max),
    decreases s.len() - j,
{
    if j < s.len() {
        let t = s.take(j + 1);
        assert(t.drop_last() =~= s.take(j));
        lemma_scan_err_extends(s, radix, max, j + 1);
    } else {
        assert(s.take(j) =~= s);
    }
}

/// `u*::from_str_radix` on characters, for a target type whose largest value is `max`.
pub fn parse_uint_chars(s: &[char], radix: u32, max: u64) -> (r: Result<u64, IntErrorKind>)
    requires
        2 <= radix <= 36,
    ensures
        match parse_uint(s@, radix as nat, max as nat) {
            Ok(v) => r == Ok::<u64, IntErrorKind>(v as u64),
            Err(e) => r == Err::<u64, IntErrorKind>(e),
        },
{
    if s.len() == 0 {
        return Err(IntErrorKind::Empty);
    }
    if s.len() == 1 && (s[0] == '+' || s[0] == '-') {
        return Err(IntErrorKind::InvalidDigit);
    }
    let start: usize = if s[0] == '+' { 1 } else { 0 };
    let ghost body = s@.skip(start as int);
    assert(start == 1 ==> body =~= s@.drop_first());
    assert(start == 0 ==> body =~= s@);
    let mut acc: u64 = 0;
    let mut i: usize = start;
    assert(body.take(0) =~= Seq::<char>::empty());
    while i < s.len()
        invariant
            start <= i <= s.len(),
            body == s@.skip(start as int),
            parse_uint(s@, radix as nat, max as nat) == scan_digits(body, radix as nat, max as nat),
            2 <= radix <= 36,
            acc <= max,
            scan_digits(body.take(i - start), radix as nat, max as nat) == Ok::<nat, IntErrorKind>(acc as nat),
        decreases s.len() - i,
    {
        let ghost k: int = i - start;
        assert(body.take(k + 1).drop_last() =~= body.take(k));
        assert(body.take(k + 1).last() == s@[i as int]);
        match digit_of(s[i], radix) {
            None => {
                proof {
                    assert(scan_digits(body.take(k + 1), radix as nat, max as nat) == Err::<nat, IntErrorKind>(IntErrorKind::InvalidDigit));
                    lemma_scan_err_extends(body, radix as nat, max as nat, k + 1);
                }
                return Err(IntErrorKind::InvalidDigit);
            },
            Some(d) => {
                assert((acc as u128) * (radix as u128) <= 0xffff_ffff_ffff_ffffu128 * 36) by (nonlinear_arith)
                    requires
                        acc <= 0xffff_ffff_ffff_ffffu64,
                        radix <= 36,
                ;
                let next: u128 = (acc as u128) * (radix as u128) + (d as u128);
                if next > max as u128 {
                    proof {
                        assert(scan_digits(body.take(k + 1), radix as nat, max as nat) == Err::<nat, IntErrorKind>(IntErrorKind::PosOverflow));
                        lemma_scan_err_extends(body, radix as nat, max as nat, k + 1);
                    }
                    return Err(IntErrorKind::PosOverflow);
                }
                acc = next as u64;
            },
        }
        i += 1;
    }
    assert(body.take(i - start) =~= body);
    Ok(acc)
}

/// The digits of `n` in `radix`.
pub fn radix_chars(n: u64, radix: u32) -> (r: Vec<char>)
    requires
        2 <= radix <= 36,
    ensures
        r@ == radix_digits(n as nat, radix as nat),
    decreases n,
{
    if n < radix as u64 {
        let mut v = Vec::new();
        assert(radix_digits(n as nat, radix as nat) == seq![digit_char(n as nat)]);
        v.push(digit_char_of(n as u32));
        v
    } else {
        proof {
            lemma_div_smaller(n as nat, radix as nat);
        }
        let mut v = radix_chars(n / (radix as u64), radix);
        v.push(digit_char_of((n % (radix as u64)) as u32));
        v
    }
}

/// `n` in decimal, zero-padded to at least `width` characters.
pub fn zero_padded_chars(n: u64, width: usize) -> (r: Vec<char>)
    ensures
        r@ == zero_padded(n as nat, width as nat),
{
    let d = radix_chars(n, 10);
    if d.len() >= width {
        return d;
    }
    let mut r: Vec<char> = Vec::new();
    let pad = width - d.len();
    let mut i: usize = 0;
    while i < pad
        invariant
            i <= pad,
            pad == width - d@.len(),
            r@ == Seq::new(i as nat, |j: int| '0'),
        decreases pad - i,
    {
        r.push('0');
        i += 1;
        assert(r@ =~= Seq::new(i as nat, |j: int| '0'));
    }
    let ghost before = r@;
    let mut k: usize = 0;
    while k < d.len()
        invariant
            k <= d.len(),
            r@ == before + d@.take(k as int),
        decreases d.len() - k,
    {
        r.push(d[k]);
        k += 1;
        assert(before + d@.take(k as int) =~= (before + d@.take(k - 1)).push(d@[k - 1]));
    }
    assert(d@.take(d.len() as int) =~= d@);
    r
}

/// A digit character reads back as the digit it stands for.
pub proof fn lemma_digit_roundtrip(d: nat, radix: nat)
    requires
        d < radix <= 36,
    ensures
        digit_value(digit_char(d), radix) == Some(d),
        ('0' <= digit_char(d) && digit_char(d) <= '9') || ('a' <= digit_char(d) && digit_char(d) <= 'z'),
{
}

proof fn lemma_radix_digits_shape(n: nat, radix: nat)
    requires
        2 <= radix <= 36,
    ensures
        radix_digits(n, radix).len() >= 1,
        ('0' <= radix_digits(n, radix)[0] && radix_digits(n, radix)[0] <= '9') || ('a'
            <= radix_digits(n, radix)[0] && radix_digits(n, radix)[0] <= 'z'),
    decreases n,
{
    if n < radix {
        lemma_digit_roundtrip(n, radix);
    } else {
        lemma_div_smaller(n, radix);
        lemma_radix_digits_shape(n / radix, radix);
    }
}

proof fn lemma_scan_radix_digits(n: nat, radix: nat, max: nat)
    requires
        2 <= radix <= 36,
        n <= max,
    ensures
        scan_digits(radix_digits(n, radix), radix, max) == Ok::<nat, IntErrorKind>(n),
    decreases n,
{
    let s = radix_digits(n, radix);
    if n < radix {
        lemma_digit_roundtrip(n, radix);
        assert(s == seq![digit_char(n)]);
        assert(s.drop_last() =~= Seq::<char>::empty());
        assert(s.last() == digit_char(n));
        assert(scan_digits(s.drop_last(), radix, max) == Ok::<nat, IntErrorKind>(0));
        assert(0 * radix == 0) by (nonlinear_arith);
    } else {
        lemma_div_smaller(n, radix);
        lemma_scan_radix_digits(n / radix, radix, max);
        assert(n % radix < radix) by (nonlinear_arith)
            requires
                radix >= 2,
        ;
        lemma_digit_roundtrip(n % radix, radix);
        assert(s == radix_digits(n / radix, radix).push(digit_char(n % radix)));
        assert(s.drop_last() =~= radix_digits(n / radix, radix));
        assert(s.last() == digit_char(n % radix));
        assert((n / radix) * radix + n % radix == n) by (nonlinear_arith)
            requires
                radix >= 2,
        ;
    }
}

/// Parsing the digits that formatting produced gives the number back.
pub proof fn lemma_parse_radix_digits(n: nat, radix: nat, max: nat)
    requires
        2 <= radix <= 36,
        n <= max,
    ensures
        parse_uint(radix_digits(n, radix), radix, max) == Ok::<nat, IntErrorKind>(n),
{
    lemma_radix_digits_shape(n, radix);
    lemma_scan_radix_digits(n, radix, max);
}

/// `str::parse` for an unsigned decimal whose type's largest value is `max`.
pub open spec fn parse_decimal(s: Seq<char>, max: nat) -> Result<nat, IntErrorKind> {
    parse_uint(s, 10, max)
}

/// `s.parse::<u64>()`.
pub fn parse_u64(s: &[char]) -> (r: Result<u64, IntErrorKind>)
    ensures
        match parse_decimal(s@, u64::MAX as nat) {
            Ok(v) => r == Ok::<u64, IntErrorKind>(v as u64),
            Err(e) => r == Err::<u64, IntErrorKind>(e),
        },
{
    parse_uint_chars(s, 10, u64::MAX)
}

/// `s.parse::<u32>()`.
pub fn parse_u32(s: &[char]) -> (r: Result<u32, IntErrorKind>)
    ensures
        match parse_decimal(s@, u32::MAX as nat) {
            Ok(v) => r == Ok::<u32, IntErrorKind>(v as u32),
            Err(e) => r == Err::<u32, IntErrorKind>(e),
        },
{
    match parse_uint_chars(s, 10, u32::MAX as u64) {
        Ok(v) => Ok(v as u32),
        Err(e) => Err(e),
    }
}

/// `s.parse::<u16>()`.
pub fn parse_u16(s: &[char]) -> (r: Result<u16, IntErrorKind>)
    ensures
        match parse_decimal(s@, u16::MAX as nat) {
            Ok(v) => r == Ok::<u16, IntErrorKind>(v as u16),
            Err(e) => r == Err::<u16, IntErrorKind>(e),
        },
{
    match parse_uint_chars(s, 10, u16::MAX as u64) {
        Ok(v) => Ok(v as u16),
        Err(e) => Err(e),
    }
}

/// `s.parse::<u8>()`.
pub fn parse_u8(s: &[char]) -> (r: Result<u8, IntErrorKind>)
    ensures
        match parse_decimal(s@, u8::MAX as nat) {
            Ok(v) => r == Ok::<u8, IntErrorKind>(v as u8),
            Err(e) => r == Err::<u8, IntErrorKind>(e),
        },
{
    match parse_uint_chars(s, 10, u8::MAX as u64) {
        Ok(v) => Ok(v as u8),
        Err(e) => Err(e),
    }
}

/// `n.to_string()` for an unsigned integer.
pub fn decimal_string(n: u64) -> (r: String)
    ensures
        r@ == decimal(n as nat),
{
    let v = radix_chars(n, 10);
    crate::stdx::text::string_from_chars(&v)
}

/// A lowercase ASCII letter or digit.
pub open spec fn is_alnum_lower(c: char) -> bool {
    ('0' <= c && c <= '9') || ('a' <= c && c <= 'z')
}

/// Every character of a number's digits is a digit or lowercase letter.
pub proof fn lemma_radix_digits_alnum(n: nat, radix: nat)
    requires
        2 <= radix <= 36,
    ensures
        radix_digits(n, radix).len() >= 1,
        forall|i: int| 0 <= i < radix_digits(n, radix).len() ==> is_alnum_lower(#[trigger] radix_digits(n, radix)[i]),
    decreases n,
{
    if n < radix {
        lemma_digit_roundtrip(n, radix);
    } else {
        lemma_div_smaller(n, radix);
        lemma_radix_digits_alnum(n / radix, radix);
        assert(n % radix < radix) by (nonlinear_arith)
            requires
                radix >= 2,
        ;
        lemma_digit_roundtrip(n % radix, radix);
    }
}

/// The decimal digits of a number are ASCII digits, at least one of them.
pub proof fn lemma_decimal_digits(n: nat)
    ensures
        decimal(n).len() >= 1,
        forall|i: int| 0 <= i < decimal(n).len() ==> '0' <= #[trigger] decimal(n)[i] && decimal(n)[i] <= '9',
    decreases n,
{
    if n >= 10 {
        lemma_div_smaller(n, 10);
        lemma_decimal_digits(n / 10);
        assert(decimal(n) == decimal(n / 10).push(digit_char(n % 10)));
    }
}

proof fn lemma_scan_zeros(k: nat, max: nat)
    ensures
        scan_digits(Seq::new(k, |i: int| '0'), 10, max) == Ok::<nat, IntErrorKind>(0),
    decreases k,
{
    if k > 0 {
        lemma_scan_zeros((k - 1) as nat, max);
        assert(Seq::new(k, |i: int| '0').drop_last() =~= Seq::new((k - 1) as nat, |i: int| '0'));
    }
}

proof fn lemma_scan_leading_zeros(k: nat, d: Seq<char>, max: nat)
    ensures
        scan_digits(Seq::new(k, |i: int| '0') + d, 10, max) == scan_digits(d, 10, max),
    decreases d.len(),
{
    let z = Seq::new(k, |i: int| '0');
    if d.len() == 0 {
        assert(z + d =~= z);
        lemma_scan_zeros(k, max);
    } else {
        lemma_scan_leading_zeros(k, d.drop_last(), max);
        assert((z + d).drop_last() =~= z + d.drop_last());
        assert((z + d).last() == d.last());
    }
}

/// A zero-padded number parses back to the number.
pub proof fn lemma_parse_zero_padded(n: nat, width: nat, max: nat)
    requires
        n <= max,
    ensures
        parse_decimal(zero_padded(n, width), max) == Ok::<nat, IntErrorKind>(n),
        zero_padded(n, width).len() >= 1,
        forall|i: int| 0 <= i < zero_padded(n, width).len() ==> '0' <= #[trigger] zero_padded(n, width)[i] && zero_padded(n, width)[i] <= '9',
{
    lemma_decimal_digits(n);
    lemma_scan_radix_digits(n, 10, max);
    let d = decimal(n);
    if d.len() < width {
        let k = (width - d.len()) as nat;
        lemma_scan_leading_zeros(k, d, max);
        let z = Seq::new(k, |i: int| '0');
        assert forall|i: int| 0 <= i < (z + d).len() implies '0' <= #[trigger] (z + d)[i] && (z + d)[i] <= '9' by {
            if i >= k {
                assert((z + d)[i] == d[i - k]);
            }
        }
    }
}

} // verus!
