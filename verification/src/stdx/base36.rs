//! Base-36 numbers, as `webtoons.com` writes post positions in post ids.
use crate::stdx::num::{
    IntErrorKind, lemma_parse_radix_digits, parse_uint, parse_uint_chars, radix_chars,
    radix_digits,
};
use crate::stdx::text::{chars_of, string_from_chars};
use vstd::prelude::*;

verus! {

/// A base-36 encoded unsigned integer, using digits `0-9` and `a-z`.
#[derive(Debug, Clone, Copy, PartialEq, Eq, Structural, PartialOrd, Ord, Hash)]
pub struct Base36(u32);

impl View for Base36 {
    type V = nat;

    closed spec fn view(&self) -> nat {
        self.0 as nat
    }
}

impl Base36 {
    /// Creates a `Base36` from a raw `u32`.
    pub fn new(n: u32) -> (b: Self)
        ensures
            b@ == n as nat,
    {
        Self(n)
    }

    /// The number this value stands for.
    pub fn value(&self) -> (n: u32)
        ensures
            n as nat == self@,
    {
        self.0
    }

    /// Every `Base36` fits in a `u32`.
    pub proof fn lemma_fits(&self)
        ensures
            self@ <= u32::MAX,
    {
    }

    /// `self + rhs`.
    pub fn add(self, rhs: Base36) -> (b: Self)
        requires
            self@ + rhs@ <= u32::MAX,
        ensures
            b@ == self@ + rhs@,
    {
        Self(self.0 + rhs.0)
    }

    /// `self + rhs` for a plain `u32`.
    pub fn add_u32(self, rhs: u32) -> (b: Self)
        requires
            self@ + rhs <= u32::MAX,
        ensures
            b@ == self@ + rhs,
    {
        Self(self.0 + rhs)
    }

    /// `true` if this value equals the plain `u32` `other`.
    pub fn eq_u32(&self, other: u32) -> (b: bool)
        ensures
            b == (self@ == other as nat),
    {
        self.0 == other
    }

    /// Parses a base-36 number as `u32::from_str_radix(s, 36)` does.
    pub fn from_str(s: &str) -> (r: Result<Self, IntErrorKind>)
        ensures
            match parse_uint(s@, 36, u32::MAX as nat) {
                Ok(v) => r matches Ok(b) && b@ == v,
                Err(e) => r == Err::<Base36, IntErrorKind>(e),
            },
    {
        let cs = chars_of(s);
        Self::from_chars(&cs)
    }

    /// Parses base-36 characters as `u32::from_str_radix` does.
    pub fn from_chars(s: &[char]) -> (r: Result<Self, IntErrorKind>)
        ensures
            match parse_uint(s@, 36, u32::MAX as nat) {
                Ok(v) => r matches Ok(b) && b@ == v,
                Err(e) => r == Err::<Base36, IntErrorKind>(e),
            },
    {
        match parse_uint_chars(s, 36, u32::MAX as u64) {
            Ok(v) => Ok(Self(v as u32)),
            Err(e) => Err(e),
        }
    }

    /// `TryFrom<String>`: parses the string as base 36.
    pub fn try_from_string(value: String) -> (r: Result<Self, IntErrorKind>)
        ensures
            match parse_uint(value@, 36, u32::MAX as nat) {
                Ok(v) => r matches Ok(b) && b@ == v,
                Err(e) => r == Err::<Base36, IntErrorKind>(e),
            },
    {
        Self::from_str(value.as_str())
    }

    /// The lowercase base-36 digits of this value, without leading zeros.
    pub fn to_chars(&self) -> (v: Vec<char>)
        ensures
            v@ == radix_digits(self@, 36),
    {
        radix_chars(self.0 as u64, 36)
    }

    /// The lowercase base-36 digits of this value, without leading zeros.
    pub fn to_string(&self) -> (s: String)
        ensures
            s@ == radix_digits(self@, 36),
    {
        let v = self.to_chars();
        string_from_chars(&v)
    }
}

/// Parsing what `to_string` writes gives the same value back.
pub proof fn lemma_base36_roundtrip(b: Base36)
    ensures
        parse_uint(radix_digits(b@, 36), 36, u32::MAX as nat) == Ok::<nat, IntErrorKind>(b@),
{
    lemma_parse_radix_digits(b@, 36, u32::MAX as nat);
}

/// Two values with the same digits are the same value.
pub proof fn lemma_base36_digits_injective(a: Base36, b: Base36)
    requires
        radix_digits(a@, 36) == radix_digits(b@, 36),
    ensures
        a == b,
{
    lemma_parse_radix_digits(a@, 36, u32::MAX as nat);
    lemma_parse_radix_digits(b@, 36, u32::MAX as nat);
}

/// Two values that stand for the same number are the same value.
pub proof fn lemma_base36_view_injective(a: Base36, b: Base36)
    requires
        a@ == b@,
    ensures
        a == b,
{
}

} // verus!
