//! Bucket arithmetic: which fixed-size page an item falls on.
use vstd::prelude::*;

verus! {

/// The 1-based bucket that `value` falls into when items are grouped `size` at a time.
///
/// `0` belongs to the first bucket, and a `size` of `0` gives `1`. Using the total
/// item count as `value` gives the total number of buckets.
pub open spec fn bucket_of(value: nat, size: nat) -> nat {
    if size == 0 || value == 0 {
        1
    } else {
        (value / size + if value % size != 0 { 1nat } else { 0nat }) as nat
    }
}

/// The absolute value.
pub open spec fn abs(a: int) -> int {
    if a < 0 {
        -a
    } else {
        a
    }
}

/// Rust's division of integers, which rounds toward zero.
pub open spec fn trunc_div(a: int, b: int) -> int {
    if a >= 0 && b > 0 {
        a / b
    } else if a >= 0 && b < 0 {
        -(a / -b)
    } else if a < 0 && b > 0 {
        -((-a) / b)
    } else {
        (-a) / (-b)
    }
}

/// The bucket arithmetic of a signed integer, with Rust's rounding toward zero: the
/// quotient, plus one when the division leaves a remainder or `value` is `0`; `1` for a
/// `size` of `0`. For a non-negative value and positive size it is [`bucket_of`].
pub open spec fn signed_bucket_of(value: int, size: int) -> int {
    if size == 0 {
        1
    } else {
        trunc_div(value, size) + if abs(value) % abs(size) != 0 || value == 0 { 1int } else { 0int }
    }
}

/// Bucket arithmetic on integers.
pub trait MathExt: Sized {
    /// Whether the bucket of `self` for `size` can be computed: everywhere except the one
    /// signed division that overflows (the smallest value by `-1`).
    spec fn bucket_defined(self, size: Self) -> bool;

    /// Returns the 1-based index of the bucket that `self` falls into, given a bucket size.
    fn in_bucket_of(self, size: Self) -> Self
        requires
            self.bucket_defined(size),
    ;
}

impl MathExt for u8 {
    open spec fn bucket_defined(self, size: u8) -> bool {
        true
    }

    fn in_bucket_of(self, size: u8) -> (r: u8)
        ensures
            r as nat == bucket_of(self as nat, size as nat),
    {
        if size == 0 {
            return 1;
        }
        proof {
            lemma_bucket_fits(self as nat, size as nat);
        }
        self / size + if self % size != 0 || self == 0 { 1 } else { 0 }
    }
}

impl MathExt for u16 {
    open spec fn bucket_defined(self, size: u16) -> bool {
        true
    }

    fn in_bucket_of(self, size: u16) -> (r: u16)
        ensures
            r as nat == bucket_of(self as nat, size as nat),
    {
        if size == 0 {
            return 1;
        }
        proof {
            lemma_bucket_fits(self as nat, size as nat);
        }
        self / size + if self % size != 0 || self == 0 { 1 } else { 0 }
    }
}

impl MathExt for u32 {
    open spec fn bucket_defined(self, size: u32) -> bool {
        true
    }

    fn in_bucket_of(self, size: u32) -> (r: u32)
        ensures
            r as nat == bucket_of(self as nat, size as nat),
    {
        if size == 0 {
            return 1;
        }
        proof {
            lemma_bucket_fits(self as nat, size as nat);
        }
        self / size + if self % size != 0 || self == 0 { 1 } else { 0 }
    }
}

impl MathExt for u64 {
    open spec fn bucket_defined(self, size: u64) -> bool {
        true
    }

    fn in_bucket_of(self, size: u64) -> (r: u64)
        ensures
            r as nat == bucket_of(self as nat, size as nat),
    {
        if size == 0 {
            return 1;
        }
        proof {
            lemma_bucket_fits(self as nat, size as nat);
        }
        self / size + if self % size != 0 || self == 0 { 1 } else { 0 }
    }
}

impl MathExt for usize {
    open spec fn bucket_defined(self, size: usize) -> bool {
        true
    }

    fn in_bucket_of(self, size: usize) -> (r: usize)
        ensures
            r as nat == bucket_of(self as nat, size as nat),
    {
        if size == 0 {
            return 1;
        }
        proof {
            lemma_bucket_fits(self as nat, size as nat);
        }
        self / size + if self % size != 0 || self == 0 { 1 } else { 0 }
    }
}

impl MathExt for i32 {
    open spec fn bucket_defined(self, size: i32) -> bool {
        !(self == i32::MIN && size == -1)
    }

    fn in_bucket_of(self, size: i32) -> (r: i32)
        ensures
            r as int == signed_bucket_of(self as int, size as int),
    {
        if size == 0 {
            return 1;
        }
        let r = signed_bucket(self as i64, size as i64);
        proof {
            lemma_signed_bucket_range(self as int, size as int, 0x8000_0000);
        }
        r as i32
    }
}

impl MathExt for i64 {
    open spec fn bucket_defined(self, size: i64) -> bool {
        !(self == i64::MIN && size == -1)
    }

    fn in_bucket_of(self, size: i64) -> (r: i64)
        ensures
            r as int == signed_bucket_of(self as int, size as int),
    {
        if size == 0 {
            return 1;
        }
        let r = signed_bucket(self, size);
        proof {
            lemma_signed_bucket_range(self as int, size as int, 0x8000_0000_0000_0000);
        }
        r as i64
    }
}

fn unsigned_abs(a: i64) -> (r: u64)
    ensures
        r as int == abs(a as int),
{
    if a >= 0 {
        a as u64
    } else if a == i64::MIN {
        0x8000_0000_0000_0000u64
    } else {
        (-a) as u64
    }
}

/// The signed bucket of `value` for a non-zero `size`, in full width.
fn signed_bucket(value: i64, size: i64) -> (r: i128)
    requires
        size != 0,
    ensures
        r as int == signed_bucket_of(value as int, size as int),
{
    let a = unsigned_abs(value);
    let b = unsigned_abs(size);
    let q = a / b;
    let rem = a % b;
    let negative = (value < 0) != (size < 0);
    let tq: i128 = if negative { -(q as i128) } else { q as i128 };
    proof {
        let v = value as int;
        let s = size as int;
        assert(q as int == abs(v) / abs(s));
        if v >= 0 && s > 0 {
            assert(tq as int == trunc_div(v, s));
        } else if v >= 0 && s < 0 {
            assert(tq as int == trunc_div(v, s));
        } else if v < 0 && s > 0 {
            assert(tq as int == trunc_div(v, s));
        } else {
            assert(tq as int == trunc_div(v, s));
        }
    }
    if rem != 0 || value == 0 {
        tq + 1
    } else {
        tq
    }
}

/// Away from the one overflowing division, the signed bucket fits the type: it lies
/// between `-limit + 1` and `limit - 1` for values in `[-limit, limit)`.
proof fn lemma_signed_bucket_range(value: int, size: int, limit: int)
    requires
        limit > 1,
        -limit <= value < limit,
        -limit <= size < limit,
        size != 0,
        !(value == -limit && size == -1),
    ensures
        -limit <= signed_bucket_of(value, size) < limit,
{
    let a = abs(value);
    let b = abs(size);
    assert(a / b <= a) by (nonlinear_arith)
        requires
            a >= 0,
            b >= 1,
    ;
    assert(b >= 2 ==> a / b <= a / 2) by (nonlinear_arith)
        requires
            a >= 0,
            b >= 1,
    ;
    assert(b == 1 ==> a % b == 0 && a / b == a) by (nonlinear_arith)
        requires
            a >= 0,
            b >= 1,
    ;
    assert(a % b != 0 ==> a >= 1) by (nonlinear_arith)
        requires
            a >= 0,
            b >= 1,
    ;
}

proof fn lemma_bucket_fits(value: nat, size: nat)
    requires
        size > 0,
    ensures
        value / size + (if value % size != 0 || value == 0 { 1nat } else { 0nat }) <= if value == 0 {
            1
        } else {
            value
        },
        value % size != 0 ==> value / size < value,
{
    if size == 1 {
        assert(value % 1 == 0 && value / 1 == value) by (nonlinear_arith);
    } else {
        assert(value / size <= value / 2 && (value > 0 ==> value / 2 < value) && (value == 0 ==> value / size == 0)) by (nonlinear_arith)
            requires
                size >= 2,
        ;
        assert(value % size != 0 ==> value > 0) by (nonlinear_arith)
            requires
                size >= 2,
        ;
    }
}

/// For a positive value and size, the bucket is the least one whose end reaches the value:
/// `(bucket - 1) * size < value <= bucket * size`.
pub proof fn lemma_bucket_bounds(value: nat, size: nat)
    requires
        value > 0,
        size > 0,
    ensures
        bucket_of(value, size) >= 1,
        (bucket_of(value, size) - 1) * size < value,
        value <= bucket_of(value, size) * size,
{
    let q = value / size;
    let r = value % size;
    assert(value == q * size + r && 0 <= r < size) by (nonlinear_arith)
        requires
            size > 0,
            q == value / size,
            r == value % size,
    ;
    if r != 0 {
        assert((q + 1 - 1) * size < value && value <= (q + 1) * size) by (nonlinear_arith)
            requires
                value == q * size + r,
                0 < r < size,
        ;
    } else {
        assert(q >= 1 && (q - 1) * size < value && value <= q * size) by (nonlinear_arith)
            requires
                value == q * size,
                value > 0,
                size > 0,
        ;
    }
}

} // verus!
