use webtoon::stdx::math::MathExt;

#[test]
fn should_calculate_proper_bucket() {
    assert_eq!(1, 0.in_bucket_of(20));
    assert_eq!(1, 7.in_bucket_of(20));
    assert_eq!(1, 19.in_bucket_of(20));
    assert_eq!(1, 20.in_bucket_of(20));
    assert_eq!(2, 21.in_bucket_of(20));
    assert_eq!(1, 15.in_bucket_of(15));
    assert_eq!(73, 652.in_bucket_of(9));
    assert_eq!(9, 89.in_bucket_of(10));
}

#[test]
fn bucket_of_unsigned_and_zero_size() {
    assert_eq!(1u16, 0u16.in_bucket_of(10));
    assert_eq!(1u32, 5u32.in_bucket_of(0));
    assert_eq!(33u64, 653u64.in_bucket_of(20));
    assert_eq!(17usize, 331usize.in_bucket_of(20));
    assert_eq!(255u8, 255u8.in_bucket_of(1));
}

#[test]
fn bucket_of_negative_values_rounds_toward_zero() {
    assert_eq!(1i32, (-7i32).in_bucket_of(20));
    assert_eq!(-2i64, (-40i64).in_bucket_of(20));
    assert_eq!(1i32, 7i32.in_bucket_of(-20));
}
