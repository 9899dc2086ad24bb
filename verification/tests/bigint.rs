use num_bigint::BigInt;
use num_rational::Ratio;

type BigRational = Ratio<BigInt>;

fn to_big(numer: isize, denom: isize) -> BigRational {
    Ratio::new(BigInt::from(numer), BigInt::from(denom))
}

fn check_isize_add_bigrational(a: isize, b: BigRational, c: BigRational) {
    assert_eq!(a + b, c);
}

fn check_usize_add_bigrational(a: usize, b: BigRational, c: BigRational) {
    assert_eq!(a + b, c);
}

fn check_i8_add_bigrational(a: i8, b: BigRational, c: BigRational) {
    assert_eq!(a + b, c);
}

fn check_u8_add_bigrational(a: u8, b: BigRational, c: BigRational) {
    assert_eq!(a + b, c);
}

fn check_i16_add_bigrational(a: i16, b: BigRational, c: BigRational) {
    assert_eq!(a + b, c);
}

fn check_u16_add_bigrational(a: u16, b: BigRational, c: BigRational) {
    assert_eq!(a + b, c);
}

fn check_i32_add_bigrational(a: i32, b: BigRational, c: BigRational) {
    assert_eq!(a + b, c);
}

fn check_u32_add_bigrational(a: u32, b: BigRational, c: BigRational) {
    assert_eq!(a + b, c);
}

fn check_i64_add_bigrational(a: i64, b: BigRational, c: BigRational) {
    assert_eq!(a + b, c);
}

fn check_u64_add_bigrational(a: u64, b: BigRational, c: BigRational) {
    assert_eq!(a + b, c);
}

fn check_i128_add_bigrational(a: i128, b: BigRational, c: BigRational) {
    assert_eq!(a + b, c);
}

fn check_u128_add_bigrational(a: u128, b: BigRational, c: BigRational) {
    assert_eq!(a + b, c);
}

#[test]
fn test_primitive_add_bigint() {
    check_isize_add_bigrational(-2isize, to_big(1, 1), to_big(-1, 1));
    check_usize_add_bigrational(1usize, to_big(1, 1), to_big(2, 1));
    check_i8_add_bigrational(-2i8, to_big(1, 1), to_big(-1, 1));
    check_u8_add_bigrational(1u8, to_big(1, 1), to_big(2, 1));
    check_i16_add_bigrational(-2i16, to_big(1, 1), to_big(-1, 1));
    check_u16_add_bigrational(1u16, to_big(1, 1), to_big(2, 1));
    check_i32_add_bigrational(-2i32, to_big(1, 1), to_big(-1, 1));
    check_u32_add_bigrational(1u32, to_big(1, 1), to_big(2, 1));
    check_i64_add_bigrational(-2i64, to_big(1, 1), to_big(-1, 1));
    check_u64_add_bigrational(1u64, to_big(1, 1), to_big(2, 1));
    check_i128_add_bigrational(-2i128, to_big(1, 1), to_big(-1, 1));
    check_u128_add_bigrational(1u128, to_big(1, 1), to_big(2, 1));
}

fn check_bigrational_add_isize(a: BigRational, b: isize, c: BigRational) {
    assert_eq!(a + b, c);
}

fn check_bigrational_add_usize(a: BigRational, b: usize, c: BigRational) {
    assert_eq!(a + b, c);
}

fn check_bigrational_add_i8(a: BigRational, b: i8, c: BigRational) {
    assert_eq!(a + b, c);
}

fn check_bigrational_add_u8(a: BigRational, b: u8, c: BigRational) {
    assert_eq!(a + b, c);
}

fn check_bigrational_add_i16(a: BigRational, b: i16, c: BigRational) {
    assert_eq!(a + b, c);
}

fn check_bigrational_add_u16(a: BigRational, b: u16, c: BigRational) {
    assert_eq!(a + b, c);
}

fn check_bigrational_add_i32(a: BigRational, b: i32, c: BigRational) {
    assert_eq!(a + b, c);
}

fn check_bigrational_add_u32(a: BigRational, b: u32, c: BigRational) {
    assert_eq!(a + b, c);
}

fn check_bigrational_add_i64(a: BigRational, b: i64, c: BigRational) {
    assert_eq!(a + b, c);
}

fn check_bigrational_add_u64(a: BigRational, b: u64, c: BigRational) {
    assert_eq!(a + b, c);
}

fn check_bigrational_add_i128(a: BigRational, b: i128, c: BigRational) {
    assert_eq!(a + b, c);
}

fn check_bigrational_add_u128(a: BigRational, b: u128, c: BigRational) {
    assert_eq!(a + b, c);
}

#[test]
fn test_bigint_add_primitive() {
    check_bigrational_add_isize(to_big(1, 1), -2isize, to_big(-1, 1));
    check_bigrational_add_usize(to_big(1, 1), 1usize, to_big(2, 1));
    check_bigrational_add_i8(to_big(1, 1), -2i8, to_big(-1, 1));
    check_bigrational_add_u8(to_big(1, 1), 1u8, to_big(2, 1));
    check_bigrational_add_i16(to_big(1, 1), -2i16, to_big(-1, 1));
    check_bigrational_add_u16(to_big(1, 1), 1u16, to_big(2, 1));
    check_bigrational_add_i32(to_big(1, 1), -2i32, to_big(-1, 1));
    check_bigrational_add_u32(to_big(1, 1), 1u32, to_big(2, 1));
    check_bigrational_add_i64(to_big(1, 1), -2i64, to_big(-1, 1));
    check_bigrational_add_u64(to_big(1, 1), 1u64, to_big(2, 1));
    check_bigrational_add_i128(to_big(1, 1), -2i128, to_big(-1, 1));
    check_bigrational_add_u128(to_big(1, 1), 1u128, to_big(2, 1));
}

fn check_isize_sub_bigrational(a: isize, b: BigRational, c: BigRational) {
    assert_eq!(a - b, c);
}

fn check_usize_sub_bigrational(a: usize, b: BigRational, c: BigRational) {
    assert_eq!(a - b, c);
}

fn check_i8_sub_bigrational(a: i8, b: BigRational, c: BigRational) {
    assert_eq!(a - b, c);
}

fn check_u8_sub_bigrational(a: u8, b: BigRational, c: BigRational) {
    assert_eq!(a - b, c);
}

fn check_i16_sub_bigrational(a: i16, b: BigRational, c: BigRational) {
    assert_eq!(a - b, c);
}

fn check_u16_sub_bigrational(a: u16, b: BigRational, c: BigRational) {
    assert_eq!(a - b, c);
}

fn check_i32_sub_bigrational(a: i32, b: BigRational, c: BigRational) {
    assert_eq!(a - b, c);
}

fn check_u32_sub_bigrational(a: u32, b: BigRational, c: BigRational) {
    assert_eq!(a - b, c);
}

fn check_i64_sub_bigrational(a: i64, b: BigRational, c: BigRational) {
    assert_eq!(a - b, c);
}

fn check_u64_sub_bigrational(a: u64, b: BigRational, c: BigRational) {
    assert_eq!(a - b, c);
}

fn check_i128_sub_bigrational(a: i128, b: BigRational, c: BigRational) {
    assert_eq!(a - b, c);
}

fn check_u128_sub_bigrational(a: u128, b: BigRational, c: BigRational) {
    assert_eq!(a - b, c);
}

#[test]
fn test_primitive_sub_bigint() {
    check_isize_sub_bigrational(-1isize, to_big(1, 1), to_big(-2, 1));
    check_usize_sub_bigrational(2usize, to_big(1, 1), to_big(1, 1));
    check_i8_sub_bigrational(-1i8, to_big(1, 1), to_big(-2, 1));
    check_u8_sub_bigrational(2u8, to_big(1, 1), to_big(1, 1));
    check_i16_sub_bigrational(-1i16, to_big(1, 1), to_big(-2, 1));
    check_u16_sub_bigrational(2u16, to_big(1, 1), to_big(1, 1));
    check_i32_sub_bigrational(-1i32, to_big(1, 1), to_big(-2, 1));
    check_u32_sub_bigrational(2u32, to_big(1, 1), to_big(1, 1));
    check_i64_sub_bigrational(-1i64, to_big(1, 1), to_big(-2, 1));
    check_u64_sub_bigrational(2u64, to_big(1, 1), to_big(1, 1));
    check_i128_sub_bigrational(-1i128, to_big(1, 1), to_big(-2, 1));
    check_u128_sub_bigrational(2u128, to_big(1, 1), to_big(1, 1));
}

fn check_bigrational_sub_isize(a: BigRational, b: isize, c: BigRational) {
    assert_eq!(a - b, c);
}

fn check_bigrational_sub_usize(a: BigRational, b: usize, c: BigRational) {
    assert_eq!(a - b, c);
}

fn check_bigrational_sub_i8(a: BigRational, b: i8, c: BigRational) {
    assert_eq!(a - b, c);
}

fn check_bigrational_sub_u8(a: BigRational, b: u8, c: BigRational) {
    assert_eq!(a - b, c);
}

fn check_bigrational_sub_i16(a: BigRational, b: i16, c: BigRational) {
    assert_eq!(a - b, c);
}

fn check_bigrational_sub_u16(a: BigRational, b: u16, c: BigRational) {
    assert_eq!(a - b, c);
}

fn check_bigrational_sub_i32(a: BigRational, b: i32, c: BigRational) {
    assert_eq!(a - b, c);
}

fn check_bigrational_sub_u32(a: BigRational, b: u32, c: BigRational) {
    assert_eq!(a - b, c);
}

fn check_bigrational_sub_i64(a: BigRational, b: i64, c: BigRational) {
    assert_eq!(a - b, c);
}

fn check_bigrational_sub_u64(a: BigRational, b: u64, c: BigRational) {
    assert_eq!(a - b, c);
}

fn check_bigrational_sub_i128(a: BigRational, b: i128, c: BigRational) {
    assert_eq!(a - b, c);
}

fn check_bigrational_sub_u128(a: BigRational, b: u128, c: BigRational) {
    assert_eq!(a - b, c);
}

#[test]
fn test_bigint_sub_primitive() {
    check_bigrational_sub_isize(to_big(2, 1), 1isize, to_big(1, 1));
    check_bigrational_sub_usize(to_big(2, 1), 1usize, to_big(1, 1));
    check_bigrational_sub_i8(to_big(2, 1), 1i8, to_big(1, 1));
    check_bigrational_sub_u8(to_big(2, 1), 1u8, to_big(1, 1));
    check_bigrational_sub_i16(to_big(2, 1), 1i16, to_big(1, 1));
    check_bigrational_sub_u16(to_big(2, 1), 1u16, to_big(1, 1));
    check_bigrational_sub_i32(to_big(2, 1), 1i32, to_big(1, 1));
    check_bigrational_sub_u32(to_big(2, 1), 1u32, to_big(1, 1));
    check_bigrational_sub_i64(to_big(2, 1), 1i64, to_big(1, 1));
    check_bigrational_sub_u64(to_big(2, 1), 1u64, to_big(1, 1));
    check_bigrational_sub_i128(to_big(2, 1), 1i128, to_big(1, 1));
    check_bigrational_sub_u128(to_big(2, 1), 1u128, to_big(1, 1));
}

fn check_isize_mul_bigrational(a: isize, b: BigRational, c: BigRational) {
    assert_eq!(a * b, c);
}

fn check_usize_mul_bigrational(a: usize, b: BigRational, c: BigRational) {
    assert_eq!(a * b, c);
}

fn check_i8_mul_bigrational(a: i8, b: BigRational, c: BigRational) {
    assert_eq!(a * b, c);
}

fn check_u8_mul_bigrational(a: u8, b: BigRational, c: BigRational) {
    assert_eq!(a * b, c);
}

fn check_i16_mul_bigrational(a: i16, b: BigRational, c: BigRational) {
    assert_eq!(a * b, c);
}

fn check_u16_mul_bigrational(a: u16, b: BigRational, c: BigRational) {
    assert_eq!(a * b, c);
}

fn check_i32_mul_bigrational(a: i32, b: BigRational, c: BigRational) {
    assert_eq!(a * b, c);
}

fn check_u32_mul_bigrational(a: u32, b: BigRational, c: BigRational) {
    assert_eq!(a * b, c);
}

fn check_i64_mul_bigrational(a: i64, b: BigRational, c: BigRational) {
    assert_eq!(a * b, c);
}

fn check_u64_mul_bigrational(a: u64, b: BigRational, c: BigRational) {
    assert_eq!(a * b, c);
}

fn check_i128_mul_bigrational(a: i128, b: BigRational, c: BigRational) {
    assert_eq!(a * b, c);
}

fn check_u128_mul_bigrational(a: u128, b: BigRational, c: BigRational) {
    assert_eq!(a * b, c);
}

#[test]
fn test_primitive_mul_bigint() {
    check_isize_mul_bigrational(-2isize, to_big(1, 2), to_big(-1, 1));
    check_usize_mul_bigrational(2usize, to_big(1, 2), to_big(1, 1));
    check_i8_mul_bigrational(-2i8, to_big(1, 2), to_big(-1, 1));
    check_u8_mul_bigrational(2u8, to_big(1, 2), to_big(1, 1));
    check_i16_mul_bigrational(-2i16, to_big(1, 2), to_big(-1, 1));
    check_u16_mul_bigrational(2u16, to_big(1, 2), to_big(1, 1));
    check_i32_mul_bigrational(-2i32, to_big(1, 2), to_big(-1, 1));
    check_u32_mul_bigrational(2u32, to_big(1, 2), to_big(1, 1));
    check_i64_mul_bigrational(-2i64, to_big(1, 2), to_big(-1, 1));
    check_u64_mul_bigrational(2u64, to_big(1, 2), to_big(1, 1));
    check_i128_mul_bigrational(-2i128, to_big(1, 2), to_big(-1, 1));
    check_u128_mul_bigrational(2u128, to_big(1, 2), to_big(1, 1));
}

fn check_bigrational_mul_isize(a: BigRational, b: isize, c: BigRational) {
    assert_eq!(a * b, c);
}

fn check_bigrational_mul_usize(a: BigRational, b: usize, c: BigRational) {
    assert_eq!(a * b, c);
}

fn check_bigrational_mul_i8(a: BigRational, b: i8, c: BigRational) {
    assert_eq!(a * b, c);
}

fn check_bigrational_mul_u8(a: BigRational, b: u8, c: BigRational) {
    assert_eq!(a * b, c);
}

fn check_bigrational_mul_i16(a: BigRational, b: i16, c: BigRational) {
    assert_eq!(a * b, c);
}

fn check_bigrational_mul_u16(a: BigRational, b: u16, c: BigRational) {
    assert_eq!(a * b, c);
}

fn check_bigrational_mul_i32(a: BigRational, b: i32, c: BigRational) {
    assert_eq!(a * b, c);
}

fn check_bigrational_mul_u32(a: BigRational, b: u32, c: BigRational) {
    assert_eq!(a * b, c);
}

fn check_bigrational_mul_i64(a: BigRational, b: i64, c: BigRational) {
    assert_eq!(a * b, c);
}

fn check_bigrational_mul_u64(a: BigRational, b: u64, c: BigRational) {
    assert_eq!(a * b, c);
}

fn check_bigrational_mul_i128(a: BigRational, b: i128, c: BigRational) {
    assert_eq!(a * b, c);
}

fn check_bigrational_mul_u128(a: BigRational, b: u128, c: BigRational) {
    assert_eq!(a * b, c);
}

#[test]
fn test_bigint_mul_primitive() {
    check_bigrational_mul_isize(to_big(1, 2), -2isize, to_big(-1, 1));
    check_bigrational_mul_usize(to_big(1, 2), 2usize, to_big(1, 1));
    check_bigrational_mul_i8(to_big(1, 2), -2i8, to_big(-1, 1));
    check_bigrational_mul_u8(to_big(1, 2), 2u8, to_big(1, 1));
    check_bigrational_mul_i16(to_big(1, 2), -2i16, to_big(-1, 1));
    check_bigrational_mul_u16(to_big(1, 2), 2u16, to_big(1, 1));
    check_bigrational_mul_i32(to_big(1, 2), -2i32, to_big(-1, 1));
    check_bigrational_mul_u32(to_big(1, 2), 2u32, to_big(1, 1));
    check_bigrational_mul_i64(to_big(1, 2), -2i64, to_big(-1, 1));
    check_bigrational_mul_u64(to_big(1, 2), 2u64, to_big(1, 1));
    check_bigrational_mul_i128(to_big(1, 2), -2i128, to_big(-1, 1));
    check_bigrational_mul_u128(to_big(1, 2), 2u128, to_big(1, 1));
}

fn check_isize_div_bigrational(a: isize, b: BigRational, c: BigRational) {
    assert_eq!(a / b, c);
}

fn check_usize_div_bigrational(a: usize, b: BigRational, c: BigRational) {
    assert_eq!(a / b, c);
}

fn check_i8_div_bigrational(a: i8, b: BigRational, c: BigRational) {
    assert_eq!(a / b, c);
}

fn check_u8_div_bigrational(a: u8, b: BigRational, c: BigRational) {
    assert_eq!(a / b, c);
}

fn check_i16_div_bigrational(a: i16, b: BigRational, c: BigRational) {
    assert_eq!(a / b, c);
}

fn check_u16_div_bigrational(a: u16, b: BigRational, c: BigRational) {
    assert_eq!(a / b, c);
}

fn check_i32_div_bigrational(a: i32, b: BigRational, c: BigRational) {
    assert_eq!(a / b, c);
}

fn check_u32_div_bigrational(a: u32, b: BigRational, c: BigRational) {
    assert_eq!(a / b, c);
}

fn check_i64_div_bigrational(a: i64, b: BigRational, c: BigRational) {
    assert_eq!(a / b, c);
}

fn check_u64_div_bigrational(a: u64, b: BigRational, c: BigRational) {
    assert_eq!(a / b, c);
}

fn check_i128_div_bigrational(a: i128, b: BigRational, c: BigRational) {
    assert_eq!(a / b, c);
}

fn check_u128_div_bigrational(a: u128, b: BigRational, c: BigRational) {
    assert_eq!(a / b, c);
}

#[test]
fn test_primitive_div_bigint() {
    check_isize_div_bigrational(-2isize, to_big(2, 1), to_big(-1, 1));
    check_usize_div_bigrational(2usize, to_big(2, 1), to_big(1, 1));
    check_i8_div_bigrational(-2i8, to_big(2, 1), to_big(-1, 1));
    check_u8_div_bigrational(2u8, to_big(2, 1), to_big(1, 1));
    check_i16_div_bigrational(-2i16, to_big(2, 1), to_big(-1, 1));
    check_u16_div_bigrational(2u16, to_big(2, 1), to_big(1, 1));
    check_i32_div_bigrational(-2i32, to_big(2, 1), to_big(-1, 1));
    check_u32_div_bigrational(2u32, to_big(2, 1), to_big(1, 1));
    check_i64_div_bigrational(-2i64, to_big(2, 1), to_big(-1, 1));
    check_u64_div_bigrational(2u64, to_big(2, 1), to_big(1, 1));
    check_i128_div_bigrational(-2i128, to_big(2, 1), to_big(-1, 1));
    check_u128_div_bigrational(2u128, to_big(2, 1), to_big(1, 1));
}

fn check_bigrational_div_isize(a: BigRational, b: isize, c: BigRational) {
    assert_eq!(a / b, c);
}

fn check_bigrational_div_usize(a: BigRational, b: usize, c: BigRational) {
    assert_eq!(a / b, c);
}

fn check_bigrational_div_i8(a: BigRational, b: i8, c: BigRational) {
    assert_eq!(a / b, c);
}

fn check_bigrational_div_u8(a: BigRational, b: u8, c: BigRational) {
    assert_eq!(a / b, c);
}

fn check_bigrational_div_i16(a: BigRational, b: i16, c: BigRational) {
    assert_eq!(a / b, c);
}

fn check_bigrational_div_u16(a: BigRational, b: u16, c: BigRational) {
    assert_eq!(a / b, c);
}

fn check_bigrational_div_i32(a: BigRational, b: i32, c: BigRational) {
    assert_eq!(a / b, c);
}

fn check_bigrational_div_u32(a: BigRational, b: u32, c: BigRational) {
    assert_eq!(a / b, c);
}

fn check_bigrational_div_i64(a: BigRational, b: i64, c: BigRational) {
    assert_eq!(a / b, c);
}

fn check_bigrational_div_u64(a: BigRational, b: u64, c: BigRational) {
    assert_eq!(a / b, c);
}

fn check_bigrational_div_i128(a: BigRational, b: i128, c: BigRational) {
    assert_eq!(a / b, c);
}

fn check_bigrational_div_u128(a: BigRational, b: u128, c: BigRational) {
    assert_eq!(a / b, c);
}

#[test]
fn test_bigint_div_primitive() {
    check_bigrational_div_isize(to_big(2, 1), -2isize, to_big(-1, 1));
    check_bigrational_div_usize(to_big(2, 1), 2usize, to_big(1, 1));
    check_bigrational_div_i8(to_big(2, 1), -2i8, to_big(-1, 1));
    check_bigrational_div_u8(to_big(2, 1), 2u8, to_big(1, 1));
    check_bigrational_div_i16(to_big(2, 1), -2i16, to_big(-1, 1));
    check_bigrational_div_u16(to_big(2, 1), 2u16, to_big(1, 1));
    check_bigrational_div_i32(to_big(2, 1), -2i32, to_big(-1, 1));
    check_bigrational_div_u32(to_big(2, 1), 2u32, to_big(1, 1));
    check_bigrational_div_i64(to_big(2, 1), -2i64, to_big(-1, 1));
    check_bigrational_div_u64(to_big(2, 1), 2u64, to_big(1, 1));
    check_bigrational_div_i128(to_big(2, 1), -2i128, to_big(-1, 1));
    check_bigrational_div_u128(to_big(2, 1), 2u128, to_big(1, 1));
}
