use num_rational::Ratio;

type Rational = Ratio<isize>;
type Rational32 = Ratio<i32>;
type Rational64 = Ratio<i64>;

fn check_isize_add_rational(a: isize, b: Rational, c: Rational) {
    assert_eq!(a + b, c);
}

fn check_i8_add_rational(a: i8, b: Rational, c: Rational) {
    assert_eq!(a + b, c);
}

fn check_u8_add_rational(a: u8, b: Rational, c: Rational) {
    assert_eq!(a + b, c);
}

fn check_i16_add_rational(a: i16, b: Rational, c: Rational) {
    assert_eq!(a + b, c);
}

#[test]
fn test_primitive_add_rational() {
    check_isize_add_rational(-2isize, Rational::new_raw(1, 1), Rational::new_raw(-1, 1));
    check_i8_add_rational(-2i8, Rational::new_raw(1, 1), Rational::new_raw(-1, 1));
    check_u8_add_rational(1u8, Rational::new_raw(1, 1), Rational::new_raw(2, 1));
    check_i16_add_rational(-2i16, Rational::new_raw(1, 1), Rational::new_raw(-1, 1));
}

fn check_i8_add_rational32(a: i8, b: Rational32, c: Rational32) {
    assert_eq!(a + b, c);
}

fn check_u8_add_rational32(a: u8, b: Rational32, c: Rational32) {
    assert_eq!(a + b, c);
}

fn check_i16_add_rational32(a: i16, b: Rational32, c: Rational32) {
    assert_eq!(a + b, c);
}

fn check_u16_add_rational32(a: u16, b: Rational32, c: Rational32) {
    assert_eq!(a + b, c);
}

fn check_i32_add_rational32(a: i32, b: Rational32, c: Rational32) {
    assert_eq!(a + b, c);
}

#[test]
fn test_primitive_add_rational32() {
    check_i8_add_rational32(-2i8, Rational32::new_raw(1, 1), Rational32::new_raw(-1, 1));
    check_u8_add_rational32(1u8, Rational32::new_raw(1, 1), Rational32::new_raw(2, 1));
    check_i16_add_rational32(-2i16, Rational32::new_raw(1, 1), Rational32::new_raw(-1, 1));
    check_u16_add_rational32(1u16, Rational32::new_raw(1, 1), Rational32::new_raw(2, 1));
    check_i32_add_rational32(-2i32, Rational32::new_raw(1, 1), Rational32::new_raw(-1, 1));
}

fn check_i8_add_rational64(a: i8, b: Rational64, c: Rational64) {
    assert_eq!(a + b, c);
}

fn check_u8_add_rational64(a: u8, b: Rational64, c: Rational64) {
    assert_eq!(a + b, c);
}

fn check_i16_add_rational64(a: i16, b: Rational64, c: Rational64) {
    assert_eq!(a + b, c);
}

fn check_u16_add_rational64(a: u16, b: Rational64, c: Rational64) {
    assert_eq!(a + b, c);
}

fn check_i32_add_rational64(a: i32, b: Rational64, c: Rational64) {
    assert_eq!(a + b, c);
}

fn check_u32_add_rational64(a: i32, b: Rational64, c: Rational64) {
    assert_eq!(a + b, c);
}

fn check_i64_add_rational64(a: i64, b: Rational64, c: Rational64) {
    assert_eq!(a + b, c);
}

#[test]
fn test_primitive_add_rational64() {
    check_i8_add_rational64(-2i8, Rational64::new_raw(1, 1), Rational64::new_raw(-1, 1));
    check_u8_add_rational64(1u8, Rational64::new_raw(1, 1), Rational64::new_raw(2, 1));
    check_i16_add_rational64(-2i16, Rational64::new_raw(1, 1), Rational64::new_raw(-1, 1));
    check_u16_add_rational64(1u16, Rational64::new_raw(1, 1), Rational64::new_raw(2, 1));
    check_i32_add_rational64(-2i32, Rational64::new_raw(1, 1), Rational64::new_raw(-1, 1));
    check_u32_add_rational64(1i32, Rational64::new_raw(1, 1), Rational64::new_raw(2, 1));
    check_i64_add_rational64(-2i64, Rational64::new_raw(1, 1), Rational64::new_raw(-1, 1));
}

fn check_isize_sub_rational(a: isize, b: Rational, c: Rational) {
    assert_eq!(a - b, c);
}

fn check_i8_sub_rational(a: i8, b: Rational, c: Rational) {
    assert_eq!(a - b, c);
}

fn check_u8_sub_rational(a: u8, b: Rational, c: Rational) {
    assert_eq!(a - b, c);
}

fn check_i16_sub_rational(a: i16, b: Rational, c: Rational) {
    assert_eq!(a - b, c);
}

#[test]
fn test_primitive_sub_rational() {
    check_isize_sub_rational(-1isize, Rational::new_raw(1, 1), Rational::new_raw(-2, 1));
    check_i8_sub_rational(-1i8, Rational::new_raw(1, 1), Rational::new_raw(-2, 1));
    check_u8_sub_rational(2u8, Rational::new_raw(1, 1), Rational::new_raw(1, 1));
    check_i16_sub_rational(-1i16, Rational::new_raw(1, 1), Rational::new_raw(-2, 1));
}

fn check_i8_sub_rational32(a: i8, b: Rational32, c: Rational32) {
    assert_eq!(a - b, c);
}

fn check_u8_sub_rational32(a: u8, b: Rational32, c: Rational32) {
    assert_eq!(a - b, c);
}

fn check_i16_sub_rational32(a: i16, b: Rational32, c: Rational32) {
    assert_eq!(a - b, c);
}

fn check_u16_sub_rational32(a: u16, b: Rational32, c: Rational32) {
    assert_eq!(a - b, c);
}

fn check_i32_sub_rational32(a: i32, b: Rational32, c: Rational32) {
    assert_eq!(a - b, c);
}

#[test]
fn test_primitive_sub_rational32() {
    check_i8_sub_rational32(-1i8, Rational32::new_raw(1, 1), Rational32::new_raw(-2, 1));
    check_u8_sub_rational32(2u8, Rational32::new_raw(1, 1), Rational32::new_raw(1, 1));
    check_i16_sub_rational32(-1i16, Rational32::new_raw(1, 1), Rational32::new_raw(-2, 1));
    check_u16_sub_rational32(2u16, Rational32::new_raw(1, 1), Rational32::new_raw(1, 1));
    check_i32_sub_rational32(-1i32, Rational32::new_raw(1, 1), Rational32::new_raw(-2, 1));
}

fn check_i8_sub_rational64(a: i8, b: Rational64, c: Rational64) {
    assert_eq!(a - b, c);
}

fn check_u8_sub_rational64(a: u8, b: Rational64, c: Rational64) {
    assert_eq!(a - b, c);
}

fn check_i16_sub_rational64(a: i16, b: Rational64, c: Rational64) {
    assert_eq!(a - b, c);
}

fn check_u16_sub_rational64(a: u16, b: Rational64, c: Rational64) {
    assert_eq!(a - b, c);
}

fn check_i32_sub_rational64(a: i32, b: Rational64, c: Rational64) {
    assert_eq!(a - b, c);
}

fn check_u32_sub_rational64(a: i32, b: Rational64, c: Rational64) {
    assert_eq!(a - b, c);
}

fn check_i64_sub_rational64(a: i64, b: Rational64, c: Rational64) {
    assert_eq!(a - b, c);
}

#[test]
fn test_primitive_sub_rational64() {
    check_i8_sub_rational64(-1i8, Rational64::new_raw(1, 1), Rational64::new_raw(-2, 1));
    check_u8_sub_rational64(2u8, Rational64::new_raw(1, 1), Rational64::new_raw(1, 1));
    check_i16_sub_rational64(-1i16, Rational64::new_raw(1, 1), Rational64::new_raw(-2, 1));
    check_u16_sub_rational64(2u16, Rational64::new_raw(1, 1), Rational64::new_raw(1, 1));
    check_i32_sub_rational64(-1i32, Rational64::new_raw(1, 1), Rational64::new_raw(-2, 1));
    check_u32_sub_rational64(2i32, Rational64::new_raw(1, 1), Rational64::new_raw(1, 1));
    check_i64_sub_rational64(-1i64, Rational64::new_raw(1, 1), Rational64::new_raw(-2, 1));
}

fn check_isize_mul_rational(a: isize, b: Rational, c: Rational) {
    assert_eq!(a * b, c);
}

fn check_i8_mul_rational(a: i8, b: Rational, c: Rational) {
    assert_eq!(a * b, c);
}

fn check_u8_mul_rational(a: u8, b: Rational, c: Rational) {
    assert_eq!(a * b, c);
}

fn check_i16_mul_rational(a: i16, b: Rational, c: Rational) {
    assert_eq!(a * b, c);
}

#[test]
fn test_primitive_mul_rational() {
    check_isize_mul_rational(-2isize, Rational::new_raw(1, 2), Rational::new_raw(-1, 1));
    check_i8_mul_rational(-2i8, Rational::new_raw(1, 2), Rational::new_raw(-1, 1));
    check_u8_mul_rational(2u8, Rational::new_raw(1, 2), Rational::new_raw(1, 1));
    check_i16_mul_rational(-2i16, Rational::new_raw(1, 2), Rational::new_raw(-1, 1));
}

fn check_i8_mul_rational32(a: i8, b: Rational32, c: Rational32) {
    assert_eq!(a * b, c);
}

fn check_u8_mul_rational32(a: u8, b: Rational32, c: Rational32) {
    assert_eq!(a * b, c);
}

fn check_i16_mul_rational32(a: i16, b: Rational32, c: Rational32) {
    assert_eq!(a * b, c);
}

fn check_u16_mul_rational32(a: u16, b: Rational32, c: Rational32) {
    assert_eq!(a * b, c);
}

fn check_i32_mul_rational32(a: i32, b: Rational32, c: Rational32) {
    assert_eq!(a * b, c);
}

#[test]
fn test_primitive_mul_rational32() {
    check_i8_mul_rational32(-2i8, Rational32::new_raw(1, 2), Rational32::new_raw(-1, 1));
    check_u8_mul_rational32(2u8, Rational32::new_raw(1, 2), Rational32::new_raw(1, 1));
    check_i16_mul_rational32(-2i16, Rational32::new_raw(1, 2), Rational32::new_raw(-1, 1));
    check_u16_mul_rational32(2u16, Rational32::new_raw(1, 2), Rational32::new_raw(1, 1));
    check_i32_mul_rational32(-2i32, Rational32::new_raw(1, 2), Rational32::new_raw(-1, 1));
}

fn check_i8_mul_rational64(a: i8, b: Rational64, c: Rational64) {
    assert_eq!(a * b, c);
}

fn check_u8_mul_rational64(a: u8, b: Rational64, c: Rational64) {
    assert_eq!(a * b, c);
}

fn check_i16_mul_rational64(a: i16, b: Rational64, c: Rational64) {
    assert_eq!(a * b, c);
}

fn check_u16_mul_rational64(a: u16, b: Rational64, c: Rational64) {
    assert_eq!(a * b, c);
}

fn check_i32_mul_rational64(a: i32, b: Rational64, c: Rational64) {
    assert_eq!(a * b, c);
}

fn check_u32_mul_rational64(a: i32, b: Rational64, c: Rational64) {
    assert_eq!(a * b, c);
}

fn check_i64_mul_rational64(a: i64, b: Rational64, c: Rational64) {
    assert_eq!(a * b, c);
}

#[test]
fn test_primitive_mul_rational64() {
    check_i8_mul_rational64(-2i8, Rational64::new_raw(1, 2), Rational64::new_raw(-1, 1));
    check_u8_mul_rational64(2u8, Rational64::new_raw(1, 2), Rational64::new_raw(1, 1));
    check_i16_mul_rational64(-2i16, Rational64::new_raw(1, 2), Rational64::new_raw(-1, 1));
    check_u16_mul_rational64(2u16, Rational64::new_raw(1, 2), Rational64::new_raw(1, 1));
    check_i32_mul_rational64(-2i32, Rational64::new_raw(1, 2), Rational64::new_raw(-1, 1));
    check_u32_mul_rational64(2i32, Rational64::new_raw(1, 2), Rational64::new_raw(1, 1));
    check_i64_mul_rational64(-2i64, Rational64::new_raw(1, 2), Rational64::new_raw(-1, 1));
}

fn check_isize_div_rational(a: isize, b: Rational, c: Rational) {
    assert_eq!(a / b, c);
}

fn check_i8_div_rational(a: i8, b: Rational, c: Rational) {
    assert_eq!(a / b, c);
}

fn check_u8_div_rational(a: u8, b: Rational, c: Rational) {
    assert_eq!(a / b, c);
}

fn check_i16_div_rational(a: i16, b: Rational, c: Rational) {
    assert_eq!(a / b, c);
}

#[test]
fn test_primitive_div_rational() {
    check_isize_div_rational(-2isize, Rational::new_raw(2, 1), Rational::new_raw(-1, 1));
    check_i8_div_rational(-2i8, Rational::new_raw(2, 1), Rational::new_raw(-1, 1));
    check_u8_div_rational(2u8, Rational::new_raw(2, 1), Rational::new_raw(1, 1));
    check_i16_div_rational(-2i16, Rational::new_raw(2, 1), Rational::new_raw(-1, 1));
}

fn check_i8_div_rational32(a: i8, b: Rational32, c: Rational32) {
    assert_eq!(a / b, c);
}

fn check_u8_div_rational32(a: u8, b: Rational32, c: Rational32) {
    assert_eq!(a / b, c);
}

fn check_i16_div_rational32(a: i16, b: Rational32, c: Rational32) {
    assert_eq!(a / b, c);
}

fn check_u16_div_rational32(a: u16, b: Rational32, c: Rational32) {
    assert_eq!(a / b, c);
}

fn check_i32_div_rational32(a: i32, b: Rational32, c: Rational32) {
    assert_eq!(a / b, c);
}

#[test]
fn test_primitive_div_rational32() {
    check_i8_div_rational32(-2i8, Rational32::new_raw(2, 1), Rational32::new_raw(-1, 1));
    check_u8_div_rational32(2u8, Rational32::new_raw(2, 1), Rational32::new_raw(1, 1));
    check_i16_div_rational32(-2i16, Rational32::new_raw(2, 1), Rational32::new_raw(-1, 1));
    check_u16_div_rational32(2u16, Rational32::new_raw(2, 1), Rational32::new_raw(1, 1));
    check_i32_div_rational32(-2i32, Rational32::new_raw(2, 1), Rational32::new_raw(-1, 1));
}

fn check_i8_div_rational64(a: i8, b: Rational64, c: Rational64) {
    assert_eq!(a / b, c);
}

fn check_u8_div_rational64(a: u8, b: Rational64, c: Rational64) {
    assert_eq!(a / b, c);
}

fn check_i16_div_rational64(a: i16, b: Rational64, c: Rational64) {
    assert_eq!(a / b, c);
}

fn check_u16_div_rational64(a: u16, b: Rational64, c: Rational64) {
    assert_eq!(a / b, c);
}

fn check_i32_div_rational64(a: i32, b: Rational64, c: Rational64) {
    assert_eq!(a / b, c);
}

fn check_u32_div_rational64(a: u32, b: Rational64, c: Rational64) {
    assert_eq!(a / b, c);
}

fn check_i64_div_rational64(a: i64, b: Rational64, c: Rational64) {
    assert_eq!(a / b, c);
}

#[test]
fn test_primitive_div_rational64() {
    check_i8_div_rational64(-2i8, Rational64::new_raw(2, 1), Rational64::new_raw(-1, 1));
    check_u8_div_rational64(2u8, Rational64::new_raw(2, 1), Rational64::new_raw(1, 1));
    check_i16_div_rational64(-2i16, Rational64::new_raw(2, 1), Rational64::new_raw(-1, 1));
    check_u16_div_rational64(2u16, Rational64::new_raw(2, 1), Rational64::new_raw(1, 1));
    check_i32_div_rational64(-2i32, Rational64::new_raw(2, 1), Rational64::new_raw(-1, 1));
    check_u32_div_rational64(2u32, Rational64::new_raw(2, 1), Rational64::new_raw(1, 1));
    check_i64_div_rational64(-2i64, Rational64::new_raw(2, 1), Rational64::new_raw(-1, 1));
}
