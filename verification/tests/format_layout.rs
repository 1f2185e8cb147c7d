use float_exact::Fp32;
use float_exact::Fp64;
use float_exact::IEEE754;

#[test]
fn f32_layout() {
    assert_eq!(<Fp32 as IEEE754>::BITS, 32);
    assert_eq!(<Fp32 as IEEE754>::EXP_BITS, 8);
    assert_eq!(<Fp32 as IEEE754>::SIG_BITS, 23);
    assert_eq!(<Fp32 as IEEE754>::EXP_MASK, 0x7F800000_u32);
    assert_eq!(<Fp32 as IEEE754>::SIG_MASK, 0x007FFFFF_u32);
    assert_eq!(<Fp32 as IEEE754>::EXP_BIAS, 127_u32);
}

#[test]
fn f64_layout() {
    assert_eq!(<Fp64 as IEEE754>::BITS, 64);
    assert_eq!(<Fp64 as IEEE754>::EXP_BITS, 11);
    assert_eq!(<Fp64 as IEEE754>::SIG_BITS, 52);
    assert_eq!(<Fp64 as IEEE754>::EXP_MASK, 0x7FF0000000000000_u64);
    assert_eq!(<Fp64 as IEEE754>::SIG_MASK, 0x000FFFFFFFFFFFFF_u64);
    assert_eq!(<Fp64 as IEEE754>::EXP_BIAS, 1023_u64);
}

#[test]
fn masks_match_the_standard_encoding() {
    // An infinity is exactly the exponent field, all ones.
    assert_eq!(<Fp32 as IEEE754>::EXP_MASK, f32::INFINITY.to_bits());
    assert_eq!(<Fp64 as IEEE754>::EXP_MASK, f64::INFINITY.to_bits());
    // The largest subnormal is exactly the significand field, all ones.
    assert_eq!(
        <Fp32 as IEEE754>::SIG_MASK,
        (f32::MIN_POSITIVE - f32::from_bits(1)).to_bits()
    );
    assert_eq!(
        <Fp64 as IEEE754>::SIG_MASK,
        (f64::MIN_POSITIVE - f64::from_bits(1)).to_bits()
    );
}

#[test]
fn bits_round_trip() {
    let v = Fp32::from_bits(0x40490FDB);
    assert_eq!(v.to_bits(), 0x40490FDB);
    let w = Fp64::from_bits(0x400921FB54442D18);
    assert_eq!(w.to_bits(), 0x400921FB54442D18);
}
