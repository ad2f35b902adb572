//! The high-multiply family across widths, against reference values.

use rvcore::xlen::Xlen;

#[test]
fn xlen_sanity() {
    let w = Xlen::X32;
    let val1 = 0x80000000u128; // -2147483648
    let val2 = 0xffffffffu128; // -1
    let val3 = 0x7fffffffu128; // 2147483647
    let val4 = 0xffff0000u128; // -65536
    assert_eq!(w.mulhu(val1, val1), 0x40000000);
    assert_eq!(w.mulh(val1, val1), 0x40000000);
    assert_eq!(w.mulh(val2, val2), 0x0);
    assert_eq!(w.mulh(val2, val1), 0x0);
    assert_eq!(w.mulh(val1, val3), 0xc0000000);
    assert_eq!(w.mulh(val4, val4), 0x1);
    assert_eq!(w.mulhsu(val1, val1), 0xc0000000);
    assert_eq!(w.mulhsu(val2, val2), 0xffffffff);
    assert_eq!(w.mulhsu(val1, val2), 0x80000000);
    assert_eq!(w.mulhsu(val3, val2), 0x7ffffffe);
    assert_eq!(w.mulhsu(val4, val4), 0xffff0001);

    // The 64-bit width shares the wider-primitive path with the 32-bit one.

    let w = Xlen::X128;
    let val1 = 0x80000000000000000000000000000000u128;
    let val2 = 0xffffffffffffffffffffffffffffffffu128;
    let val3 = 0x7fffffffffffffffffffffffffffffffu128;
    let val4 = 0xffffffffffffffff0000000000000000u128;
    assert_eq!(w.mulhu(val1, val1), 0x40000000000000000000000000000000);
    assert_eq!(w.mulh(val1, val1), 0x40000000000000000000000000000000);
    assert_eq!(w.mulh(val2, val2), 0x0);
    assert_eq!(w.mulh(val2, val1), 0x0);
    assert_eq!(w.mulh(val1, val3), 0xc0000000000000000000000000000000);
    assert_eq!(w.mulh(val4, val4), 0x1);
    assert_eq!(w.mulhsu(val1, val1), 0xc0000000000000000000000000000000);
    assert_eq!(w.mulhsu(val2, val2), 0xffffffffffffffffffffffffffffffff);
    assert_eq!(w.mulhsu(val1, val2), 0x80000000000000000000000000000000);
    assert_eq!(w.mulhsu(val3, val2), 0x7ffffffffffffffffffffffffffffffe);
    assert_eq!(w.mulhsu(val4, val4), 0xffffffffffffffff0000000000000001);
}
