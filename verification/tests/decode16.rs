//! The compressed decoder against a reference set of encodings, across the
//! 32- and 64-bit widths and the floating-point extensions.

use rvcore::decode::common::{Isa, GP_RA, GP_SP, GP_ZERO};
use rvcore::uop::{BinaryOp, CmpCond, Exception, Instr, MemWidth, Precision};
use rvcore::xlen::Xlen;

fn all_pass(isa: &Isa, ins_raw: &[u16], ins_expect: &[Instr]) -> bool {
    for (&raw, &expect) in ins_raw.iter().zip(ins_expect.iter()) {
        let result = isa.dec16(raw);
        if result != expect {
            println!(" raw: {:04x},\n expected: {:?},\n result: {:?}", raw, expect, result);
            return false;
        }
    }
    true
}

#[test]
fn dec16_sanity() {
    let rv32 = Isa::full(Xlen::X32);
    let rv64 = Isa::full(Xlen::X64);

    // Encodings that decode alike at 32 and 64 bits.
    let ins_raw = [
        0x0ac8u16, 0x5aa8u16, 0xdaa8u16, 0x1aa9u16, 0x5aa9u16, 0x710du16, 0x7aa9u16, 0x8155u16,
        0x8555u16, 0x8955u16, 0x8d15u16, 0x8d35u16, 0x8d55u16, 0x8d75u16, 0xb46du16, 0xd931u16,
        0xf931u16, 0x0ad6u16, 0x5aceu16, 0x8a82u16, 0x8aeeu16, 0x9002u16, 0x9a82u16, 0x9aeeu16,
        0xd9d6u16,
    ];
    let ins_expect = [
        Instr::COpImm(10, GP_SP, 340, BinaryOp::Add),
        Instr::CLoad(10, 13, 112, MemWidth::W),
        Instr::CStore(13, 10, 112, MemWidth::W),
        Instr::COpImm(21, 21, -22, BinaryOp::Add),
        Instr::COpImm(21, GP_ZERO, -22, BinaryOp::Add),
        Instr::COpImm(GP_SP, GP_SP, -352, BinaryOp::Add),
        Instr::COpImm(21, GP_ZERO, -90112, BinaryOp::Add),
        Instr::COpImm(10, 10, 21, BinaryOp::Srl),
        Instr::COpImm(10, 10, 21, BinaryOp::Sra),
        Instr::COpImm(10, 10, 21, BinaryOp::And),
        Instr::COp(10, 13, BinaryOp::Sub),
        Instr::COp(10, 13, BinaryOp::Xor),
        Instr::COp(10, 13, BinaryOp::Or),
        Instr::COp(10, 13, BinaryOp::And),
        Instr::CJal(GP_ZERO, -1366),
        Instr::CBranch(10, -172, CmpCond::Eq),
        Instr::CBranch(10, -172, CmpCond::Ne),
        Instr::COpImm(21, 21, 21, BinaryOp::Sll),
        Instr::CLoad(21, GP_SP, 240, MemWidth::W),
        Instr::CJalr(GP_ZERO, 21),
        Instr::COpImm(21, 27, 0, BinaryOp::Add),
        Instr::Trap(Exception::Ebreak),
        Instr::CJalr(GP_RA, 21),
        Instr::COp(21, 27, BinaryOp::Add),
        Instr::CStore(GP_SP, 21, 240, MemWidth::W),
    ];
    assert!(all_pass(&rv32, &ins_raw, &ins_expect));

    // Double-precision loads and stores, enabled by D.
    let ins_raw_d = [0x3aa8u16, 0xbaa8u16, 0x3aceu16, 0xb9d6u16];
    let ins_expect_d = [
        Instr::CLoadFp(10, 13, 112, Precision::D),
        Instr::CStoreFp(13, 10, 112, Precision::D),
        Instr::CLoadFp(21, GP_SP, 240, Precision::D),
        Instr::CStoreFp(GP_SP, 21, 240, Precision::D),
    ];
    assert!(all_pass(&rv32, &ins_raw_d, &ins_expect_d));

    // Encodings whose meaning differs between 32 and 64 bits.
    let ins_raw_w = [
        0x3801u16, 0x7ea8u16, 0xfea8u16, 0x7aceu16, 0xf9d6u16, 0x9115u16, 0x9515u16, 0x9d15u16,
        0x9d35u16, 0x1516u16,
    ];
    let ins_expect32 = [Instr::CJal(1, -2032)];
    assert!(all_pass(&rv32, &ins_raw_w[..1], &ins_expect32));

    let ins_expect64 = [
        Instr::COpImm(16, 16, -32, BinaryOp::AddW),
        Instr::CLoad(10, 13, 120, MemWidth::D),
        Instr::CStore(13, 10, 120, MemWidth::D),
        Instr::CLoad(21, GP_SP, 240, MemWidth::D),
        Instr::CStore(GP_SP, 21, 240, MemWidth::D),
        Instr::COpImm(10, 10, 37, BinaryOp::Srl),
        Instr::COpImm(10, 10, 37, BinaryOp::Sra),
        Instr::COp(10, 13, BinaryOp::SubW),
        Instr::COp(10, 13, BinaryOp::AddW),
        Instr::COpImm(10, 10, 37, BinaryOp::Sll),
    ];
    assert!(all_pass(&rv64, &ins_raw_w, &ins_expect64));

    // The same slots at 32 bits with F enabled carry the single-precision
    // loads and stores.
    let ins_expect32f = [
        Instr::CLoadFp(10, 13, 120, Precision::S),
        Instr::CStoreFp(13, 10, 120, Precision::S),
        Instr::CLoadFp(21, GP_SP, 240, Precision::S),
        Instr::CStoreFp(GP_SP, 21, 240, Precision::S),
    ];
    assert!(all_pass(&rv32, &ins_raw_w[1..5], &ins_expect32f));
}
