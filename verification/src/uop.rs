//! Decoded micro-ops and the enumerations their payloads are built from.
//!
//! A raw 16- or 32-bit instruction word decodes to one [`Instr`] value with
//! one variant per semantic instruction family, not per raw encoding.  Every
//! malformed or disallowed encoding decodes to `Instr::Trap(IllegalInstr)`.

use vstd::prelude::*;

verus! {

/// Branch comparison conditions.  `Eq`/`Ne` are bitwise equality, `Lt`/`Ge`
/// compare as two's-complement signed values, `LtU`/`GeU` as unsigned.
#[derive(Debug, Clone, Copy, PartialEq, Eq, Structural)]
pub enum CmpCond {
    Eq,
    Ne,
    Lt,
    Ge,
    LtU,
    GeU,
}

/// Memory access widths.  `B`/`H`/`W`/`D` sign-extend on load, the `U`
/// variants zero-extend.  Stores have no unsigned widths.
#[derive(Debug, Clone, Copy, PartialEq, Eq, Structural)]
pub enum MemWidth {
    B,
    H,
    W,
    D,
    BU,
    HU,
    WU,
}

/// Fence mode: an ordinary fence, or the total-store-ordering fence.
#[derive(Debug, Clone, Copy, PartialEq, Eq, Structural)]
pub enum FenceMode {
    Normal,
    Tso,
}

/// Memory-ordering micro-ops.  A `Fence` carries the 4-bit predecessor and
/// successor access-class masks (see the `FENCE_*` constants) and its mode.
#[derive(Debug, Clone, Copy, PartialEq, Eq, Structural)]
pub enum MiscMemOp {
    Fence(u8, u8, FenceMode),
    FenceI,
}

impl MiscMemOp {
    pub const FENCE_W: u8 = 1;

    pub const FENCE_R: u8 = 2;

    pub const FENCE_I: u8 = 4;

    pub const FENCE_O: u8 = 8;
}

/// Integer ALU operations.  The `W`-suffixed variants operate on the low 32
/// bits and sign-extend the 32-bit result (they exist only for XLEN >= 64).
/// `Second` returns the right operand, so that `amoswap` can be expressed
/// uniformly as an AMO with op `Second`.
#[derive(Debug, Clone, Copy, PartialEq, Eq, Structural)]
pub enum BinaryOp {
    Add,
    Sll,
    Slt,
    SltU,
    Xor,
    Srl,
    Or,
    And,
    Sub,
    Sra,
    AddW,
    SllW,
    SrlW,
    SubW,
    SraW,
    Mul,
    Mulh,
    MulhU,
    MulhSU,
    Div,
    DivU,
    Rem,
    RemU,
    MulW,
    DivW,
    DivUW,
    RemW,
    RemUW,
    Second,
    Max,
    MaxU,
    Min,
    MinU,
}

/// Acquire/release ordering carried by LR/SC/AMO instructions; passed through
/// verbatim to the memory collaborator.
#[derive(Debug, Clone, Copy, PartialEq, Eq, Structural)]
pub enum MemOrder {
    Relaxed,
    Release,
    Acquire,
    AcqRel,
}

/// CSR access operations: read-write, read-set, read-clear, each with a
/// register source or an immediate source.
#[derive(Debug, Clone, Copy, PartialEq, Eq, Structural)]
pub enum CsrOp {
    Rw,
    Rs,
    Rc,
    Rwi,
    Rsi,
    Rci,
}

/// The access class a memory-protection fault was raised for.
#[derive(Debug, Clone, Copy, PartialEq, Eq, Structural)]
pub enum MemProtect {
    R,
    W,
    X,
}

/// Architectural exceptions.  Decode surfaces nothing but
/// `Trap(IllegalInstr)`; execution may additionally raise the memory faults
/// and the environment-call exceptions.
#[derive(Debug, Clone, Copy, PartialEq, Eq, Structural)]
pub enum Exception {
    AddrMisalign(MemProtect),
    AccessFault(MemProtect),
    PageFault(MemProtect),
    IllegalInstr,
    Ecall,
    Ebreak,
}

/// Floating-point precision of an operation or a load/store.
#[derive(Debug, Clone, Copy, PartialEq, Eq, Structural)]
pub enum Precision {
    S,
    D,
}

/// Rounding modes.  `Dyn` defers to the dynamic rounding-mode register;
/// `NoRm` marks operations that are pure bit manipulations and need no
/// rounding mode at all.
#[derive(Debug, Clone, Copy, PartialEq, Eq, Structural)]
pub enum RoundMode {
    Rne,
    Rtz,
    Rdn,
    Rup,
    Rmm,
    Dyn,
    NoRm,
}

/// The fused multiply-add family.  `MAdd` is `a*b + c`, `MSub` is `a*b - c`,
/// `NMSub` is `-(a*b) + c`, `NMAdd` is `-(a*b) - c`.
#[derive(Debug, Clone, Copy, PartialEq, Eq, Structural)]
pub enum FpTernaryOp {
    MAdd,
    MSub,
    NMSub,
    NMAdd,
}

/// Binary floating-point operations.  The sign-injection and min/max
/// variants are bit-exact and carry round mode `NoRm`.
#[derive(Debug, Clone, Copy, PartialEq, Eq, Structural)]
pub enum FpBinaryOp {
    Add,
    Sub,
    Mul,
    Div,
    SgnJ,
    SgnJN,
    SgnJX,
    Min,
    Max,
}

/// Unary floating-point operations.
#[derive(Debug, Clone, Copy, PartialEq, Eq, Structural)]
pub enum FpUnaryOp {
    Sqrt,
}

/// Floating-point comparison conditions written to a general-purpose
/// register.
#[derive(Debug, Clone, Copy, PartialEq, Eq, Structural)]
pub enum FpCmpCond {
    Eq,
    Lt,
    Le,
}

/// Float-to-GP conversions: to signed/unsigned 32- and 64-bit integers, the
/// raw bit move, and classification.
#[derive(Debug, Clone, Copy, PartialEq, Eq, Structural)]
pub enum FpGpOp {
    W,
    WU,
    L,
    LU,
    MV,
    Class,
}

/// GP-to-float conversions: from signed/unsigned 32- and 64-bit integers,
/// and the raw bit move.
#[derive(Debug, Clone, Copy, PartialEq, Eq, Structural)]
pub enum GpFpOp {
    W,
    WU,
    L,
    LU,
    MV,
}

/// A decoded micro-op.
///
/// The `C`-prefixed variants carry the same semantics as their full-width
/// counterparts but advance the program counter by 2 instead of 4.  `LUI`
/// decodes to `OpImm(rd, 0, imm, Add)`; there is no separate variant for it.
#[derive(Debug, Clone, Copy, PartialEq, Eq, Structural)]
pub enum Instr {
    Undecoded,
    Nop,
    Trap(Exception),
    /// (gp-rd, gp-rs1, imm, op)
    OpImm(u8, u8, i32, BinaryOp),
    /// (gp-rd, gp-rs1, gp-rs2, op)
    Op(u8, u8, u8, BinaryOp),
    /// (gp-rd, imm)
    Auipc(u8, i32),
    /// (gp-rd, gp-rs1, offset, width)
    Load(u8, u8, i32, MemWidth),
    /// (gp-rs1, gp-rs2, offset, width)
    Store(u8, u8, i32, MemWidth),
    MiscMem(MiscMemOp),
    /// (gp-rs1, gp-rs2, offset, cond)
    Branch(u8, u8, i32, CmpCond),
    /// (gp-rd, offset)
    Jal(u8, i32),
    /// (gp-rd, gp-rs1, offset)
    Jalr(u8, u8, i32),
    /// (gp-rd, gp-rs1 or uimm, csr address, op)
    Csr(u8, u8, u16, CsrOp),
    /// (gp-rd, gp-rs1, order, width)
    LoadReserved(u8, u8, MemOrder, MemWidth),
    /// (gp-rd, gp-rs1, gp-rs2, order, width)
    StoreConditional(u8, u8, u8, MemOrder, MemWidth),
    /// (gp-rd, gp-rs1, gp-rs2, order, width, op)
    Amo(u8, u8, u8, MemOrder, MemWidth, BinaryOp),
    /// (fp-rd, gp-rs1, offset, precision)
    LoadFp(u8, u8, i32, Precision),
    /// (gp-rs1, fp-rs2, offset, precision)
    StoreFp(u8, u8, i32, Precision),
    /// (fp-rd, fp-rs1, fp-rs2, fp-rs3, round mode, precision, op)
    FpOp3(u8, u8, u8, u8, RoundMode, Precision, FpTernaryOp),
    /// (fp-rd, fp-rs1, fp-rs2, round mode, precision, op)
    FpOp2(u8, u8, u8, RoundMode, Precision, FpBinaryOp),
    /// (fp-rd, fp-rs1, round mode, precision, op)
    FpOp(u8, u8, RoundMode, Precision, FpUnaryOp),
    /// (gp-rd, fp-rs1, round mode, precision, op)
    FpCvtGp(u8, u8, RoundMode, Precision, FpGpOp),
    /// (fp-rd, gp-rs1, round mode, precision, op)
    GpCvtFp(u8, u8, RoundMode, Precision, GpFpOp),
    /// (gp-rd, fp-rs1, fp-rs2, precision, cond)
    FpCmp(u8, u8, u8, Precision, FpCmpCond),
    /// (fp-rd, fp-rs1, round mode, source precision, target precision)
    FpCvtFp(u8, u8, RoundMode, Precision, Precision),
    CTrap(Exception),
    /// (gp-rd, gp-rs1, imm, op)
    COpImm(u8, u8, i32, BinaryOp),
    /// (gp-rd and gp-rs1, gp-rs2, op)
    COp(u8, u8, BinaryOp),
    /// (gp-rd, gp-rs1, offset, width)
    CLoad(u8, u8, i32, MemWidth),
    /// (gp-rs1, gp-rs2, offset, width)
    CStore(u8, u8, i32, MemWidth),
    /// (gp-rs1, offset, cond)
    CBranch(u8, i32, CmpCond),
    /// (gp-rd, offset)
    CJal(u8, i32),
    /// (gp-rd, gp-rs1)
    CJalr(u8, u8),
    /// (fp-rd, gp-rs1, offset, precision)
    CLoadFp(u8, u8, i32, Precision),
    /// (gp-rs1, fp-rs2, offset, precision)
    CStoreFp(u8, u8, i32, Precision),
}

/// How one executed instruction left the control flow: fell through to the
/// next sequential instruction, redirected the program counter (a taken
/// branch, a jump), or halted the hart (a trap under this crate's trap
/// model, or the stop token).
#[derive(Debug, Clone, Copy, PartialEq, Eq, Structural)]
pub enum Flow {
    Sequential,
    Redirected,
    Halted,
}

} // verus!
