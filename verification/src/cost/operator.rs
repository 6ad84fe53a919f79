//! The operators that the cost table knows, and what each one costs.

use vstd::prelude::*;

use crate::text::{first_word, first_word_of};

verus! {

/// The cost charged for an operator that the table does not list.
pub const PENALTY: u64 = 1000;

/// A WebAssembly operator, as far as the meter tells operators apart: one variant
/// for each operator that the cost table lists, and `Other` for every operator
/// that it does not.
#[derive(Clone, Copy, Debug, PartialEq, Eq, Hash)]
pub enum Op {
    // Reading a local is free.
    LocalGet,
    // Writing a local.
    LocalSet,
    LocalTee,
    // Reading a global.
    GlobalGet,
    // Writing a global.
    GlobalSet,
    // Plain loads of any width.
    F32Load,
    F64Load,
    I32Load,
    I64Load,
    I32Load8S,
    I32Load8U,
    I32Load16S,
    I32Load16U,
    I64Load8S,
    I64Load8U,
    I64Load16S,
    I64Load16U,
    I64Load32S,
    I64Load32U,
    // Atomic loads of any width.
    I32AtomicLoad,
    I32AtomicLoad8U,
    I32AtomicLoad16U,
    I64AtomicLoad,
    I64AtomicLoad8U,
    I64AtomicLoad16U,
    I64AtomicLoad32U,
    // Plain stores of any width.
    F32Store,
    F64Store,
    I32Store,
    I64Store,
    I32Store8,
    I32Store16,
    I64Store8,
    I64Store16,
    I64Store32,
    // Atomic stores of any width.
    I32AtomicStore,
    I32AtomicStore8,
    I32AtomicStore16,
    I64AtomicStore,
    I64AtomicStore8,
    I64AtomicStore16,
    I64AtomicStore32,
    // Constants.
    F32Const,
    F64Const,
    I32Const,
    I64Const,
    // Conversions, extensions, truncations, bit counts and unary float operators.
    F32ConvertI32S,
    F32ConvertI32U,
    F32ConvertI64S,
    F32ConvertI64U,
    F64ConvertI32S,
    F64ConvertI32U,
    F64ConvertI64S,
    F64ConvertI64U,
    I32ReinterpretF32,
    I64ReinterpretF64,
    F32ReinterpretI32,
    F64ReinterpretI64,
    I32WrapI64,
    I32Extend8S,
    I32Extend16S,
    I64Extend8S,
    I64Extend16S,
    I64Extend32S,
    I64ExtendI32U,
    I64ExtendI32S,
    F32Trunc,
    F64Trunc,
    I32TruncF32S,
    I32TruncF32U,
    I32TruncF64S,
    I32TruncF64U,
    I32TruncSatF32S,
    I32TruncSatF32U,
    I32TruncSatF64S,
    I32TruncSatF64U,
    I64TruncF32S,
    I64TruncF32U,
    I64TruncF64S,
    I64TruncF64U,
    I64TruncSatF32S,
    I64TruncSatF32U,
    I64TruncSatF64S,
    I64TruncSatF64U,
    F32DemoteF64,
    F64PromoteF32,
    I32Popcnt,
    I64Popcnt,
    I32Clz,
    I32Ctz,
    I64Clz,
    I64Ctz,
    F32Neg,
    F64Neg,
    F32Abs,
    F64Abs,
    F32Ceil,
    F64Ceil,
    F32Floor,
    F64Floor,
    F32Nearest,
    F64Nearest,
    I32Eqz,
    I64Eqz,
    // Square roots.
    F32Sqrt,
    F64Sqrt,
    // Vector splats, lane-wise unary operators, lane tests, bitmasks and lane-wise conversions.
    F32x4Splat,
    F64x2Splat,
    I16x8Splat,
    I32x4Splat,
    I64x2Splat,
    I8x16Splat,
    V128Not,
    V128AnyTrue,
    F32x4Abs,
    F32x4Neg,
    F32x4Sqrt,
    F32x4Ceil,
    F32x4Floor,
    F32x4Trunc,
    F32x4Nearest,
    F64x2Abs,
    F64x2Neg,
    F64x2Sqrt,
    F64x2Ceil,
    F64x2Floor,
    F64x2Trunc,
    F64x2Nearest,
    I8x16Abs,
    I8x16Neg,
    I8x16AllTrue,
    I8x16Bitmask,
    I8x16Popcnt,
    I16x8Abs,
    I16x8Neg,
    I16x8AllTrue,
    I16x8Bitmask,
    I32x4Abs,
    I32x4Neg,
    I32x4AllTrue,
    I32x4Bitmask,
    I64x2Abs,
    I64x2Neg,
    I64x2AllTrue,
    I64x2Bitmask,
    F32x4ConvertI32x4S,
    F32x4ConvertI32x4U,
    I32x4TruncSatF32x4S,
    I32x4TruncSatF32x4U,
    F64x2ConvertLowI32x4S,
    F64x2ConvertLowI32x4U,
    I32x4TruncSatF64x2SZero,
    I32x4TruncSatF64x2UZero,
    I16x8ExtAddPairwiseI8x16S,
    I16x8ExtAddPairwiseI8x16U,
    I32x4ExtAddPairwiseI16x8S,
    I32x4ExtAddPairwiseI16x8U,
    I16x8ExtendHighI8x16S,
    I16x8ExtendLowI8x16S,
    I16x8ExtendHighI8x16U,
    I16x8ExtendLowI8x16U,
    I32x4ExtendHighI16x8S,
    I32x4ExtendLowI16x8S,
    I32x4ExtendHighI16x8U,
    I32x4ExtendLowI16x8U,
    I64x2ExtendHighI32x4S,
    I64x2ExtendLowI32x4S,
    I64x2ExtendHighI32x4U,
    I64x2ExtendLowI32x4U,
    F32x4DemoteF64x2Zero,
    F64x2PromoteLowF32x4,
    I32x4RelaxedTruncF32x4S,
    I32x4RelaxedTruncF32x4U,
    I32x4RelaxedTruncF64x2SZero,
    I32x4RelaxedTruncF64x2UZero,
    // Additions and subtractions.
    I32Add,
    I32Sub,
    I64Add,
    I64Sub,
    F32Add,
    F32Sub,
    F64Add,
    F64Sub,
    // Multiplications.
    I32Mul,
    I64Mul,
    F32Mul,
    F64Mul,
    // Divisions and remainders.
    I32DivS,
    I32DivU,
    I32RemS,
    I32RemU,
    I64DivS,
    I64DivU,
    I64RemS,
    I64RemU,
    F32Div,
    F64Div,
    // Bitwise operators, shifts and rotations.
    I32And,
    I32Or,
    I32Xor,
    I32Shl,
    I32ShrS,
    I32ShrU,
    I32Rotl,
    I32Rotr,
    I64And,
    I64Or,
    I64Xor,
    I64Shl,
    I64ShrS,
    I64ShrU,
    I64Rotl,
    I64Rotr,
    // Sign copies.
    F32Copysign,
    F64Copysign,
    // Minima and maxima.
    F32Min,
    F32Max,
    F64Min,
    F64Max,
    // Comparisons.
    I32Eq,
    I32Ne,
    I32LtS,
    I32LtU,
    I32LeS,
    I32LeU,
    I32GtS,
    I32GtU,
    I32GeS,
    I32GeU,
    I64Eq,
    I64Ne,
    I64LtS,
    I64LtU,
    I64LeS,
    I64LeU,
    I64GtS,
    I64GtU,
    I64GeS,
    I64GeU,
    F32Eq,
    F32Ne,
    F32Lt,
    F32Le,
    F32Gt,
    F32Ge,
    F64Eq,
    F64Ne,
    F64Lt,
    F64Le,
    F64Gt,
    F64Ge,
    // Structured control flow, branches and `select`.
    Block,
    Loop,
    If,
    Else,
    End,
    Br,
    BrIf,
    BrTable,
    Select,
    // Memory size and growth.
    MemoryGrow,
    MemorySize,
    // Bulk memory operators.
    MemoryInit,
    MemoryCopy,
    MemoryFill,
    // Operators that cost nothing by themselves.
    Return,
    Unreachable,
    Nop,
    Drop,
    Try,
    // Direct calls.
    Call,
    // Indirect calls.
    CallIndirect,
    // Dropping a data segment.
    DataDrop,
    // Throwing an exception.
    Throw,
    /// Any operator that the table does not list.
    Other,
}

/// The static cost of one occurrence of `op`.
pub open spec fn static_cost(op: Op) -> u64 {
    match op {
        // Reading a local is free.
        Op::LocalGet => 0,
        // Writing a local.
        Op::LocalSet | Op::LocalTee => 1,
        // Reading a global.
        Op::GlobalGet => 1,
        // Writing a global.
        Op::GlobalSet => 2,
        // Plain loads of any width.
        Op::F32Load | Op::F64Load | Op::I32Load | Op::I64Load | Op::I32Load8S
        | Op::I32Load8U | Op::I32Load16S | Op::I32Load16U | Op::I64Load8S | Op::I64Load8U
        | Op::I64Load16S | Op::I64Load16U | Op::I64Load32S | Op::I64Load32U => 1,
        // Atomic loads of any width.
        Op::I32AtomicLoad | Op::I32AtomicLoad8U | Op::I32AtomicLoad16U | Op::I64AtomicLoad
        | Op::I64AtomicLoad8U | Op::I64AtomicLoad16U | Op::I64AtomicLoad32U => 11,
        // Plain stores of any width.
        Op::F32Store | Op::F64Store | Op::I32Store | Op::I64Store | Op::I32Store8
        | Op::I32Store16 | Op::I64Store8 | Op::I64Store16 | Op::I64Store32 => 2,
        // Atomic stores of any width.
        Op::I32AtomicStore | Op::I32AtomicStore8 | Op::I32AtomicStore16
        | Op::I64AtomicStore | Op::I64AtomicStore8 | Op::I64AtomicStore16
        | Op::I64AtomicStore32 => 12,
        // Constants.
        Op::F32Const | Op::F64Const | Op::I32Const | Op::I64Const => 1,
        // Conversions, extensions, truncations, bit counts and unary float operators.
        Op::F32ConvertI32S | Op::F32ConvertI32U | Op::F32ConvertI64S | Op::F32ConvertI64U
        | Op::F64ConvertI32S | Op::F64ConvertI32U | Op::F64ConvertI64S
        | Op::F64ConvertI64U | Op::I32ReinterpretF32 | Op::I64ReinterpretF64
        | Op::F32ReinterpretI32 | Op::F64ReinterpretI64 | Op::I32WrapI64 | Op::I32Extend8S
        | Op::I32Extend16S | Op::I64Extend8S | Op::I64Extend16S | Op::I64Extend32S
        | Op::I64ExtendI32U | Op::I64ExtendI32S | Op::F32Trunc | Op::F64Trunc
        | Op::I32TruncF32S | Op::I32TruncF32U | Op::I32TruncF64S | Op::I32TruncF64U
        | Op::I32TruncSatF32S | Op::I32TruncSatF32U | Op::I32TruncSatF64S
        | Op::I32TruncSatF64U | Op::I64TruncF32S | Op::I64TruncF32U | Op::I64TruncF64S
        | Op::I64TruncF64U | Op::I64TruncSatF32S | Op::I64TruncSatF32U
        | Op::I64TruncSatF64S | Op::I64TruncSatF64U | Op::F32DemoteF64 | Op::F64PromoteF32
        | Op::I32Popcnt | Op::I64Popcnt | Op::I32Clz | Op::I32Ctz | Op::I64Clz
        | Op::I64Ctz | Op::F32Neg | Op::F64Neg | Op::F32Abs | Op::F64Abs | Op::F32Ceil
        | Op::F64Ceil | Op::F32Floor | Op::F64Floor | Op::F32Nearest | Op::F64Nearest
        | Op::I32Eqz | Op::I64Eqz => 1,
        // Square roots.
        Op::F32Sqrt | Op::F64Sqrt => 2,
        // Vector splats, lane-wise unary operators, lane tests, bitmasks and lane-wise conversions.
        Op::F32x4Splat | Op::F64x2Splat | Op::I16x8Splat | Op::I32x4Splat | Op::I64x2Splat
        | Op::I8x16Splat | Op::V128Not | Op::V128AnyTrue | Op::F32x4Abs | Op::F32x4Neg
        | Op::F32x4Sqrt | Op::F32x4Ceil | Op::F32x4Floor | Op::F32x4Trunc
        | Op::F32x4Nearest | Op::F64x2Abs | Op::F64x2Neg | Op::F64x2Sqrt | Op::F64x2Ceil
        | Op::F64x2Floor | Op::F64x2Trunc | Op::F64x2Nearest | Op::I8x16Abs | Op::I8x16Neg
        | Op::I8x16AllTrue | Op::I8x16Bitmask | Op::I8x16Popcnt | Op::I16x8Abs
        | Op::I16x8Neg | Op::I16x8AllTrue | Op::I16x8Bitmask | Op::I32x4Abs | Op::I32x4Neg
        | Op::I32x4AllTrue | Op::I32x4Bitmask | Op::I64x2Abs | Op::I64x2Neg
        | Op::I64x2AllTrue | Op::I64x2Bitmask | Op::F32x4ConvertI32x4S
        | Op::F32x4ConvertI32x4U | Op::I32x4TruncSatF32x4S | Op::I32x4TruncSatF32x4U
        | Op::F64x2ConvertLowI32x4S | Op::F64x2ConvertLowI32x4U
        | Op::I32x4TruncSatF64x2SZero | Op::I32x4TruncSatF64x2UZero
        | Op::I16x8ExtAddPairwiseI8x16S | Op::I16x8ExtAddPairwiseI8x16U
        | Op::I32x4ExtAddPairwiseI16x8S | Op::I32x4ExtAddPairwiseI16x8U
        | Op::I16x8ExtendHighI8x16S | Op::I16x8ExtendLowI8x16S | Op::I16x8ExtendHighI8x16U
        | Op::I16x8ExtendLowI8x16U | Op::I32x4ExtendHighI16x8S | Op::I32x4ExtendLowI16x8S
        | Op::I32x4ExtendHighI16x8U | Op::I32x4ExtendLowI16x8U | Op::I64x2ExtendHighI32x4S
        | Op::I64x2ExtendLowI32x4S | Op::I64x2ExtendHighI32x4U | Op::I64x2ExtendLowI32x4U
        | Op::F32x4DemoteF64x2Zero | Op::F64x2PromoteLowF32x4
        | Op::I32x4RelaxedTruncF32x4S | Op::I32x4RelaxedTruncF32x4U
        | Op::I32x4RelaxedTruncF64x2SZero | Op::I32x4RelaxedTruncF64x2UZero => 1,
        // Additions and subtractions.
        Op::I32Add | Op::I32Sub | Op::I64Add | Op::I64Sub | Op::F32Add | Op::F32Sub
        | Op::F64Add | Op::F64Sub => 1,
        // Multiplications.
        Op::I32Mul | Op::I64Mul | Op::F32Mul | Op::F64Mul => 2,
        // Divisions and remainders.
        Op::I32DivS | Op::I32DivU | Op::I32RemS | Op::I32RemU | Op::I64DivS | Op::I64DivU
        | Op::I64RemS | Op::I64RemU | Op::F32Div | Op::F64Div => 3,
        // Bitwise operators, shifts and rotations.
        Op::I32And | Op::I32Or | Op::I32Xor | Op::I32Shl | Op::I32ShrS | Op::I32ShrU
        | Op::I32Rotl | Op::I32Rotr | Op::I64And | Op::I64Or | Op::I64Xor | Op::I64Shl
        | Op::I64ShrS | Op::I64ShrU | Op::I64Rotl | Op::I64Rotr => 1,
        // Sign copies.
        Op::F32Copysign | Op::F64Copysign => 1,
        // Minima and maxima.
        Op::F32Min | Op::F32Max | Op::F64Min | Op::F64Max => 1,
        // Comparisons.
        Op::I32Eq | Op::I32Ne | Op::I32LtS | Op::I32LtU | Op::I32LeS | Op::I32LeU
        | Op::I32GtS | Op::I32GtU | Op::I32GeS | Op::I32GeU | Op::I64Eq | Op::I64Ne
        | Op::I64LtS | Op::I64LtU | Op::I64LeS | Op::I64LeU | Op::I64GtS | Op::I64GtU
        | Op::I64GeS | Op::I64GeU | Op::F32Eq | Op::F32Ne | Op::F32Lt | Op::F32Le
        | Op::F32Gt | Op::F32Ge | Op::F64Eq | Op::F64Ne | Op::F64Lt | Op::F64Le
        | Op::F64Gt | Op::F64Ge => 1,
        // Structured control flow, branches and `select`.
        Op::Block | Op::Loop | Op::If | Op::Else | Op::End | Op::Br | Op::BrIf
        | Op::BrTable | Op::Select => 1,
        // Memory size and growth.
        Op::MemoryGrow | Op::MemorySize => 1,
        // Bulk memory operators.
        Op::MemoryInit | Op::MemoryCopy | Op::MemoryFill => 6,
        // Operators that cost nothing by themselves.
        Op::Return | Op::Unreachable | Op::Nop | Op::Drop | Op::Try => 0,
        // Direct calls.
        Op::Call => 4,
        // Indirect calls.
        Op::CallIndirect => 6,
        // Dropping a data segment.
        Op::DataDrop => 5,
        // Throwing an exception.
        Op::Throw => 100,
        // Whatever the table does not list pays the penalty.
        Op::Other => PENALTY,
    }
}

/// Whether `op` ends a basic block: a branch target or block end (`loop`, `end`,
/// `else`), or a branch source (`br`, `br_table`, `br_if`, a call, `return`).
pub open spec fn is_block_boundary(op: Op) -> bool {
    match op {
        Op::Loop | Op::End | Op::Else | Op::Br | Op::BrTable | Op::BrIf | Op::Call
        | Op::CallIndirect | Op::Return => true,
        _ => false,
    }
}

impl Op {
    /// The static cost of one occurrence of this operator.
    pub fn cost(self) -> (cost: u64)
        ensures
            cost == static_cost(self),
            cost <= PENALTY,
    {
        match self {
            Op::LocalGet => 0,
            Op::LocalSet | Op::LocalTee => 1,
            Op::GlobalGet => 1,
            Op::GlobalSet => 2,
            Op::F32Load | Op::F64Load | Op::I32Load | Op::I64Load | Op::I32Load8S
            | Op::I32Load8U | Op::I32Load16S | Op::I32Load16U | Op::I64Load8S
            | Op::I64Load8U | Op::I64Load16S | Op::I64Load16U | Op::I64Load32S
            | Op::I64Load32U => 1,
            Op::I32AtomicLoad | Op::I32AtomicLoad8U | Op::I32AtomicLoad16U
            | Op::I64AtomicLoad | Op::I64AtomicLoad8U | Op::I64AtomicLoad16U
            | Op::I64AtomicLoad32U => 11,
            Op::F32Store | Op::F64Store | Op::I32Store | Op::I64Store | Op::I32Store8
            | Op::I32Store16 | Op::I64Store8 | Op::I64Store16 | Op::I64Store32 => 2,
            Op::I32AtomicStore | Op::I32AtomicStore8 | Op::I32AtomicStore16
            | Op::I64AtomicStore | Op::I64AtomicStore8 | Op::I64AtomicStore16
            | Op::I64AtomicStore32 => 12,
            Op::F32Const | Op::F64Const | Op::I32Const | Op::I64Const => 1,
            Op::F32ConvertI32S | Op::F32ConvertI32U | Op::F32ConvertI64S
            | Op::F32ConvertI64U | Op::F64ConvertI32S | Op::F64ConvertI32U
            | Op::F64ConvertI64S | Op::F64ConvertI64U | Op::I32ReinterpretF32
            | Op::I64ReinterpretF64 | Op::F32ReinterpretI32 | Op::F64ReinterpretI64
            | Op::I32WrapI64 | Op::I32Extend8S | Op::I32Extend16S | Op::I64Extend8S
            | Op::I64Extend16S | Op::I64Extend32S | Op::I64ExtendI32U | Op::I64ExtendI32S
            | Op::F32Trunc | Op::F64Trunc | Op::I32TruncF32S | Op::I32TruncF32U
            | Op::I32TruncF64S | Op::I32TruncF64U | Op::I32TruncSatF32S
            | Op::I32TruncSatF32U | Op::I32TruncSatF64S | Op::I32TruncSatF64U
            | Op::I64TruncF32S | Op::I64TruncF32U | Op::I64TruncF64S | Op::I64TruncF64U
            | Op::I64TruncSatF32S | Op::I64TruncSatF32U | Op::I64TruncSatF64S
            | Op::I64TruncSatF64U | Op::F32DemoteF64 | Op::F64PromoteF32 | Op::I32Popcnt
            | Op::I64Popcnt | Op::I32Clz | Op::I32Ctz | Op::I64Clz | Op::I64Ctz
            | Op::F32Neg | Op::F64Neg | Op::F32Abs | Op::F64Abs | Op::F32Ceil
            | Op::F64Ceil | Op::F32Floor | Op::F64Floor | Op::F32Nearest | Op::F64Nearest
            | Op::I32Eqz | Op::I64Eqz => 1,
            Op::F32Sqrt | Op::F64Sqrt => 2,
            Op::F32x4Splat | Op::F64x2Splat | Op::I16x8Splat | Op::I32x4Splat
            | Op::I64x2Splat | Op::I8x16Splat | Op::V128Not | Op::V128AnyTrue
            | Op::F32x4Abs | Op::F32x4Neg | Op::F32x4Sqrt | Op::F32x4Ceil | Op::F32x4Floor
            | Op::F32x4Trunc | Op::F32x4Nearest | Op::F64x2Abs | Op::F64x2Neg
            | Op::F64x2Sqrt | Op::F64x2Ceil | Op::F64x2Floor | Op::F64x2Trunc
            | Op::F64x2Nearest | Op::I8x16Abs | Op::I8x16Neg | Op::I8x16AllTrue
            | Op::I8x16Bitmask | Op::I8x16Popcnt | Op::I16x8Abs | Op::I16x8Neg
            | Op::I16x8AllTrue | Op::I16x8Bitmask | Op::I32x4Abs | Op::I32x4Neg
            | Op::I32x4AllTrue | Op::I32x4Bitmask | Op::I64x2Abs | Op::I64x2Neg
            | Op::I64x2AllTrue | Op::I64x2Bitmask | Op::F32x4ConvertI32x4S
            | Op::F32x4ConvertI32x4U | Op::I32x4TruncSatF32x4S | Op::I32x4TruncSatF32x4U
            | Op::F64x2ConvertLowI32x4S | Op::F64x2ConvertLowI32x4U
            | Op::I32x4TruncSatF64x2SZero | Op::I32x4TruncSatF64x2UZero
            | Op::I16x8ExtAddPairwiseI8x16S | Op::I16x8ExtAddPairwiseI8x16U
            | Op::I32x4ExtAddPairwiseI16x8S | Op::I32x4ExtAddPairwiseI16x8U
            | Op::I16x8ExtendHighI8x16S | Op::I16x8ExtendLowI8x16S
            | Op::I16x8ExtendHighI8x16U | Op::I16x8ExtendLowI8x16U
            | Op::I32x4ExtendHighI16x8S | Op::I32x4ExtendLowI16x8S
            | Op::I32x4ExtendHighI16x8U | Op::I32x4ExtendLowI16x8U
            | Op::I64x2ExtendHighI32x4S | Op::I64x2ExtendLowI32x4S
            | Op::I64x2ExtendHighI32x4U | Op::I64x2ExtendLowI32x4U
            | Op::F32x4DemoteF64x2Zero | Op::F64x2PromoteLowF32x4
            | Op::I32x4RelaxedTruncF32x4S | Op::I32x4RelaxedTruncF32x4U
            | Op::I32x4RelaxedTruncF64x2SZero | Op::I32x4RelaxedTruncF64x2UZero => 1,
            Op::I32Add | Op::I32Sub | Op::I64Add | Op::I64Sub | Op::F32Add | Op::F32Sub
            | Op::F64Add | Op::F64Sub => 1,
            Op::I32Mul | Op::I64Mul | Op::F32Mul | Op::F64Mul => 2,
            Op::I32DivS | Op::I32DivU | Op::I32RemS | Op::I32RemU | Op::I64DivS
            | Op::I64DivU | Op::I64RemS | Op::I64RemU | Op::F32Div | Op::F64Div => 3,
            Op::I32And | Op::I32Or | Op::I32Xor | Op::I32Shl | Op::I32ShrS | Op::I32ShrU
            | Op::I32Rotl | Op::I32Rotr | Op::I64And | Op::I64Or | Op::I64Xor | Op::I64Shl
            | Op::I64ShrS | Op::I64ShrU | Op::I64Rotl | Op::I64Rotr => 1,
            Op::F32Copysign | Op::F64Copysign => 1,
            Op::F32Min | Op::F32Max | Op::F64Min | Op::F64Max => 1,
            Op::I32Eq | Op::I32Ne | Op::I32LtS | Op::I32LtU | Op::I32LeS | Op::I32LeU
            | Op::I32GtS | Op::I32GtU | Op::I32GeS | Op::I32GeU | Op::I64Eq | Op::I64Ne
            | Op::I64LtS | Op::I64LtU | Op::I64LeS | Op::I64LeU | Op::I64GtS | Op::I64GtU
            | Op::I64GeS | Op::I64GeU | Op::F32Eq | Op::F32Ne | Op::F32Lt | Op::F32Le
            | Op::F32Gt | Op::F32Ge | Op::F64Eq | Op::F64Ne | Op::F64Lt | Op::F64Le
            | Op::F64Gt | Op::F64Ge => 1,
            Op::Block | Op::Loop | Op::If | Op::Else | Op::End | Op::Br | Op::BrIf
            | Op::BrTable | Op::Select => 1,
            Op::MemoryGrow | Op::MemorySize => 1,
            Op::MemoryInit | Op::MemoryCopy | Op::MemoryFill => 6,
            Op::Return | Op::Unreachable | Op::Nop | Op::Drop | Op::Try => 0,
            Op::Call => 4,
            Op::CallIndirect => 6,
            Op::DataDrop => 5,
            Op::Throw => 100,
            Op::Other => PENALTY,
        }
    }

    /// Whether this operator ends a basic block.
    pub fn ends_block(self) -> (ends: bool)
        ensures
            ends == is_block_boundary(self),
    {
        match self {
            Op::Loop | Op::End | Op::Else | Op::Br | Op::BrTable | Op::BrIf | Op::Call
            | Op::CallIndirect | Op::Return => true,
            _ => false,
        }
    }

    /// Whether the table does not list this operator.
    pub fn is_unlisted(self) -> (unlisted: bool)
        ensures
            unlisted == (self == Op::Other),
    {
        match self {
            Op::Other => true,
            _ => false,
        }
    }
}

/// No operator costs more than the penalty.
pub proof fn lemma_cost_bounded(op: Op)
    ensures
        static_cost(op) <= PENALTY,
{
}

/// The name under which an operator is counted, from the text that it is printed
/// as: the first word of the text.
pub fn printable_name(printed: &str) -> (name: String)
    ensures
        name@ == first_word(printed@),
{
    first_word_of(printed)
}

/// `<str as PartialEq>::eq`: whether two string slices hold the same characters.
#[verifier::external_body]
fn same_text(a: &str, b: &str) -> (same: bool)
    ensures
        same == (a@ == b@),
{
    a == b
}

/// The operator with the given name, `Other` for a name that the table does not
/// list.
pub open spec fn named(name: Seq<char>) -> Op {
    if name == "LocalGet"@ {
        Op::LocalGet
    } else if name == "LocalSet"@ {
        Op::LocalSet
    } else if name == "LocalTee"@ {
        Op::LocalTee
    } else if name == "GlobalGet"@ {
        Op::GlobalGet
    } else if name == "GlobalSet"@ {
        Op::GlobalSet
    } else if name == "F32Load"@ {
        Op::F32Load
    } else if name == "F64Load"@ {
        Op::F64Load
    } else if name == "I32Load"@ {
        Op::I32Load
    } else if name == "I64Load"@ {
        Op::I64Load
    } else if name == "I32Load8S"@ {
        Op::I32Load8S
    } else if name == "I32Load8U"@ {
        Op::I32Load8U
    } else if name == "I32Load16S"@ {
        Op::I32Load16S
    } else if name == "I32Load16U"@ {
        Op::I32Load16U
    } else if name == "I64Load8S"@ {
        Op::I64Load8S
    } else if name == "I64Load8U"@ {
        Op::I64Load8U
    } else if name == "I64Load16S"@ {
        Op::I64Load16S
    } else if name == "I64Load16U"@ {
        Op::I64Load16U
    } else if name == "I64Load32S"@ {
        Op::I64Load32S
    } else if name == "I64Load32U"@ {
        Op::I64Load32U
    } else if name == "I32AtomicLoad"@ {
        Op::I32AtomicLoad
    } else if name == "I32AtomicLoad8U"@ {
        Op::I32AtomicLoad8U
    } else if name == "I32AtomicLoad16U"@ {
        Op::I32AtomicLoad16U
    } else if name == "I64AtomicLoad"@ {
        Op::I64AtomicLoad
    } else if name == "I64AtomicLoad8U"@ {
        Op::I64AtomicLoad8U
    } else if name == "I64AtomicLoad16U"@ {
        Op::I64AtomicLoad16U
    } else if name == "I64AtomicLoad32U"@ {
        Op::I64AtomicLoad32U
    } else if name == "F32Store"@ {
        Op::F32Store
    } else if name == "F64Store"@ {
        Op::F64Store
    } else if name == "I32Store"@ {
        Op::I32Store
    } else if name == "I64Store"@ {
        Op::I64Store
    } else if name == "I32Store8"@ {
        Op::I32Store8
    } else if name == "I32Store16"@ {
        Op::I32Store16
    } else if name == "I64Store8"@ {
        Op::I64Store8
    } else if name == "I64Store16"@ {
        Op::I64Store16
    } else if name == "I64Store32"@ {
        Op::I64Store32
    } else if name == "I32AtomicStore"@ {
        Op::I32AtomicStore
    } else if name == "I32AtomicStore8"@ {
        Op::I32AtomicStore8
    } else if name == "I32AtomicStore16"@ {
        Op::I32AtomicStore16
    } else if name == "I64AtomicStore"@ {
        Op::I64AtomicStore
    } else if name == "I64AtomicStore8"@ {
        Op::I64AtomicStore8
    } else if name == "I64AtomicStore16"@ {
        Op::I64AtomicStore16
    } else if name == "I64AtomicStore32"@ {
        Op::I64AtomicStore32
    } else if name == "F32Const"@ {
        Op::F32Const
    } else if name == "F64Const"@ {
        Op::F64Const
    } else if name == "I32Const"@ {
        Op::I32Const
    } else if name == "I64Const"@ {
        Op::I64Const
    } else if name == "F32ConvertI32S"@ {
        Op::F32ConvertI32S
    } else if name == "F32ConvertI32U"@ {
        Op::F32ConvertI32U
    } else if name == "F32ConvertI64S"@ {
        Op::F32ConvertI64S
    } else if name == "F32ConvertI64U"@ {
        Op::F32ConvertI64U
    } else if name == "F64ConvertI32S"@ {
        Op::F64ConvertI32S
    } else if name == "F64ConvertI32U"@ {
        Op::F64ConvertI32U
    } else if name == "F64ConvertI64S"@ {
        Op::F64ConvertI64S
    } else if name == "F64ConvertI64U"@ {
        Op::F64ConvertI64U
    } else if name == "I32ReinterpretF32"@ {
        Op::I32ReinterpretF32
    } else if name == "I64ReinterpretF64"@ {
        Op::I64ReinterpretF64
    } else if name == "F32ReinterpretI32"@ {
        Op::F32ReinterpretI32
    } else if name == "F64ReinterpretI64"@ {
        Op::F64ReinterpretI64
    } else if name == "I32WrapI64"@ {
        Op::I32WrapI64
    } else if name == "I32Extend8S"@ {
        Op::I32Extend8S
    } else if name == "I32Extend16S"@ {
        Op::I32Extend16S
    } else if name == "I64Extend8S"@ {
        Op::I64Extend8S
    } else if name == "I64Extend16S"@ {
        Op::I64Extend16S
    } else if name == "I64Extend32S"@ {
        Op::I64Extend32S
    } else if name == "I64ExtendI32U"@ {
        Op::I64ExtendI32U
    } else if name == "I64ExtendI32S"@ {
        Op::I64ExtendI32S
    } else if name == "F32Trunc"@ {
        Op::F32Trunc
    } else if name == "F64Trunc"@ {
        Op::F64Trunc
    } else if name == "I32TruncF32S"@ {
        Op::I32TruncF32S
    } else if name == "I32TruncF32U"@ {
        Op::I32TruncF32U
    } else if name == "I32TruncF64S"@ {
        Op::I32TruncF64S
    } else if name == "I32TruncF64U"@ {
        Op::I32TruncF64U
    } else if name == "I32TruncSatF32S"@ {
        Op::I32TruncSatF32S
    } else if name == "I32TruncSatF32U"@ {
        Op::I32TruncSatF32U
    } else if name == "I32TruncSatF64S"@ {
        Op::I32TruncSatF64S
    } else if name == "I32TruncSatF64U"@ {
        Op::I32TruncSatF64U
    } else if name == "I64TruncF32S"@ {
        Op::I64TruncF32S
    } else if name == "I64TruncF32U"@ {
        Op::I64TruncF32U
    } else if name == "I64TruncF64S"@ {
        Op::I64TruncF64S
    } else if name == "I64TruncF64U"@ {
        Op::I64TruncF64U
    } else if name == "I64TruncSatF32S"@ {
        Op::I64TruncSatF32S
    } else if name == "I64TruncSatF32U"@ {
        Op::I64TruncSatF32U
    } else if name == "I64TruncSatF64S"@ {
        Op::I64TruncSatF64S
    } else if name == "I64TruncSatF64U"@ {
        Op::I64TruncSatF64U
    } else if name == "F32DemoteF64"@ {
        Op::F32DemoteF64
    } else if name == "F64PromoteF32"@ {
        Op::F64PromoteF32
    } else if name == "I32Popcnt"@ {
        Op::I32Popcnt
    } else if name == "I64Popcnt"@ {
        Op::I64Popcnt
    } else if name == "I32Clz"@ {
        Op::I32Clz
    } else if name == "I32Ctz"@ {
        Op::I32Ctz
    } else if name == "I64Clz"@ {
        Op::I64Clz
    } else if name == "I64Ctz"@ {
        Op::I64Ctz
    } else if name == "F32Neg"@ {
        Op::F32Neg
    } else if name == "F64Neg"@ {
        Op::F64Neg
    } else if name == "F32Abs"@ {
        Op::F32Abs
    } else if name == "F64Abs"@ {
        Op::F64Abs
    } else if name == "F32Ceil"@ {
        Op::F32Ceil
    } else if name == "F64Ceil"@ {
        Op::F64Ceil
    } else if name == "F32Floor"@ {
        Op::F32Floor
    } else if name == "F64Floor"@ {
        Op::F64Floor
    } else if name == "F32Nearest"@ {
        Op::F32Nearest
    } else if name == "F64Nearest"@ {
        Op::F64Nearest
    } else if name == "I32Eqz"@ {
        Op::I32Eqz
    } else if name == "I64Eqz"@ {
        Op::I64Eqz
    } else if name == "F32Sqrt"@ {
        Op::F32Sqrt
    } else if name == "F64Sqrt"@ {
        Op::F64Sqrt
    } else if name == "F32x4Splat"@ {
        Op::F32x4Splat
    } else if name == "F64x2Splat"@ {
        Op::F64x2Splat
    } else if name == "I16x8Splat"@ {
        Op::I16x8Splat
    } else if name == "I32x4Splat"@ {
        Op::I32x4Splat
    } else if name == "I64x2Splat"@ {
        Op::I64x2Splat
    } else if name == "I8x16Splat"@ {
        Op::I8x16Splat
    } else if name == "V128Not"@ {
        Op::V128Not
    } else if name == "V128AnyTrue"@ {
        Op::V128AnyTrue
    } else if name == "F32x4Abs"@ {
        Op::F32x4Abs
    } else if name == "F32x4Neg"@ {
        Op::F32x4Neg
    } else if name == "F32x4Sqrt"@ {
        Op::F32x4Sqrt
    } else if name == "F32x4Ceil"@ {
        Op::F32x4Ceil
    } else if name == "F32x4Floor"@ {
        Op::F32x4Floor
    } else if name == "F32x4Trunc"@ {
        Op::F32x4Trunc
    } else if name == "F32x4Nearest"@ {
        Op::F32x4Nearest
    } else if name == "F64x2Abs"@ {
        Op::F64x2Abs
    } else if name == "F64x2Neg"@ {
        Op::F64x2Neg
    } else if name == "F64x2Sqrt"@ {
        Op::F64x2Sqrt
    } else if name == "F64x2Ceil"@ {
        Op::F64x2Ceil
    } else if name == "F64x2Floor"@ {
        Op::F64x2Floor
    } else if name == "F64x2Trunc"@ {
        Op::F64x2Trunc
    } else if name == "F64x2Nearest"@ {
        Op::F64x2Nearest
    } else if name == "I8x16Abs"@ {
        Op::I8x16Abs
    } else if name == "I8x16Neg"@ {
        Op::I8x16Neg
    } else if name == "I8x16AllTrue"@ {
        Op::I8x16AllTrue
    } else if name == "I8x16Bitmask"@ {
        Op::I8x16Bitmask
    } else if name == "I8x16Popcnt"@ {
        Op::I8x16Popcnt
    } else if name == "I16x8Abs"@ {
        Op::I16x8Abs
    } else if name == "I16x8Neg"@ {
        Op::I16x8Neg
    } else if name == "I16x8AllTrue"@ {
        Op::I16x8AllTrue
    } else if name == "I16x8Bitmask"@ {
        Op::I16x8Bitmask
    } else if name == "I32x4Abs"@ {
        Op::I32x4Abs
    } else if name == "I32x4Neg"@ {
        Op::I32x4Neg
    } else if name == "I32x4AllTrue"@ {
        Op::I32x4AllTrue
    } else if name == "I32x4Bitmask"@ {
        Op::I32x4Bitmask
    } else if name == "I64x2Abs"@ {
        Op::I64x2Abs
    } else if name == "I64x2Neg"@ {
        Op::I64x2Neg
    } else if name == "I64x2AllTrue"@ {
        Op::I64x2AllTrue
    } else if name == "I64x2Bitmask"@ {
        Op::I64x2Bitmask
    } else if name == "F32x4ConvertI32x4S"@ {
        Op::F32x4ConvertI32x4S
    } else if name == "F32x4ConvertI32x4U"@ {
        Op::F32x4ConvertI32x4U
    } else if name == "I32x4TruncSatF32x4S"@ {
        Op::I32x4TruncSatF32x4S
    } else if name == "I32x4TruncSatF32x4U"@ {
        Op::I32x4TruncSatF32x4U
    } else if name == "F64x2ConvertLowI32x4S"@ {
        Op::F64x2ConvertLowI32x4S
    } else if name == "F64x2ConvertLowI32x4U"@ {
        Op::F64x2ConvertLowI32x4U
    } else if name == "I32x4TruncSatF64x2SZero"@ {
        Op::I32x4TruncSatF64x2SZero
    } else if name == "I32x4TruncSatF64x2UZero"@ {
        Op::I32x4TruncSatF64x2UZero
    } else if name == "I16x8ExtAddPairwiseI8x16S"@ {
        Op::I16x8ExtAddPairwiseI8x16S
    } else if name == "I16x8ExtAddPairwiseI8x16U"@ {
        Op::I16x8ExtAddPairwiseI8x16U
    } else if name == "I32x4ExtAddPairwiseI16x8S"@ {
        Op::I32x4ExtAddPairwiseI16x8S
    } else if name == "I32x4ExtAddPairwiseI16x8U"@ {
        Op::I32x4ExtAddPairwiseI16x8U
    } else if name == "I16x8ExtendHighI8x16S"@ {
        Op::I16x8ExtendHighI8x16S
    } else if name == "I16x8ExtendLowI8x16S"@ {
        Op::I16x8ExtendLowI8x16S
    } else if name == "I16x8ExtendHighI8x16U"@ {
        Op::I16x8ExtendHighI8x16U
    } else if name == "I16x8ExtendLowI8x16U"@ {
        Op::I16x8ExtendLowI8x16U
    } else if name == "I32x4ExtendHighI16x8S"@ {
        Op::I32x4ExtendHighI16x8S
    } else if name == "I32x4ExtendLowI16x8S"@ {
        Op::I32x4ExtendLowI16x8S
    } else if name == "I32x4ExtendHighI16x8U"@ {
        Op::I32x4ExtendHighI16x8U
    } else if name == "I32x4ExtendLowI16x8U"@ {
        Op::I32x4ExtendLowI16x8U
    } else if name == "I64x2ExtendHighI32x4S"@ {
        Op::I64x2ExtendHighI32x4S
    } else if name == "I64x2ExtendLowI32x4S"@ {
        Op::I64x2ExtendLowI32x4S
    } else if name == "I64x2ExtendHighI32x4U"@ {
        Op::I64x2ExtendHighI32x4U
    } else if name == "I64x2ExtendLowI32x4U"@ {
        Op::I64x2ExtendLowI32x4U
    } else if name == "F32x4DemoteF64x2Zero"@ {
        Op::F32x4DemoteF64x2Zero
    } else if name == "F64x2PromoteLowF32x4"@ {
        Op::F64x2PromoteLowF32x4
    } else if name == "I32x4RelaxedTruncF32x4S"@ {
        Op::I32x4RelaxedTruncF32x4S
    } else if name == "I32x4RelaxedTruncF32x4U"@ {
        Op::I32x4RelaxedTruncF32x4U
    } else if name == "I32x4RelaxedTruncF64x2SZero"@ {
        Op::I32x4RelaxedTruncF64x2SZero
    } else if name == "I32x4RelaxedTruncF64x2UZero"@ {
        Op::I32x4RelaxedTruncF64x2UZero
    } else if name == "I32Add"@ {
        Op::I32Add
    } else if name == "I32Sub"@ {
        Op::I32Sub
    } else if name == "I64Add"@ {
        Op::I64Add
    } else if name == "I64Sub"@ {
        Op::I64Sub
    } else if name == "F32Add"@ {
        Op::F32Add
    } else if name == "F32Sub"@ {
        Op::F32Sub
    } else if name == "F64Add"@ {
        Op::F64Add
    } else if name == "F64Sub"@ {
        Op::F64Sub
    } else if name == "I32Mul"@ {
        Op::I32Mul
    } else if name == "I64Mul"@ {
        Op::I64Mul
    } else if name == "F32Mul"@ {
        Op::F32Mul
    } else if name == "F64Mul"@ {
        Op::F64Mul
    } else if name == "I32DivS"@ {
        Op::I32DivS
    } else if name == "I32DivU"@ {
        Op::I32DivU
    } else if name == "I32RemS"@ {
        Op::I32RemS
    } else if name == "I32RemU"@ {
        Op::I32RemU
    } else if name == "I64DivS"@ {
        Op::I64DivS
    } else if name == "I64DivU"@ {
        Op::I64DivU
    } else if name == "I64RemS"@ {
        Op::I64RemS
    } else if name == "I64RemU"@ {
        Op::I64RemU
    } else if name == "F32Div"@ {
        Op::F32Div
    } else if name == "F64Div"@ {
        Op::F64Div
    } else if name == "I32And"@ {
        Op::I32And
    } else if name == "I32Or"@ {
        Op::I32Or
    } else if name == "I32Xor"@ {
        Op::I32Xor
    } else if name == "I32Shl"@ {
        Op::I32Shl
    } else if name == "I32ShrS"@ {
        Op::I32ShrS
    } else if name == "I32ShrU"@ {
        Op::I32ShrU
    } else if name == "I32Rotl"@ {
        Op::I32Rotl
    } else if name == "I32Rotr"@ {
        Op::I32Rotr
    } else if name == "I64And"@ {
        Op::I64And
    } else if name == "I64Or"@ {
        Op::I64Or
    } else if name == "I64Xor"@ {
        Op::I64Xor
    } else if name == "I64Shl"@ {
        Op::I64Shl
    } else if name == "I64ShrS"@ {
        Op::I64ShrS
    } else if name == "I64ShrU"@ {
        Op::I64ShrU
    } else if name == "I64Rotl"@ {
        Op::I64Rotl
    } else if name == "I64Rotr"@ {
        Op::I64Rotr
    } else if name == "F32Copysign"@ {
        Op::F32Copysign
    } else if name == "F64Copysign"@ {
        Op::F64Copysign
    } else if name == "F32Min"@ {
        Op::F32Min
    } else if name == "F32Max"@ {
        Op::F32Max
    } else if name == "F64Min"@ {
        Op::F64Min
    } else if name == "F64Max"@ {
        Op::F64Max
    } else if name == "I32Eq"@ {
        Op::I32Eq
    } else if name == "I32Ne"@ {
        Op::I32Ne
    } else if name == "I32LtS"@ {
        Op::I32LtS
    } else if name == "I32LtU"@ {
        Op::I32LtU
    } else if name == "I32LeS"@ {
        Op::I32LeS
    } else if name == "I32LeU"@ {
        Op::I32LeU
    } else if name == "I32GtS"@ {
        Op::I32GtS
    } else if name == "I32GtU"@ {
        Op::I32GtU
    } else if name == "I32GeS"@ {
        Op::I32GeS
    } else if name == "I32GeU"@ {
        Op::I32GeU
    } else if name == "I64Eq"@ {
        Op::I64Eq
    } else if name == "I64Ne"@ {
        Op::I64Ne
    } else if name == "I64LtS"@ {
        Op::I64LtS
    } else if name == "I64LtU"@ {
        Op::I64LtU
    } else if name == "I64LeS"@ {
        Op::I64LeS
    } else if name == "I64LeU"@ {
        Op::I64LeU
    } else if name == "I64GtS"@ {
        Op::I64GtS
    } else if name == "I64GtU"@ {
        Op::I64GtU
    } else if name == "I64GeS"@ {
        Op::I64GeS
    } else if name == "I64GeU"@ {
        Op::I64GeU
    } else if name == "F32Eq"@ {
        Op::F32Eq
    } else if name == "F32Ne"@ {
        Op::F32Ne
    } else if name == "F32Lt"@ {
        Op::F32Lt
    } else if name == "F32Le"@ {
        Op::F32Le
    } else if name == "F32Gt"@ {
        Op::F32Gt
    } else if name == "F32Ge"@ {
        Op::F32Ge
    } else if name == "F64Eq"@ {
        Op::F64Eq
    } else if name == "F64Ne"@ {
        Op::F64Ne
    } else if name == "F64Lt"@ {
        Op::F64Lt
    } else if name == "F64Le"@ {
        Op::F64Le
    } else if name == "F64Gt"@ {
        Op::F64Gt
    } else if name == "F64Ge"@ {
        Op::F64Ge
    } else if name == "Block"@ {
        Op::Block
    } else if name == "Loop"@ {
        Op::Loop
    } else if name == "If"@ {
        Op::If
    } else if name == "Else"@ {
        Op::Else
    } else if name == "End"@ {
        Op::End
    } else if name == "Br"@ {
        Op::Br
    } else if name == "BrIf"@ {
        Op::BrIf
    } else if name == "BrTable"@ {
        Op::BrTable
    } else if name == "Select"@ {
        Op::Select
    } else if name == "MemoryGrow"@ {
        Op::MemoryGrow
    } else if name == "MemorySize"@ {
        Op::MemorySize
    } else if name == "MemoryInit"@ {
        Op::MemoryInit
    } else if name == "MemoryCopy"@ {
        Op::MemoryCopy
    } else if name == "MemoryFill"@ {
        Op::MemoryFill
    } else if name == "Return"@ {
        Op::Return
    } else if name == "Unreachable"@ {
        Op::Unreachable
    } else if name == "Nop"@ {
        Op::Nop
    } else if name == "Drop"@ {
        Op::Drop
    } else if name == "Try"@ {
        Op::Try
    } else if name == "Call"@ {
        Op::Call
    } else if name == "CallIndirect"@ {
        Op::CallIndirect
    } else if name == "DataDrop"@ {
        Op::DataDrop
    } else if name == "Throw"@ {
        Op::Throw
    } else {
        Op::Other
    }
}

impl Op {
    /// The operator with the given name, `Other` for a name that the table does
    /// not list.
    pub fn from_name(name: &str) -> (op: Op)
        ensures
            op == named(name@),
    {
        if same_text(name, "LocalGet") {
            Op::LocalGet
        } else if same_text(name, "LocalSet") {
            Op::LocalSet
        } else if same_text(name, "LocalTee") {
            Op::LocalTee
        } else if same_text(name, "GlobalGet") {
            Op::GlobalGet
        } else if same_text(name, "GlobalSet") {
            Op::GlobalSet
        } else if same_text(name, "F32Load") {
            Op::F32Load
        } else if same_text(name, "F64Load") {
            Op::F64Load
        } else if same_text(name, "I32Load") {
            Op::I32Load
        } else if same_text(name, "I64Load") {
            Op::I64Load
        } else if same_text(name, "I32Load8S") {
            Op::I32Load8S
        } else if same_text(name, "I32Load8U") {
            Op::I32Load8U
        } else if same_text(name, "I32Load16S") {
            Op::I32Load16S
        } else if same_text(name, "I32Load16U") {
            Op::I32Load16U
        } else if same_text(name, "I64Load8S") {
            Op::I64Load8S
        } else if same_text(name, "I64Load8U") {
            Op::I64Load8U
        } else if same_text(name, "I64Load16S") {
            Op::I64Load16S
        } else if same_text(name, "I64Load16U") {
            Op::I64Load16U
        } else if same_text(name, "I64Load32S") {
            Op::I64Load32S
        } else if same_text(name, "I64Load32U") {
            Op::I64Load32U
        } else if same_text(name, "I32AtomicLoad") {
            Op::I32AtomicLoad
        } else if same_text(name, "I32AtomicLoad8U") {
            Op::I32AtomicLoad8U
        } else if same_text(name, "I32AtomicLoad16U") {
            Op::I32AtomicLoad16U
        } else if same_text(name, "I64AtomicLoad") {
            Op::I64AtomicLoad
        } else if same_text(name, "I64AtomicLoad8U") {
            Op::I64AtomicLoad8U
        } else if same_text(name, "I64AtomicLoad16U") {
            Op::I64AtomicLoad16U
        } else if same_text(name, "I64AtomicLoad32U") {
            Op::I64AtomicLoad32U
        } else if same_text(name, "F32Store") {
            Op::F32Store
        } else if same_text(name, "F64Store") {
            Op::F64Store
        } else if same_text(name, "I32Store") {
            Op::I32Store
        } else if same_text(name, "I64Store") {
            Op::I64Store
        } else if same_text(name, "I32Store8") {
            Op::I32Store8
        } else if same_text(name, "I32Store16") {
            Op::I32Store16
        } else if same_text(name, "I64Store8") {
            Op::I64Store8
        } else if same_text(name, "I64Store16") {
            Op::I64Store16
        } else if same_text(name, "I64Store32") {
            Op::I64Store32
        } else if same_text(name, "I32AtomicStore") {
            Op::I32AtomicStore
        } else if same_text(name, "I32AtomicStore8") {
            Op::I32AtomicStore8
        } else if same_text(name, "I32AtomicStore16") {
            Op::I32AtomicStore16
        } else if same_text(name, "I64AtomicStore") {
            Op::I64AtomicStore
        } else if same_text(name, "I64AtomicStore8") {
            Op::I64AtomicStore8
        } else if same_text(name, "I64AtomicStore16") {
            Op::I64AtomicStore16
        } else if same_text(name, "I64AtomicStore32") {
            Op::I64AtomicStore32
        } else if same_text(name, "F32Const") {
            Op::F32Const
        } else if same_text(name, "F64Const") {
            Op::F64Const
        } else if same_text(name, "I32Const") {
            Op::I32Const
        } else if same_text(name, "I64Const") {
            Op::I64Const
        } else if same_text(name, "F32ConvertI32S") {
            Op::F32ConvertI32S
        } else if same_text(name, "F32ConvertI32U") {
            Op::F32ConvertI32U
        } else if same_text(name, "F32ConvertI64S") {
            Op::F32ConvertI64S
        } else if same_text(name, "F32ConvertI64U") {
            Op::F32ConvertI64U
        } else if same_text(name, "F64ConvertI32S") {
            Op::F64ConvertI32S
        } else if same_text(name, "F64ConvertI32U") {
            Op::F64ConvertI32U
        } else if same_text(name, "F64ConvertI64S") {
            Op::F64ConvertI64S
        } else if same_text(name, "F64ConvertI64U") {
            Op::F64ConvertI64U
        } else if same_text(name, "I32ReinterpretF32") {
            Op::I32ReinterpretF32
        } else if same_text(name, "I64ReinterpretF64") {
            Op::I64ReinterpretF64
        } else if same_text(name, "F32ReinterpretI32") {
            Op::F32ReinterpretI32
        } else if same_text(name, "F64ReinterpretI64") {
            Op::F64ReinterpretI64
        } else if same_text(name, "I32WrapI64") {
            Op::I32WrapI64
        } else if same_text(name, "I32Extend8S") {
            Op::I32Extend8S
        } else if same_text(name, "I32Extend16S") {
            Op::I32Extend16S
        } else if same_text(name, "I64Extend8S") {
            Op::I64Extend8S
        } else if same_text(name, "I64Extend16S") {
            Op::I64Extend16S
        } else if same_text(name, "I64Extend32S") {
            Op::I64Extend32S
        } else if same_text(name, "I64ExtendI32U") {
            Op::I64ExtendI32U
        } else if same_text(name, "I64ExtendI32S") {
            Op::I64ExtendI32S
        } else if same_text(name, "F32Trunc") {
            Op::F32Trunc
        } else if same_text(name, "F64Trunc") {
            Op::F64Trunc
        } else if same_text(name, "I32TruncF32S") {
            Op::I32TruncF32S
        } else if same_text(name, "I32TruncF32U") {
            Op::I32TruncF32U
        } else if same_text(name, "I32TruncF64S") {
            Op::I32TruncF64S
        } else if same_text(name, "I32TruncF64U") {
            Op::I32TruncF64U
        } else if same_text(name, "I32TruncSatF32S") {
            Op::I32TruncSatF32S
        } else if same_text(name, "I32TruncSatF32U") {
            Op::I32TruncSatF32U
        } else if same_text(name, "I32TruncSatF64S") {
            Op::I32TruncSatF64S
        } else if same_text(name, "I32TruncSatF64U") {
            Op::I32TruncSatF64U
        } else if same_text(name, "I64TruncF32S") {
            Op::I64TruncF32S
        } else if same_text(name, "I64TruncF32U") {
            Op::I64TruncF32U
        } else if same_text(name, "I64TruncF64S") {
            Op::I64TruncF64S
        } else if same_text(name, "I64TruncF64U") {
            Op::I64TruncF64U
        } else if same_text(name, "I64TruncSatF32S") {
            Op::I64TruncSatF32S
        } else if same_text(name, "I64TruncSatF32U") {
            Op::I64TruncSatF32U
        } else if same_text(name, "I64TruncSatF64S") {
            Op::I64TruncSatF64S
        } else if same_text(name, "I64TruncSatF64U") {
            Op::I64TruncSatF64U
        } else if same_text(name, "F32DemoteF64") {
            Op::F32DemoteF64
        } else if same_text(name, "F64PromoteF32") {
            Op::F64PromoteF32
        } else if same_text(name, "I32Popcnt") {
            Op::I32Popcnt
        } else if same_text(name, "I64Popcnt") {
            Op::I64Popcnt
        } else if same_text(name, "I32Clz") {
            Op::I32Clz
        } else if same_text(name, "I32Ctz") {
            Op::I32Ctz
        } else if same_text(name, "I64Clz") {
            Op::I64Clz
        } else if same_text(name, "I64Ctz") {
            Op::I64Ctz
        } else if same_text(name, "F32Neg") {
            Op::F32Neg
        } else if same_text(name, "F64Neg") {
            Op::F64Neg
        } else if same_text(name, "F32Abs") {
            Op::F32Abs
        } else if same_text(name, "F64Abs") {
            Op::F64Abs
        } else if same_text(name, "F32Ceil") {
            Op::F32Ceil
        } else if same_text(name, "F64Ceil") {
            Op::F64Ceil
        } else if same_text(name, "F32Floor") {
            Op::F32Floor
        } else if same_text(name, "F64Floor") {
            Op::F64Floor
        } else if same_text(name, "F32Nearest") {
            Op::F32Nearest
        } else if same_text(name, "F64Nearest") {
            Op::F64Nearest
        } else if same_text(name, "I32Eqz") {
            Op::I32Eqz
        } else if same_text(name, "I64Eqz") {
            Op::I64Eqz
        } else if same_text(name, "F32Sqrt") {
            Op::F32Sqrt
        } else if same_text(name, "F64Sqrt") {
            Op::F64Sqrt
        } else if same_text(name, "F32x4Splat") {
            Op::F32x4Splat
        } else if same_text(name, "F64x2Splat") {
            Op::F64x2Splat
        } else if same_text(name, "I16x8Splat") {
            Op::I16x8Splat
        } else if same_text(name, "I32x4Splat") {
            Op::I32x4Splat
        } else if same_text(name, "I64x2Splat") {
            Op::I64x2Splat
        } else if same_text(name, "I8x16Splat") {
            Op::I8x16Splat
        } else if same_text(name, "V128Not") {
            Op::V128Not
        } else if same_text(name, "V128AnyTrue") {
            Op::V128AnyTrue
        } else if same_text(name, "F32x4Abs") {
            Op::F32x4Abs
        } else if same_text(name, "F32x4Neg") {
            Op::F32x4Neg
        } else if same_text(name, "F32x4Sqrt") {
            Op::F32x4Sqrt
        } else if same_text(name, "F32x4Ceil") {
            Op::F32x4Ceil
        } else if same_text(name, "F32x4Floor") {
            Op::F32x4Floor
        } else if same_text(name, "F32x4Trunc") {
            Op::F32x4Trunc
        } else if same_text(name, "F32x4Nearest") {
            Op::F32x4Nearest
        } else if same_text(name, "F64x2Abs") {
            Op::F64x2Abs
        } else if same_text(name, "F64x2Neg") {
            Op::F64x2Neg
        } else if same_text(name, "F64x2Sqrt") {
            Op::F64x2Sqrt
        } else if same_text(name, "F64x2Ceil") {
            Op::F64x2Ceil
        } else if same_text(name, "F64x2Floor") {
            Op::F64x2Floor
        } else if same_text(name, "F64x2Trunc") {
            Op::F64x2Trunc
        } else if same_text(name, "F64x2Nearest") {
            Op::F64x2Nearest
        } else if same_text(name, "I8x16Abs") {
            Op::I8x16Abs
        } else if same_text(name, "I8x16Neg") {
            Op::I8x16Neg
        } else if same_text(name, "I8x16AllTrue") {
            Op::I8x16AllTrue
        } else if same_text(name, "I8x16Bitmask") {
            Op::I8x16Bitmask
        } else if same_text(name, "I8x16Popcnt") {
            Op::I8x16Popcnt
        } else if same_text(name, "I16x8Abs") {
            Op::I16x8Abs
        } else if same_text(name, "I16x8Neg") {
            Op::I16x8Neg
        } else if same_text(name, "I16x8AllTrue") {
            Op::I16x8AllTrue
        } else if same_text(name, "I16x8Bitmask") {
            Op::I16x8Bitmask
        } else if same_text(name, "I32x4Abs") {
            Op::I32x4Abs
        } else if same_text(name, "I32x4Neg") {
            Op::I32x4Neg
        } else if same_text(name, "I32x4AllTrue") {
            Op::I32x4AllTrue
        } else if same_text(name, "I32x4Bitmask") {
            Op::I32x4Bitmask
        } else if same_text(name, "I64x2Abs") {
            Op::I64x2Abs
        } else if same_text(name, "I64x2Neg") {
            Op::I64x2Neg
        } else if same_text(name, "I64x2AllTrue") {
            Op::I64x2AllTrue
        } else if same_text(name, "I64x2Bitmask") {
            Op::I64x2Bitmask
        } else if same_text(name, "F32x4ConvertI32x4S") {
            Op::F32x4ConvertI32x4S
        } else if same_text(name, "F32x4ConvertI32x4U") {
            Op::F32x4ConvertI32x4U
        } else if same_text(name, "I32x4TruncSatF32x4S") {
            Op::I32x4TruncSatF32x4S
        } else if same_text(name, "I32x4TruncSatF32x4U") {
            Op::I32x4TruncSatF32x4U
        } else if same_text(name, "F64x2ConvertLowI32x4S") {
            Op::F64x2ConvertLowI32x4S
        } else if same_text(name, "F64x2ConvertLowI32x4U") {
            Op::F64x2ConvertLowI32x4U
        } else if same_text(name, "I32x4TruncSatF64x2SZero") {
            Op::I32x4TruncSatF64x2SZero
        } else if same_text(name, "I32x4TruncSatF64x2UZero") {
            Op::I32x4TruncSatF64x2UZero
        } else if same_text(name, "I16x8ExtAddPairwiseI8x16S") {
            Op::I16x8ExtAddPairwiseI8x16S
        } else if same_text(name, "I16x8ExtAddPairwiseI8x16U") {
            Op::I16x8ExtAddPairwiseI8x16U
        } else if same_text(name, "I32x4ExtAddPairwiseI16x8S") {
            Op::I32x4ExtAddPairwiseI16x8S
        } else if same_text(name, "I32x4ExtAddPairwiseI16x8U") {
            Op::I32x4ExtAddPairwiseI16x8U
        } else if same_text(name, "I16x8ExtendHighI8x16S") {
            Op::I16x8ExtendHighI8x16S
        } else if same_text(name, "I16x8ExtendLowI8x16S") {
            Op::I16x8ExtendLowI8x16S
        } else if same_text(name, "I16x8ExtendHighI8x16U") {
            Op::I16x8ExtendHighI8x16U
        } else if same_text(name, "I16x8ExtendLowI8x16U") {
            Op::I16x8ExtendLowI8x16U
        } else if same_text(name, "I32x4ExtendHighI16x8S") {
            Op::I32x4ExtendHighI16x8S
        } else if same_text(name, "I32x4ExtendLowI16x8S") {
            Op::I32x4ExtendLowI16x8S
        } else if same_text(name, "I32x4ExtendHighI16x8U") {
            Op::I32x4ExtendHighI16x8U
        } else if same_text(name, "I32x4ExtendLowI16x8U") {
            Op::I32x4ExtendLowI16x8U
        } else if same_text(name, "I64x2ExtendHighI32x4S") {
            Op::I64x2ExtendHighI32x4S
        } else if same_text(name, "I64x2ExtendLowI32x4S") {
            Op::I64x2ExtendLowI32x4S
        } else if same_text(name, "I64x2ExtendHighI32x4U") {
            Op::I64x2ExtendHighI32x4U
        } else if same_text(name, "I64x2ExtendLowI32x4U") {
            Op::I64x2ExtendLowI32x4U
        } else if same_text(name, "F32x4DemoteF64x2Zero") {
            Op::F32x4DemoteF64x2Zero
        } else if same_text(name, "F64x2PromoteLowF32x4") {
            Op::F64x2PromoteLowF32x4
        } else if same_text(name, "I32x4RelaxedTruncF32x4S") {
            Op::I32x4RelaxedTruncF32x4S
        } else if same_text(name, "I32x4RelaxedTruncF32x4U") {
            Op::I32x4RelaxedTruncF32x4U
        } else if same_text(name, "I32x4RelaxedTruncF64x2SZero") {
            Op::I32x4RelaxedTruncF64x2SZero
        } else if same_text(name, "I32x4RelaxedTruncF64x2UZero") {
            Op::I32x4RelaxedTruncF64x2UZero
        } else if same_text(name, "I32Add") {
            Op::I32Add
        } else if same_text(name, "I32Sub") {
            Op::I32Sub
        } else if same_text(name, "I64Add") {
            Op::I64Add
        } else if same_text(name, "I64Sub") {
            Op::I64Sub
        } else if same_text(name, "F32Add") {
            Op::F32Add
        } else if same_text(name, "F32Sub") {
            Op::F32Sub
        } else if same_text(name, "F64Add") {
            Op::F64Add
        } else if same_text(name, "F64Sub") {
            Op::F64Sub
        } else if same_text(name, "I32Mul") {
            Op::I32Mul
        } else if same_text(name, "I64Mul") {
            Op::I64Mul
        } else if same_text(name, "F32Mul") {
            Op::F32Mul
        } else if same_text(name, "F64Mul") {
            Op::F64Mul
        } else if same_text(name, "I32DivS") {
            Op::I32DivS
        } else if same_text(name, "I32DivU") {
            Op::I32DivU
        } else if same_text(name, "I32RemS") {
            Op::I32RemS
        } else if same_text(name, "I32RemU") {
            Op::I32RemU
        } else if same_text(name, "I64DivS") {
            Op::I64DivS
        } else if same_text(name, "I64DivU") {
            Op::I64DivU
        } else if same_text(name, "I64RemS") {
            Op::I64RemS
        } else if same_text(name, "I64RemU") {
            Op::I64RemU
        } else if same_text(name, "F32Div") {
            Op::F32Div
        } else if same_text(name, "F64Div") {
            Op::F64Div
        } else if same_text(name, "I32And") {
            Op::I32And
        } else if same_text(name, "I32Or") {
            Op::I32Or
        } else if same_text(name, "I32Xor") {
            Op::I32Xor
        } else if same_text(name, "I32Shl") {
            Op::I32Shl
        } else if same_text(name, "I32ShrS") {
            Op::I32ShrS
        } else if same_text(name, "I32ShrU") {
            Op::I32ShrU
        } else if same_text(name, "I32Rotl") {
            Op::I32Rotl
        } else if same_text(name, "I32Rotr") {
            Op::I32Rotr
        } else if same_text(name, "I64And") {
            Op::I64And
        } else if same_text(name, "I64Or") {
            Op::I64Or
        } else if same_text(name, "I64Xor") {
            Op::I64Xor
        } else if same_text(name, "I64Shl") {
            Op::I64Shl
        } else if same_text(name, "I64ShrS") {
            Op::I64ShrS
        } else if same_text(name, "I64ShrU") {
            Op::I64ShrU
        } else if same_text(name, "I64Rotl") {
            Op::I64Rotl
        } else if same_text(name, "I64Rotr") {
            Op::I64Rotr
        } else if same_text(name, "F32Copysign") {
            Op::F32Copysign
        } else if same_text(name, "F64Copysign") {
            Op::F64Copysign
        } else if same_text(name, "F32Min") {
            Op::F32Min
        } else if same_text(name, "F32Max") {
            Op::F32Max
        } else if same_text(name, "F64Min") {
            Op::F64Min
        } else if same_text(name, "F64Max") {
            Op::F64Max
        } else if same_text(name, "I32Eq") {
            Op::I32Eq
        } else if same_text(name, "I32Ne") {
            Op::I32Ne
        } else if same_text(name, "I32LtS") {
            Op::I32LtS
        } else if same_text(name, "I32LtU") {
            Op::I32LtU
        } else if same_text(name, "I32LeS") {
            Op::I32LeS
        } else if same_text(name, "I32LeU") {
            Op::I32LeU
        } else if same_text(name, "I32GtS") {
            Op::I32GtS
        } else if same_text(name, "I32GtU") {
            Op::I32GtU
        } else if same_text(name, "I32GeS") {
            Op::I32GeS
        } else if same_text(name, "I32GeU") {
            Op::I32GeU
        } else if same_text(name, "I64Eq") {
            Op::I64Eq
        } else if same_text(name, "I64Ne") {
            Op::I64Ne
        } else if same_text(name, "I64LtS") {
            Op::I64LtS
        } else if same_text(name, "I64LtU") {
            Op::I64LtU
        } else if same_text(name, "I64LeS") {
            Op::I64LeS
        } else if same_text(name, "I64LeU") {
            Op::I64LeU
        } else if same_text(name, "I64GtS") {
            Op::I64GtS
        } else if same_text(name, "I64GtU") {
            Op::I64GtU
        } else if same_text(name, "I64GeS") {
            Op::I64GeS
        } else if same_text(name, "I64GeU") {
            Op::I64GeU
        } else if same_text(name, "F32Eq") {
            Op::F32Eq
        } else if same_text(name, "F32Ne") {
            Op::F32Ne
        } else if same_text(name, "F32Lt") {
            Op::F32Lt
        } else if same_text(name, "F32Le") {
            Op::F32Le
        } else if same_text(name, "F32Gt") {
            Op::F32Gt
        } else if same_text(name, "F32Ge") {
            Op::F32Ge
        } else if same_text(name, "F64Eq") {
            Op::F64Eq
        } else if same_text(name, "F64Ne") {
            Op::F64Ne
        } else if same_text(name, "F64Lt") {
            Op::F64Lt
        } else if same_text(name, "F64Le") {
            Op::F64Le
        } else if same_text(name, "F64Gt") {
            Op::F64Gt
        } else if same_text(name, "F64Ge") {
            Op::F64Ge
        } else if same_text(name, "Block") {
            Op::Block
        } else if same_text(name, "Loop") {
            Op::Loop
        } else if same_text(name, "If") {
            Op::If
        } else if same_text(name, "Else") {
            Op::Else
        } else if same_text(name, "End") {
            Op::End
        } else if same_text(name, "Br") {
            Op::Br
        } else if same_text(name, "BrIf") {
            Op::BrIf
        } else if same_text(name, "BrTable") {
            Op::BrTable
        } else if same_text(name, "Select") {
            Op::Select
        } else if same_text(name, "MemoryGrow") {
            Op::MemoryGrow
        } else if same_text(name, "MemorySize") {
            Op::MemorySize
        } else if same_text(name, "MemoryInit") {
            Op::MemoryInit
        } else if same_text(name, "MemoryCopy") {
            Op::MemoryCopy
        } else if same_text(name, "MemoryFill") {
            Op::MemoryFill
        } else if same_text(name, "Return") {
            Op::Return
        } else if same_text(name, "Unreachable") {
            Op::Unreachable
        } else if same_text(name, "Nop") {
            Op::Nop
        } else if same_text(name, "Drop") {
            Op::Drop
        } else if same_text(name, "Try") {
            Op::Try
        } else if same_text(name, "Call") {
            Op::Call
        } else if same_text(name, "CallIndirect") {
            Op::CallIndirect
        } else if same_text(name, "DataDrop") {
            Op::DataDrop
        } else if same_text(name, "Throw") {
            Op::Throw
        } else {
            Op::Other
        }
    }
}

} // verus!
