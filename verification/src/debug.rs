//! Disassembly: bytecode decoded back into instructions, for listings.
//!
//! The functions here decode and leave the printing to the caller: a decoded
//! instruction says what a listing shows of it and where the next instruction
//! starts.

use vstd::prelude::*;
use crate::chunk::{Chunk, ChunkView, OpCode};

verus! {

/// What one instruction decodes to.
#[derive(Debug, Clone, Copy, PartialEq, Eq, Structural)]
pub enum Instruction {
    /// A byte that is no opcode.
    Unknown(u8),
    /// An instruction without operand.
    Simple(OpCode),
    /// An instruction with a stack slot for operand.
    Byte(OpCode, u8),
    /// An instruction with the index of a constant for operand.
    Constant(OpCode, u8),
    /// A jump and the offset in the code where it lands; `None` where that
    /// lies before the start of the code or is too large to represent.
    Jump(OpCode, Option<usize>),
    /// An instruction whose operand is cut off by the end of the code.
    Truncated(OpCode),
}

/// One line of a listing: an instruction, where it stands, the source line
/// that it was compiled from, and where the next instruction starts.
#[derive(Debug, Clone, Copy, PartialEq, Eq, Structural)]
pub struct Disassembled {
    pub offset: usize,
    pub line: u32,
    /// Whether the byte before this instruction comes from the same source
    /// line, so that a listing need not repeat the line number.
    pub same_line: bool,
    pub instruction: Instruction,
    pub next: usize,
}

/// The operand of a jump at `offset`: two bytes, most significant first.
pub open spec fn jump_operand(chunk: ChunkView, offset: int) -> int {
    (chunk.code[offset + 1] as int) * 256 + (chunk.code[offset + 2] as int)
}

/// Where a jump at `offset` lands: `sign` tells forward jumps, for which it
/// is positive, from backward ones.
pub open spec fn jump_target(chunk: ChunkView, offset: int, sign: i8) -> Option<usize> {
    let target = if sign > 0 {
        offset + 3 + jump_operand(chunk, offset)
    } else {
        offset + 3 - jump_operand(chunk, offset)
    };
    if 0 <= target <= usize::MAX {
        Some(target as usize)
    } else {
        None
    }
}

/// The instruction at `offset` and the offset of the next one.
pub open spec fn decode_at(chunk: ChunkView, offset: int) -> (Instruction, int) {
    match OpCode::decode(chunk.code[offset]) {
        None => (Instruction::Unknown(chunk.code[offset]), offset + 1),
        Some(op) => {
            if offset + 1 + op.operand_width() > chunk.code.len() {
                (Instruction::Truncated(op), chunk.code.len() as int)
            } else {
                match op {
                    OpCode::OpConstant
                    | OpCode::OpGetGlobal
                    | OpCode::OpDefineGlobal
                    | OpCode::OpSetGlobal => (
                        Instruction::Constant(op, chunk.code[offset + 1]),
                        offset + 2,
                    ),
                    OpCode::OpGetLocal | OpCode::OpSetLocal => (
                        Instruction::Byte(op, chunk.code[offset + 1]),
                        offset + 2,
                    ),
                    OpCode::OpJump | OpCode::OpJumpIfFalse => (
                        Instruction::Jump(op, jump_target(chunk, offset, 1i8)),
                        offset + 3,
                    ),
                    OpCode::OpLoop => (
                        Instruction::Jump(op, jump_target(chunk, offset, -1i8)),
                        offset + 3,
                    ),
                    _ => (Instruction::Simple(op), offset + 1),
                }
            }
        },
    }
}

/// The line of a listing for the instruction at `offset`.
pub open spec fn disassembled_at(chunk: ChunkView, offset: int) -> Disassembled {
    Disassembled {
        offset: offset as usize,
        line: chunk.lines[offset],
        same_line: offset > 0 && chunk.lines[offset] == chunk.lines[offset - 1],
        instruction: decode_at(chunk, offset).0,
        next: decode_at(chunk, offset).1 as usize,
    }
}

/// The listing of the code from `offset` to the end.
pub open spec fn listing(chunk: ChunkView, offset: int) -> Seq<Disassembled>
    decreases chunk.code.len() - offset,
{
    if 0 <= offset < chunk.code.len() && decode_at(chunk, offset).1 > offset {
        seq![disassembled_at(chunk, offset)] + listing(chunk, decode_at(chunk, offset).1)
    } else {
        Seq::empty()
    }
}

/// Decodes the instruction at `offset`.
pub fn disassemble_instruction(chunk: &Chunk, offset: usize) -> (res: Disassembled)
    requires
        chunk@.wf(),
        offset < chunk@.code.len(),
    ensures
        res == disassembled_at(chunk@, offset as int),
        offset < res.next <= chunk@.code.len(),
{
    let len = chunk.len();
    let inst_code: u8 = chunk.code[offset];
    let line = chunk.lines[offset];
    let same_line = offset > 0 && chunk.lines[offset] == chunk.lines[offset - 1];
    let (instruction, next) = match OpCode::from_byte(inst_code) {
        None => (Instruction::Unknown(inst_code), offset + 1),
        Some(code) => {
            if code.operand_count() > len - offset - 1 {
                (Instruction::Truncated(code), len)
            } else {
                match code {
                    OpCode::OpConstant
                    | OpCode::OpGetGlobal
                    | OpCode::OpDefineGlobal
                    | OpCode::OpSetGlobal => constant_instruction(code, chunk, offset),
                    OpCode::OpGetLocal | OpCode::OpSetLocal => byte_instruction(
                        code,
                        chunk,
                        offset,
                    ),
                    OpCode::OpJump | OpCode::OpJumpIfFalse => jump_instruction(
                        code,
                        1,
                        chunk,
                        offset,
                    ),
                    OpCode::OpLoop => jump_instruction(code, -1, chunk, offset),
                    _ => simple_instruction(code, offset),
                }
            }
        },
    };
    Disassembled { offset, line, same_line, instruction, next }
}

/// Decodes all the instructions of a chunk, in order.
pub fn disassemble_chunk(chunk: &Chunk) -> (res: Vec<Disassembled>)
    requires
        chunk@.wf(),
    ensures
        res@ == listing(chunk@, 0),
{
    let mut lines: Vec<Disassembled> = Vec::new();
    let mut offset: usize = 0;
    while offset < chunk.len()
        invariant
            chunk@.wf(),
            lines@ + listing(chunk@, offset as int) == listing(chunk@, 0),
        decreases chunk@.code.len() - offset,
    {
        let line = disassemble_instruction(chunk, offset);
        let ghost before = lines@;
        lines.push(line);
        assert(before + (seq![line] + listing(chunk@, line.next as int)) =~= lines@ + listing(
            chunk@,
            line.next as int,
        ));
        offset = line.next;
    }
    assert(lines@ + Seq::<Disassembled>::empty() =~= lines@);
    lines
}

/// An instruction without operand: one byte long.
pub fn simple_instruction(op: OpCode, offset: usize) -> (res: (Instruction, usize))
    requires
        offset < usize::MAX,
    ensures
        res == (Instruction::Simple(op), (offset + 1) as usize),
{
    (Instruction::Simple(op), offset + 1)
}

/// An instruction with a stack slot for operand: two bytes long.
pub fn byte_instruction(op: OpCode, chunk: &Chunk, offset: usize) -> (res: (Instruction, usize))
    requires
        offset + 2 <= chunk@.code.len(),
    ensures
        res == (Instruction::Byte(op, chunk@.code[offset + 1]), (offset + 2) as usize),
{
    assert(chunk.code.len() == chunk@.code.len());
    let slot = chunk.code[offset + 1];
    return (Instruction::Byte(op, slot), offset + 2);
}

/// A jump: three bytes long. `sign` is positive for a forward jump.
pub fn jump_instruction(op: OpCode, sign: i8, chunk: &Chunk, offset: usize) -> (res: (
    Instruction,
    usize,
))
    requires
        offset + 3 <= chunk@.code.len(),
    ensures
        res == (Instruction::Jump(op, jump_target(chunk@, offset as int, sign)), (offset
            + 3) as usize),
{
    assert(chunk.code.len() == chunk@.code.len());
    let high: u8 = chunk.code[offset + 1];
    let low: u8 = chunk.code[offset + 2];
    let jump: usize = (high as usize) * 256 + (low as usize);
    let target = if sign > 0 {
        if jump <= usize::MAX - (offset + 3) {
            Some(offset + 3 + jump)
        } else {
            None
        }
    } else {
        if jump <= offset + 3 {
            Some(offset + 3 - jump)
        } else {
            None
        }
    };
    return (Instruction::Jump(op, target), offset + 3);
}

/// An instruction with a constant index for operand: two bytes long.
pub fn constant_instruction(op: OpCode, chunk: &Chunk, offset: usize) -> (res: (
    Instruction,
    usize,
))
    requires
        offset + 2 <= chunk@.code.len(),
    ensures
        res == (Instruction::Constant(op, chunk@.code[offset + 1]), (offset + 2) as usize),
{
    assert(chunk.code.len() == chunk@.code.len());
    let constant = chunk.code[offset + 1];
    (Instruction::Constant(op, constant), offset + 2)
}

} // verus!
