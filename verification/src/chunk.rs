//! Bytecode: the instruction set and the container that holds a compiled
//! program.

use vstd::prelude::*;
use crate::value::{Value, ValueArray, ValueView};

verus! {

/// The instruction set. Every opcode occupies one byte of code and is
/// followed by as many operand bytes as [`OpCode::operand_width`] says.
#[derive(Debug, Clone, Copy, PartialEq, Eq, Structural)]
pub enum OpCode {
    OpConstant,
    OpNil,
    OpTrue,
    OpFalse,
    OpPop,
    OpGetLocal,
    OpSetLocal,
    OpGetGlobal,
    OpDefineGlobal,
    OpSetGlobal,
    OpEqual,
    OpGreater,
    OpLess,
    OpAdd,
    OpSubtract,
    OpMultiply,
    OpDivide,
    OpNot,
    OpNegate,
    OpPrint,
    OpJump,
    OpJumpIfFalse,
    OpLoop,
    OpReturn,
}

/// How many opcodes there are: the bytes below this number are the opcodes.
pub const OPCODE_COUNT: u8 = 24;

impl OpCode {
    /// The byte that encodes the opcode: its position in the instruction set.
    pub open spec fn byte(self) -> u8 {
        match self {
            OpCode::OpConstant => 0,
            OpCode::OpNil => 1,
            OpCode::OpTrue => 2,
            OpCode::OpFalse => 3,
            OpCode::OpPop => 4,
            OpCode::OpGetLocal => 5,
            OpCode::OpSetLocal => 6,
            OpCode::OpGetGlobal => 7,
            OpCode::OpDefineGlobal => 8,
            OpCode::OpSetGlobal => 9,
            OpCode::OpEqual => 10,
            OpCode::OpGreater => 11,
            OpCode::OpLess => 12,
            OpCode::OpAdd => 13,
            OpCode::OpSubtract => 14,
            OpCode::OpMultiply => 15,
            OpCode::OpDivide => 16,
            OpCode::OpNot => 17,
            OpCode::OpNegate => 18,
            OpCode::OpPrint => 19,
            OpCode::OpJump => 20,
            OpCode::OpJumpIfFalse => 21,
            OpCode::OpLoop => 22,
            OpCode::OpReturn => 23,
        }
    }

    /// The opcode that a byte encodes, if it encodes one: the inverse of
    /// [`OpCode::byte`].
    pub open spec fn decode(byte: u8) -> Option<OpCode> {
        if byte == 0 {
            Some(OpCode::OpConstant)
        } else if byte == 1 {
            Some(OpCode::OpNil)
        } else if byte == 2 {
            Some(OpCode::OpTrue)
        } else if byte == 3 {
            Some(OpCode::OpFalse)
        } else if byte == 4 {
            Some(OpCode::OpPop)
        } else if byte == 5 {
            Some(OpCode::OpGetLocal)
        } else if byte == 6 {
            Some(OpCode::OpSetLocal)
        } else if byte == 7 {
            Some(OpCode::OpGetGlobal)
        } else if byte == 8 {
            Some(OpCode::OpDefineGlobal)
        } else if byte == 9 {
            Some(OpCode::OpSetGlobal)
        } else if byte == 10 {
            Some(OpCode::OpEqual)
        } else if byte == 11 {
            Some(OpCode::OpGreater)
        } else if byte == 12 {
            Some(OpCode::OpLess)
        } else if byte == 13 {
            Some(OpCode::OpAdd)
        } else if byte == 14 {
            Some(OpCode::OpSubtract)
        } else if byte == 15 {
            Some(OpCode::OpMultiply)
        } else if byte == 16 {
            Some(OpCode::OpDivide)
        } else if byte == 17 {
            Some(OpCode::OpNot)
        } else if byte == 18 {
            Some(OpCode::OpNegate)
        } else if byte == 19 {
            Some(OpCode::OpPrint)
        } else if byte == 20 {
            Some(OpCode::OpJump)
        } else if byte == 21 {
            Some(OpCode::OpJumpIfFalse)
        } else if byte == 22 {
            Some(OpCode::OpLoop)
        } else if byte == 23 {
            Some(OpCode::OpReturn)
        } else {
            None
        }
    }

    /// The number of operand bytes that follow the opcode: one for a constant
    /// index or a stack slot, two for a jump offset, none otherwise.
    pub open spec fn operand_width(self) -> nat {
        match self {
            OpCode::OpConstant
            | OpCode::OpGetLocal
            | OpCode::OpSetLocal
            | OpCode::OpGetGlobal
            | OpCode::OpDefineGlobal
            | OpCode::OpSetGlobal => 1,
            OpCode::OpJump | OpCode::OpJumpIfFalse | OpCode::OpLoop => 2,
            _ => 0,
        }
    }

    /// Encodes the opcode as its byte.
    pub fn to_byte(self) -> (res: u8)
        ensures
            res == self.byte(),
            res < OPCODE_COUNT,
            OpCode::decode(res) == Some(self),
    {
        match self {
            OpCode::OpConstant => 0,
            OpCode::OpNil => 1,
            OpCode::OpTrue => 2,
            OpCode::OpFalse => 3,
            OpCode::OpPop => 4,
            OpCode::OpGetLocal => 5,
            OpCode::OpSetLocal => 6,
            OpCode::OpGetGlobal => 7,
            OpCode::OpDefineGlobal => 8,
            OpCode::OpSetGlobal => 9,
            OpCode::OpEqual => 10,
            OpCode::OpGreater => 11,
            OpCode::OpLess => 12,
            OpCode::OpAdd => 13,
            OpCode::OpSubtract => 14,
            OpCode::OpMultiply => 15,
            OpCode::OpDivide => 16,
            OpCode::OpNot => 17,
            OpCode::OpNegate => 18,
            OpCode::OpPrint => 19,
            OpCode::OpJump => 20,
            OpCode::OpJumpIfFalse => 21,
            OpCode::OpLoop => 22,
            OpCode::OpReturn => 23,
        }
    }

    /// Decodes a byte: `Some` exactly for the bytes below [`OPCODE_COUNT`],
    /// and then the one opcode with that byte.
    pub fn from_byte(byte: u8) -> (res: Option<OpCode>)
        ensures
            res == OpCode::decode(byte),
            res is Some <==> byte < OPCODE_COUNT,
            res matches Some(op) ==> op.byte() == byte,
    {
        let res = match byte {
            0 => Some(OpCode::OpConstant),
            1 => Some(OpCode::OpNil),
            2 => Some(OpCode::OpTrue),
            3 => Some(OpCode::OpFalse),
            4 => Some(OpCode::OpPop),
            5 => Some(OpCode::OpGetLocal),
            6 => Some(OpCode::OpSetLocal),
            7 => Some(OpCode::OpGetGlobal),
            8 => Some(OpCode::OpDefineGlobal),
            9 => Some(OpCode::OpSetGlobal),
            10 => Some(OpCode::OpEqual),
            11 => Some(OpCode::OpGreater),
            12 => Some(OpCode::OpLess),
            13 => Some(OpCode::OpAdd),
            14 => Some(OpCode::OpSubtract),
            15 => Some(OpCode::OpMultiply),
            16 => Some(OpCode::OpDivide),
            17 => Some(OpCode::OpNot),
            18 => Some(OpCode::OpNegate),
            19 => Some(OpCode::OpPrint),
            20 => Some(OpCode::OpJump),
            21 => Some(OpCode::OpJumpIfFalse),
            22 => Some(OpCode::OpLoop),
            23 => Some(OpCode::OpReturn),
            _ => None,
        };
        res
    }

    /// Computes [`OpCode::operand_width`].
    pub fn operand_count(self) -> (res: usize)
        ensures
            res == self.operand_width(),
            res <= 2,
    {
        match self {
            OpCode::OpConstant
            | OpCode::OpGetLocal
            | OpCode::OpSetLocal
            | OpCode::OpGetGlobal
            | OpCode::OpDefineGlobal
            | OpCode::OpSetGlobal => 1,
            OpCode::OpJump | OpCode::OpJumpIfFalse | OpCode::OpLoop => 2,
            _ => 0,
        }
    }
}

/// Opcodes and the bytes below [`OPCODE_COUNT`] correspond one to one:
/// encoding and decoding undo each other.
pub proof fn lemma_opcode_bytes()
    ensures
        forall|op: OpCode| #[trigger] op.byte() < OPCODE_COUNT,
        forall|op: OpCode| OpCode::decode(#[trigger] op.byte()) == Some(op),
        forall|byte: u8| (#[trigger] OpCode::decode(byte)) is Some <==> byte < OPCODE_COUNT,
        forall|byte: u8|
            byte < OPCODE_COUNT ==> (#[trigger] OpCode::decode(byte)).unwrap().byte() == byte,
        forall|a: OpCode, b: OpCode| #[trigger] a.byte() == #[trigger] b.byte() ==> a == b,
{
    assert forall|a: OpCode, b: OpCode| #[trigger] a.byte() == #[trigger] b.byte() implies a
        == b by {
        assert(OpCode::decode(a.byte()) == Some(a));
        assert(OpCode::decode(b.byte()) == Some(b));
    }
}

/// A compiled program: bytecode, the source line of each of its bytes, and
/// the constants that the code refers to by index.
#[derive(Debug)]
pub struct Chunk {
    pub code: Vec<u8>,
    pub lines: Vec<u32>,
    pub value_array: ValueArray,
}

/// What a [`Chunk`] denotes.
pub struct ChunkView {
    pub code: Seq<u8>,
    pub lines: Seq<u32>,
    pub constants: Seq<ValueView>,
}

/// The largest number of constants that one-byte operands can address.
pub const MAX_CONSTANTS: usize = 256;

impl ChunkView {
    /// The chunk with no code and no constants.
    pub open spec fn empty() -> ChunkView {
        ChunkView { code: Seq::empty(), lines: Seq::empty(), constants: Seq::empty() }
    }

    /// Every byte of code has its source line, and every constant has an
    /// index that fits in one operand byte.
    pub open spec fn wf(self) -> bool {
        &&& self.lines.len() == self.code.len()
        &&& self.constants.len() <= MAX_CONSTANTS
    }

    /// The chunk with one more byte of code, attributed to `line`.
    pub open spec fn write(self, byte: u8, line: u32) -> ChunkView {
        ChunkView { code: self.code.push(byte), lines: self.lines.push(line), ..self }
    }

    /// The chunk with one more constant.
    pub open spec fn add_constant(self, value: ValueView) -> ChunkView {
        ChunkView { constants: self.constants.push(value), ..self }
    }

    /// The source line recorded for the byte at `index`, if there is one.
    pub open spec fn line_at(self, index: int) -> Option<u32> {
        if 0 <= index < self.lines.len() {
            Some(self.lines[index])
        } else {
            None
        }
    }
}

impl View for Chunk {
    type V = ChunkView;

    open spec fn view(&self) -> ChunkView {
        ChunkView { code: self.code@, lines: self.lines@, constants: self.value_array@ }
    }
}

impl Chunk {
    /// An empty chunk.
    pub fn new() -> (res: Chunk)
        ensures
            res@ == ChunkView::empty(),
            res@.wf(),
    {
        Chunk { code: Vec::new(), lines: Vec::new(), value_array: ValueArray::new() }
    }

    /// Appends one byte of code and the source line it came from.
    pub fn write(&mut self, byte: u8, line: u32)
        ensures
            final(self)@ == old(self)@.write(byte, line),
    {
        self.code.push(byte);
        self.lines.push(line);
    }

    /// The number of bytes of code.
    pub fn len(&self) -> (res: usize)
        ensures
            res == self@.code.len(),
    {
        self.code.len()
    }

    /// Appends a constant and returns its index in the pool.
    pub fn add_constant(&mut self, value: Value) -> (res: usize)
        ensures
            final(self)@ == old(self)@.add_constant(value@),
            res == old(self)@.constants.len(),
    {
        let index = self.value_array.len();
        self.value_array.add(value);
        index
    }

    /// The source line recorded for the byte at `chunk_index`; `None` past the
    /// end of the line table.
    pub fn get_line(&self, chunk_index: usize) -> (res: Option<u32>)
        ensures
            res == self@.line_at(chunk_index as int),
    {
        if self.lines.len() <= chunk_index {
            None
        } else {
            Some(self.lines[chunk_index])
        }
    }

    /// The number of constants in the pool.
    pub fn constant_count(&self) -> (res: usize)
        ensures
            res == self@.constants.len(),
    {
        self.value_array.len()
    }
}

} // verus!
