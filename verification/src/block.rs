//! Basic blocks: the sequences of instructions that make up function bodies.

use crate::text::{push_char, spec_decimal};
use crate::value::{spec_value_str, Value};
use vstd::prelude::*;

verus! {

/// An instruction of a basic block.
#[derive(Copy, Clone, Debug, PartialEq, Eq, Structural)]
pub enum Instruction {
    /// Returns control flow to the calling function, with an optional value.
    Ret(Option<Value>),
}

/// How an instruction is written in LLVM IR.
pub open spec fn spec_instruction_str(i: Instruction) -> Seq<char> {
    match i {
        Instruction::Ret(value) => "ret "@ + (match value {
            Some(v) => spec_value_str(v),
            None => "void"@,
        }),
    }
}

impl Instruction {
    /// Writes the instruction as it appears in LLVM IR.
    pub fn ir_string(&self) -> (r: String)
        ensures
            r@ == spec_instruction_str(*self),
    {
        let mut r = "ret ".to_owned();
        match self {
            Instruction::Ret(Some(value)) => {
                let text = value.ir_string();
                r.append(text.as_str());
            },
            Instruction::Ret(None) => {
                r.append("void");
            },
        }
        assert(r@ =~= spec_instruction_str(*self));
        r
    }
}

/// A basic block contains the instructions that make up a function
/// definition. Once a terminator instruction is appended, the block is
/// complete and accepts no further instructions.
#[derive(Clone, Debug)]
pub struct BasicBlock {
    instructions: Vec<Instruction>,
    terminated: bool,
}

impl BasicBlock {
    /// The instructions of the block, in order.
    pub closed spec fn spec_instructions(&self) -> Seq<Instruction> {
        self.instructions@
    }

    /// Whether the block already ends with a terminator instruction.
    pub closed spec fn spec_terminated(&self) -> bool {
        self.terminated
    }

    /// Creates an empty basic block containing no instructions.
    pub fn new() -> (r: Self)
        ensures
            r.spec_instructions() == Seq::<Instruction>::empty(),
            !r.spec_terminated(),
    {
        let r = BasicBlock { instructions: Vec::new(), terminated: false };
        assert(r.spec_instructions() =~= Seq::<Instruction>::empty());
        r
    }

    /// Appends an instruction. The block must not already be terminated.
    fn append_instruction(&mut self, instruction: Instruction)
        requires
            !old(self).spec_terminated(),
        ensures
            final(self).spec_instructions() == old(self).spec_instructions().push(instruction),
            final(self).spec_terminated() == old(self).spec_terminated(),
    {
        self.instructions.push(instruction);
    }

    /// Appends a `ret` instruction, which returns control flow back to the
    /// calling function, and marks the block as terminated. The block must
    /// not already be terminated.
    pub fn ret(&mut self, value: Option<Value>)
        requires
            !old(self).spec_terminated(),
        ensures
            final(self).spec_instructions() == old(self).spec_instructions().push(
                Instruction::Ret(value),
            ),
            final(self).spec_terminated(),
    {
        self.append_instruction(Instruction::Ret(value));
        self.terminated = true;
    }

    /// The instructions of the block, in order.
    pub fn instructions(&self) -> (r: &Vec<Instruction>)
        ensures
            r@ == self.spec_instructions(),
    {
        &self.instructions
    }

    /// Whether the block already ends with a terminator instruction.
    pub fn is_terminated(&self) -> (r: bool)
        ensures
            r == self.spec_terminated(),
    {
        self.terminated
    }

    /// Removes and returns the instructions of the block, leaving it empty.
    pub fn take_instructions(&mut self) -> (r: Vec<Instruction>)
        ensures
            r@ == old(self).spec_instructions(),
            final(self).spec_instructions() == Seq::<Instruction>::empty(),
            final(self).spec_terminated() == old(self).spec_terminated(),
    {
        let mut taken: Vec<Instruction> = Vec::new();
        core::mem::swap(&mut taken, &mut self.instructions);
        assert(self.spec_instructions() =~= Seq::<Instruction>::empty());
        taken
    }
}

/// How the instructions of a block are written, from position `i` on: each
/// on its own indented line.
pub open spec fn spec_instruction_list_str(instrs: Seq<Instruction>, i: int) -> Seq<char>
    decreases instrs.len() - i,
{
    if !(0 <= i < instrs.len()) {
        Seq::empty()
    } else {
        "  "@ + spec_instruction_str(instrs[i]) + "\n"@ + spec_instruction_list_str(instrs, i + 1)
    }
}

/// How a basic block is written in LLVM IR under a given label number: the
/// label line, then each instruction on its own indented line.
pub closed spec fn spec_block_str(b: BasicBlock, label: nat) -> Seq<char> {
    seq!['B'] + spec_decimal(label) + ":\n"@ + spec_instruction_list_str(b.instructions@, 0)
}

impl BasicBlock {
    /// Writes the block as it appears in LLVM IR, labelled with the given
    /// number.
    pub fn ir_string(&self, label: u64) -> (r: String)
        ensures
            r@ == spec_block_str(*self, label as nat),
    {
        let mut r = String::new();
        push_char(&mut r, 'B');
        crate::text::append_decimal(&mut r, label);
        r.append(":\n");
        let n = self.instructions.len();
        let mut i: usize = 0;
        let ghost head = r@;
        while i < n
            invariant
                i <= n,
                n == self.instructions@.len(),
                head + spec_instruction_list_str(self.instructions@, 0) == r@
                    + spec_instruction_list_str(self.instructions@, i as int),
            decreases n - i,
        {
            let ghost prev = r@;
            r.append("  ");
            let text = self.instructions[i].ir_string();
            r.append(text.as_str());
            r.append("\n");
            proof {
                assert(r@ + spec_instruction_list_str(self.instructions@, i as int + 1) =~= prev
                    + spec_instruction_list_str(self.instructions@, i as int));
            }
            i = i + 1;
        }
        proof {
            assert(r@ + spec_instruction_list_str(self.instructions@, n as int) =~= r@);
            assert(head + spec_instruction_list_str(self.instructions@, 0) =~= spec_block_str(
                *self,
                label as nat,
            ));
        }
        r
    }
}

} // verus!
