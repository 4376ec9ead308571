//! The Hack CPU: A and D registers, the ALU and the program counter.
use vstd::prelude::*;
use crate::alu::{Alu, alu_computed};
use crate::pc::{Pc, pc_next};
use crate::register::{Register, register_next};

verus! {

/// The CPU's state.
#[derive(Debug)]
pub struct Cpu {
    pub a: Register,
    pub d: Register,
    pub alu: Alu,
    pub pc: Pc,
}

impl Default for Cpu {
    /// A CPU with both registers, the ALU and the program counter at zero.
    fn default() -> (r: Self)
        ensures
            r.a.value == 0,
            r.d.value == 0,
            r.pc.value == 0,
            r.alu.x == 0 && r.alu.y == 0 && r.alu.out == 0,
            !r.alu.zx && !r.alu.nx && !r.alu.zy && !r.alu.ny && !r.alu.f && !r.alu.no,
            !r.alu.zr && !r.alu.ng,
    {
        Cpu { a: Register::default(), d: Register::default(), alu: Alu::default(), pc: Pc::default() }
    }
}

/// The instruction bit that `mask` selects is set.
pub open spec fn bit(instruction: u16, mask: u16) -> bool {
    instruction & mask != 0
}

/// The instruction is a C-instruction (top bit set); otherwise it is an
/// A-instruction, a constant to load into A.
pub open spec fn is_c_instruction(instruction: u16) -> bool {
    bit(instruction, 0x8000)
}

/// The value of register A after the cycle: an A-instruction loads itself;
/// a C-instruction with the A destination bit loads the ALU output that the
/// ALU held at the start of the cycle.
pub open spec fn next_a(c: Cpu, instruction: u16) -> u16 {
    let is_c = is_c_instruction(instruction);
    let a_input = if is_c {
        c.alu.out
    } else {
        instruction
    };
    register_next(c.a.value, a_input, !is_c || (is_c && bit(instruction, 0x0020)))
}

/// The ALU as the cycle sets it up: x is D, y is M (`in_m`) or the new A by
/// the `a` bit, and the six control bits come from instruction bits 11..6;
/// then it computes.
pub open spec fn cycle_alu(c: Cpu, instruction: u16, in_m: u16) -> Alu {
    alu_computed(
        Alu {
            x: c.d.value,
            y: if bit(instruction, 0x1000) {
                in_m
            } else {
                next_a(c, instruction)
            },
            zx: bit(instruction, 0x0800),
            nx: bit(instruction, 0x0400),
            zy: bit(instruction, 0x0200),
            ny: bit(instruction, 0x0100),
            f: bit(instruction, 0x0080),
            no: bit(instruction, 0x0040),
            ..c.alu
        },
    )
}

/// The jump condition: a C-instruction whose jump bits select the sign of
/// the ALU output (negative, zero, positive).
pub open spec fn jumps(instruction: u16, alu: Alu) -> bool {
    let neg = alu.ng;
    let zer = alu.zr;
    let pos = !neg && !zer;
    is_c_instruction(instruction) && ((bit(instruction, 0x0004) && neg) || (bit(instruction, 0x0002)
        && zer) || (bit(instruction, 0x0001) && pos))
}

/// The CPU after one cycle.
pub open spec fn cpu_next(c: Cpu, instruction: u16, in_m: u16) -> Cpu {
    let is_c = is_c_instruction(instruction);
    let a = next_a(c, instruction);
    let alu = cycle_alu(c, instruction, in_m);
    let d = register_next(c.d.value, alu.out, is_c && bit(instruction, 0x0010));
    let pc = pc_next(c.pc.value, a, true, jumps(instruction, alu), false);
    Cpu { a: Register { value: a }, d: Register { value: d }, alu, pc: Pc { value: pc } }
}

/// The outputs of one cycle: the ALU output, whether memory is written (a
/// C-instruction with the M destination bit), the address (A) and the
/// program counter.
pub open spec fn cpu_outputs(c: Cpu, instruction: u16, in_m: u16) -> (u16, bool, u16, u16) {
    let n = cpu_next(c, instruction, in_m);
    (n.alu.out, is_c_instruction(instruction) && bit(instruction, 0x0008), n.a.value, n.pc.value)
}

impl Cpu {
    /// One clock cycle on `instruction` (from ROM) and `in_m` (RAM[A]).
    /// Returns (out_m, write_m, address_m, pc).
    pub fn tick(&mut self, instruction: u16, in_m: u16) -> (r: (u16, bool, u16, u16))
        ensures
            *final(self) == cpu_next(*old(self), instruction, in_m),
            r == cpu_outputs(*old(self), instruction, in_m),
    {
        let is_c = (instruction & 0x8000) != 0;
        let a_bit = (instruction & 0x1000) != 0;
        let c1 = (instruction & 0x0800) != 0;
        let c2 = (instruction & 0x0400) != 0;
        let c3 = (instruction & 0x0200) != 0;
        let c4 = (instruction & 0x0100) != 0;
        let c5 = (instruction & 0x0080) != 0;
        let c6 = (instruction & 0x0040) != 0;
        let d1 = (instruction & 0x0020) != 0;
        let d2 = (instruction & 0x0010) != 0;
        let d3 = (instruction & 0x0008) != 0;
        let j1 = (instruction & 0x0004) != 0;
        let j2 = (instruction & 0x0002) != 0;
        let j3 = (instruction & 0x0001) != 0;

        let a_input = if is_c {
            self.alu.out
        } else {
            instruction
        };
        let load_a = !is_c || (is_c && d1);
        self.a.tick(a_input, load_a);

        self.alu.x = self.d.value;
        self.alu.y = if a_bit {
            in_m
        } else {
            self.a.value
        };
        self.alu.zx = c1;
        self.alu.nx = c2;
        self.alu.zy = c3;
        self.alu.ny = c4;
        self.alu.f = c5;
        self.alu.no = c6;
        self.alu.compute();

        self.d.tick(self.alu.out, is_c && d2);

        let neg = self.alu.ng;
        let zer = self.alu.zr;
        let pos = !neg && !zer;
        let jump = is_c && ((j1 && neg) || (j2 && zer) || (j3 && pos));

        let pc_out = self.pc.tick(self.a.value, true, jump, false);

        let out_m = self.alu.out;
        let write_m = is_c && d3;
        let address_m = self.a.value;
        (out_m, write_m, address_m, pc_out)
    }
}

/// An A-instruction loads A with itself, writes no memory, leaves D alone,
/// and sets the program counter to it.
pub proof fn lemma_a_instruction(c: Cpu, instruction: u16, in_m: u16)
    requires
        !is_c_instruction(instruction),
    ensures
        cpu_next(c, instruction, in_m).a.value == instruction,
        cpu_next(c, instruction, in_m).d.value == c.d.value,
        !cpu_outputs(c, instruction, in_m).1,
        cpu_outputs(c, instruction, in_m).2 == instruction,
        cpu_outputs(c, instruction, in_m).3 == instruction,
{
}

/// Memory is written exactly for a C-instruction with the M destination bit,
/// and the word written is the ALU output of the cycle.
pub proof fn lemma_write_m(c: Cpu, instruction: u16, in_m: u16)
    ensures
        cpu_outputs(c, instruction, in_m).1 == (is_c_instruction(instruction) && bit(
            instruction,
            0x0008,
        )),
        cpu_outputs(c, instruction, in_m).0 == cycle_alu(c, instruction, in_m).out,
{
}

/// The program counter follows A: after every cycle it holds the value of A
/// as the cycle left it, which is also the address output; for a
/// C-instruction, A is the ALU output held at the start of the cycle when
/// the A destination bit is set, and unchanged otherwise.
pub proof fn lemma_pc_follows_a(c: Cpu, instruction: u16, in_m: u16)
    ensures
        cpu_outputs(c, instruction, in_m).3 == cpu_outputs(c, instruction, in_m).2,
        cpu_next(c, instruction, in_m).pc.value == cpu_next(c, instruction, in_m).a.value,
        cpu_outputs(c, instruction, in_m).2 == cpu_next(c, instruction, in_m).a.value,
        is_c_instruction(instruction) && bit(instruction, 0x0020) ==> cpu_next(
            c,
            instruction,
            in_m,
        ).a.value == c.alu.out,
        is_c_instruction(instruction) && !bit(instruction, 0x0020) ==> cpu_next(
            c,
            instruction,
            in_m,
        ).a.value == c.a.value,
{
}

/// D changes only on a C-instruction with the D destination bit, and then
/// takes the ALU output of the cycle; the ALU's x input is D as it was.
pub proof fn lemma_d_register(c: Cpu, instruction: u16, in_m: u16)
    ensures
        is_c_instruction(instruction) && bit(instruction, 0x0010) ==> cpu_next(
            c,
            instruction,
            in_m,
        ).d.value == cpu_outputs(c, instruction, in_m).0,
        !(is_c_instruction(instruction) && bit(instruction, 0x0010)) ==> cpu_next(
            c,
            instruction,
            in_m,
        ).d.value == c.d.value,
        cpu_next(c, instruction, in_m).alu.x == c.d.value,
{
}

} // verus!
