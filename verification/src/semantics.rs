//! What Hack instructions mean, and the proof that the words the assembler
//! writes make the CPU do what their mnemonics say.
use vstd::prelude::*;
use crate::alu::alu_output;
use crate::assembler::{c_fields, c_instruction_ok, c_word, comp_bits, dest_bits, jump_bits};
use crate::cpu::{bit, cpu_next, cpu_outputs, cycle_alu, is_c_instruction, jumps, next_a, Cpu};

verus! {

/// The value a computation mnemonic denotes, with `d` standing for D and
/// `y` for A (or for M in the forms that name M); arithmetic is modulo 2^16.
pub open spec fn comp_value(comp: Seq<char>, d: u16, y: u16) -> u16 {
    if comp == "0"@ {
        0
    } else if comp == "1"@ {
        1
    } else if comp == "-1"@ {
        0xffff
    } else if comp == "D"@ {
        d
    } else if comp == "A"@ {
        y
    } else if comp == "!D"@ {
        !d
    } else if comp == "!A"@ {
        !y
    } else if comp == "-D"@ {
        ((0x10000 - d) % 0x10000) as u16
    } else if comp == "-A"@ {
        ((0x10000 - y) % 0x10000) as u16
    } else if comp == "D+1"@ {
        ((d + 1) % 0x10000) as u16
    } else if comp == "A+1"@ {
        ((y + 1) % 0x10000) as u16
    } else if comp == "D-1"@ {
        ((d + 0xffff) % 0x10000) as u16
    } else if comp == "A-1"@ {
        ((y + 0xffff) % 0x10000) as u16
    } else if comp == "D+A"@ {
        ((d + y) % 0x10000) as u16
    } else if comp == "D-A"@ {
        ((d + 0x10000 - y) % 0x10000) as u16
    } else if comp == "A-D"@ {
        ((y + 0x10000 - d) % 0x10000) as u16
    } else if comp == "D&A"@ {
        d & y
    } else if comp == "D|A"@ {
        d | y
    } else if comp == "M"@ {
        y
    } else if comp == "!M"@ {
        !y
    } else if comp == "-M"@ {
        ((0x10000 - y) % 0x10000) as u16
    } else if comp == "M+1"@ {
        ((y + 1) % 0x10000) as u16
    } else if comp == "M-1"@ {
        ((y + 0xffff) % 0x10000) as u16
    } else if comp == "D+M"@ {
        ((d + y) % 0x10000) as u16
    } else if comp == "D-M"@ {
        ((d + 0x10000 - y) % 0x10000) as u16
    } else if comp == "M-D"@ {
        ((y + 0x10000 - d) % 0x10000) as u16
    } else if comp == "D&M"@ {
        d & y
    } else {
        d | y
    }
}

/// The computation mnemonic names M, so the ALU's y input is M.
pub open spec fn reads_m(comp: Seq<char>) -> bool {
    comp.contains('M')
}

/// The destination mnemonic stores into M.
pub open spec fn stores_m(dest: Seq<char>) -> bool {
    dest.contains('M')
}

/// The destination mnemonic stores into D.
pub open spec fn stores_d(dest: Seq<char>) -> bool {
    dest.contains('D')
}

/// The destination mnemonic stores into A.
pub open spec fn stores_a(dest: Seq<char>) -> bool {
    dest.contains('A')
}

/// Whether a jump mnemonic jumps on the computed value `out`, read as a
/// signed 16-bit number (the empty mnemonic never jumps).
pub open spec fn jump_taken(jump: Seq<char>, out: u16) -> bool {
    let neg = out >= 0x8000;
    let zero = out == 0;
    if jump == ""@ {
        false
    } else if jump == "JGT"@ {
        !neg && !zero
    } else if jump == "JEQ"@ {
        zero
    } else if jump == "JGE"@ {
        !neg
    } else if jump == "JLT"@ {
        neg
    } else if jump == "JNE"@ {
        !zero
    } else if jump == "JLE"@ {
        neg || zero
    } else {
        true
    }
}

proof fn lemma_low_bits(b: u16)
    by (bit_vector)
    requires
        b < 128,
    ensures
        (b & 64 != 0) == (b >= 64),
        (b & 32 != 0) == (b % 64 >= 32),
        (b & 16 != 0) == (b % 32 >= 16),
        (b & 8 != 0) == (b % 16 >= 8),
        (b & 4 != 0) == (b % 8 >= 4),
        (b & 2 != 0) == (b % 4 >= 2),
        (b & 1 != 0) == (b % 2 == 1),
{
}

proof fn lemma_word_bits(b: u16, dd: u16, j: u16)
    by (bit_vector)
    requires
        b < 128,
        dd < 8,
        j < 8,
    ensures
        (0xe000u16 | (b << 6u16) | (dd << 3u16) | j) & 0x8000 != 0,
        ((0xe000u16 | (b << 6u16) | (dd << 3u16) | j) & 0x1000 != 0) == (b & 64 != 0),
        ((0xe000u16 | (b << 6u16) | (dd << 3u16) | j) & 0x0800 != 0) == (b & 32 != 0),
        ((0xe000u16 | (b << 6u16) | (dd << 3u16) | j) & 0x0400 != 0) == (b & 16 != 0),
        ((0xe000u16 | (b << 6u16) | (dd << 3u16) | j) & 0x0200 != 0) == (b & 8 != 0),
        ((0xe000u16 | (b << 6u16) | (dd << 3u16) | j) & 0x0100 != 0) == (b & 4 != 0),
        ((0xe000u16 | (b << 6u16) | (dd << 3u16) | j) & 0x0080 != 0) == (b & 2 != 0),
        ((0xe000u16 | (b << 6u16) | (dd << 3u16) | j) & 0x0040 != 0) == (b & 1 != 0),
        ((0xe000u16 | (b << 6u16) | (dd << 3u16) | j) & 0x0020 != 0) == (dd & 4 != 0),
        ((0xe000u16 | (b << 6u16) | (dd << 3u16) | j) & 0x0010 != 0) == (dd & 2 != 0),
        ((0xe000u16 | (b << 6u16) | (dd << 3u16) | j) & 0x0008 != 0) == (dd & 1 != 0),
        ((0xe000u16 | (b << 6u16) | (dd << 3u16) | j) & 0x0004 != 0) == (j & 4 != 0),
        ((0xe000u16 | (b << 6u16) | (dd << 3u16) | j) & 0x0002 != 0) == (j & 2 != 0),
        ((0xe000u16 | (b << 6u16) | (dd << 3u16) | j) & 0x0001 != 0) == (j & 1 != 0),
{
}

/// The ALU, driven by the control bits that the assembler writes for a
/// computation mnemonic, computes the mnemonic's value; the `a` bit is set
/// exactly for the forms that name M.
pub proof fn lemma_alu_computes_mnemonic(comp: Seq<char>, d: u16, y: u16)
    requires
        comp_bits(comp) is Some,
    ensures
        ({
            let b = comp_bits(comp).unwrap();
            alu_output(
                d,
                y,
                b & 32 != 0,
                b & 16 != 0,
                b & 8 != 0,
                b & 4 != 0,
                b & 2 != 0,
                b & 1 != 0,
            ) == comp_value(comp, d, y)
        }),
        (comp_bits(comp).unwrap() & 64 != 0) == reads_m(comp),
{
    let b = comp_bits(comp).unwrap();
    lemma_low_bits(b);
    if comp == "0"@ {
        reveal_strlit("0");
        assert(b == 0b0_101010);
        assert(alu_output(d, y, true, false, true, false, true, false) == 0) by (bit_vector);
    } else if comp == "1"@ {
        reveal_strlit("1");
        assert(b == 0b0_111111);
        assert(alu_output(d, y, true, true, true, true, true, true) == 1) by (bit_vector);
    } else if comp == "-1"@ {
        reveal_strlit("-1");
        assert(b == 0b0_111010);
        assert(alu_output(d, y, true, true, true, false, true, false) == 0xffff) by (bit_vector);
    } else if comp == "D"@ {
        reveal_strlit("D");
        assert(b == 0b0_001100);
        assert(alu_output(d, y, false, false, true, true, false, false) == d) by (bit_vector);
    } else if comp == "A"@ {
        reveal_strlit("A");
        assert(b == 0b0_110000);
        assert(alu_output(d, y, true, true, false, false, false, false) == y) by (bit_vector);
    } else if comp == "!D"@ {
        reveal_strlit("!D");
        assert(b == 0b0_001101);
        assert(alu_output(d, y, false, false, true, true, false, true) == !d) by (bit_vector);
    } else if comp == "!A"@ {
        reveal_strlit("!A");
        assert(b == 0b0_110001);
        assert(alu_output(d, y, true, true, false, false, false, true) == !y) by (bit_vector);
    } else if comp == "-D"@ {
        reveal_strlit("-D");
        assert(b == 0b0_001111);
        assert(alu_output(d, y, false, false, true, true, true, true) == ((0x10000 - d) % 0x10000) as u16) by (bit_vector);
    } else if comp == "-A"@ {
        reveal_strlit("-A");
        assert(b == 0b0_110011);
        assert(alu_output(d, y, true, true, false, false, true, true) == ((0x10000 - y) % 0x10000) as u16) by (bit_vector);
    } else if comp == "D+1"@ {
        reveal_strlit("D+1");
        assert(b == 0b0_011111);
        assert(alu_output(d, y, false, true, true, true, true, true) == ((d + 1) % 0x10000) as u16) by (bit_vector);
    } else if comp == "A+1"@ {
        reveal_strlit("A+1");
        assert(b == 0b0_110111);
        assert(alu_output(d, y, true, true, false, true, true, true) == ((y + 1) % 0x10000) as u16) by (bit_vector);
    } else if comp == "D-1"@ {
        reveal_strlit("D-1");
        assert(b == 0b0_001110);
        assert(alu_output(d, y, false, false, true, true, true, false) == ((d + 0xffff) % 0x10000) as u16) by (bit_vector);
    } else if comp == "A-1"@ {
        reveal_strlit("A-1");
        assert(b == 0b0_110010);
        assert(alu_output(d, y, true, true, false, false, true, false) == ((y + 0xffff) % 0x10000) as u16) by (bit_vector);
    } else if comp == "D+A"@ {
        reveal_strlit("D+A");
        assert(b == 0b0_000010);
        assert(alu_output(d, y, false, false, false, false, true, false) == ((d + y) % 0x10000) as u16) by (bit_vector);
    } else if comp == "D-A"@ {
        reveal_strlit("D-A");
        assert(b == 0b0_010011);
        assert(alu_output(d, y, false, true, false, false, true, true) == ((d + 0x10000 - y) % 0x10000) as u16) by (bit_vector);
    } else if comp == "A-D"@ {
        reveal_strlit("A-D");
        assert(b == 0b0_000111);
        assert(alu_output(d, y, false, false, false, true, true, true) == ((y + 0x10000 - d) % 0x10000) as u16) by (bit_vector);
    } else if comp == "D&A"@ {
        reveal_strlit("D&A");
        assert(b == 0b0_000000);
        assert(alu_output(d, y, false, false, false, false, false, false) == d & y) by (bit_vector);
    } else if comp == "D|A"@ {
        reveal_strlit("D|A");
        assert(b == 0b0_010101);
        assert(alu_output(d, y, false, true, false, true, false, true) == d | y) by (bit_vector);
    } else if comp == "M"@ {
        reveal_strlit("M");
        assert(comp[0] == 'M');
        assert(b == 0b1_110000);
        assert(alu_output(d, y, true, true, false, false, false, false) == y) by (bit_vector);
    } else if comp == "!M"@ {
        reveal_strlit("!M");
        assert(comp[1] == 'M');
        assert(b == 0b1_110001);
        assert(alu_output(d, y, true, true, false, false, false, true) == !y) by (bit_vector);
    } else if comp == "-M"@ {
        reveal_strlit("-M");
        assert(comp[1] == 'M');
        assert(b == 0b1_110011);
        assert(alu_output(d, y, true, true, false, false, true, true) == ((0x10000 - y) % 0x10000) as u16) by (bit_vector);
    } else if comp == "M+1"@ {
        reveal_strlit("M+1");
        assert(comp[0] == 'M');
        assert(b == 0b1_110111);
        assert(alu_output(d, y, true, true, false, true, true, true) == ((y + 1) % 0x10000) as u16) by (bit_vector);
    } else if comp == "M-1"@ {
        reveal_strlit("M-1");
        assert(comp[0] == 'M');
        assert(b == 0b1_110010);
        assert(alu_output(d, y, true, true, false, false, true, false) == ((y + 0xffff) % 0x10000) as u16) by (bit_vector);
    } else if comp == "D+M"@ {
        reveal_strlit("D+M");
        assert(comp[2] == 'M');
        assert(b == 0b1_000010);
        assert(alu_output(d, y, false, false, false, false, true, false) == ((d + y) % 0x10000) as u16) by (bit_vector);
    } else if comp == "D-M"@ {
        reveal_strlit("D-M");
        assert(comp[2] == 'M');
        assert(b == 0b1_010011);
        assert(alu_output(d, y, false, true, false, false, true, true) == ((d + 0x10000 - y) % 0x10000) as u16) by (bit_vector);
    } else if comp == "M-D"@ {
        reveal_strlit("M-D");
        assert(comp[0] == 'M');
        assert(b == 0b1_000111);
        assert(alu_output(d, y, false, false, false, true, true, true) == ((y + 0x10000 - d) % 0x10000) as u16) by (bit_vector);
    } else if comp == "D&M"@ {
        reveal_strlit("D&M");
        assert(comp[2] == 'M');
        assert(b == 0b1_000000);
        assert(alu_output(d, y, false, false, false, false, false, false) == d & y) by (bit_vector);
    } else if comp == "D|M"@ {
        reveal_strlit("D|M");
        assert(comp[2] == 'M');
        assert(b == 0b1_010101);
        assert(alu_output(d, y, false, true, false, true, false, true) == d | y) by (bit_vector);
    }
}

/// The destination bits name the registers that the destination mnemonic
/// names: bit 1 for M, bit 2 for D, bit 4 for A.
pub proof fn lemma_destination_bits(dest: Seq<char>)
    requires
        dest_bits(dest) is Some,
    ensures
        (dest_bits(dest).unwrap() & 1 != 0) == stores_m(dest),
        (dest_bits(dest).unwrap() & 2 != 0) == stores_d(dest),
        (dest_bits(dest).unwrap() & 4 != 0) == stores_a(dest),
{
    let dd = dest_bits(dest).unwrap();
    assert(dd < 8);
    lemma_low_bits(dd);
    if dest == ""@ {
        reveal_strlit("");
        assert(dd == 0);
    } else if dest == "M"@ {
        reveal_strlit("M");
        assert(dest[0] == 'M');
        assert(dd == 1);
    } else if dest == "D"@ {
        reveal_strlit("D");
        assert(dest[0] == 'D');
        assert(dd == 2);
    } else if dest == "MD"@ {
        reveal_strlit("MD");
        assert(dest[0] == 'M');
        assert(dest[1] == 'D');
        assert(dd == 3);
    } else if dest == "A"@ {
        reveal_strlit("A");
        assert(dest[0] == 'A');
        assert(dd == 4);
    } else if dest == "AM"@ {
        reveal_strlit("AM");
        assert(dest[1] == 'M');
        assert(dest[0] == 'A');
        assert(dd == 5);
    } else if dest == "AD"@ {
        reveal_strlit("AD");
        assert(dest[1] == 'D');
        assert(dest[0] == 'A');
        assert(dd == 6);
    } else if dest == "AMD"@ {
        reveal_strlit("AMD");
        assert(dest[1] == 'M');
        assert(dest[2] == 'D');
        assert(dest[0] == 'A');
        assert(dd == 7);
    }
}

/// The jump bits select the sign cases of the computed value that the jump
/// mnemonic names: bit 4 negative, bit 2 zero, bit 1 positive.
pub proof fn lemma_jump_bits(jump: Seq<char>, out: u16)
    requires
        jump_bits(jump) is Some,
    ensures
        ({
            let j = jump_bits(jump).unwrap();
            let neg = out >= 0x8000;
            let zero = out == 0;
            ((j & 4 != 0 && neg) || (j & 2 != 0 && zero) || (j & 1 != 0 && !neg && !zero))
                == jump_taken(jump, out)
        }),
{
    let j = jump_bits(jump).unwrap();
    assert(j < 8);
    lemma_low_bits(j);
}

/// An assembled C-instruction does what its mnemonics say: the ALU
/// computes the computation mnemonic from D and A (or M), the value goes to
/// the destinations the destination mnemonic names (A takes the ALU output
/// held before the cycle), and the jump condition is the jump mnemonic's.
pub proof fn lemma_c_instruction_executes(line: Seq<char>, c: Cpu, in_m: u16)
    requires
        c_instruction_ok(line),
    ensures
        ({
            let w = c_word(line);
            let (dest, comp, jump) = c_fields(line);
            let alu = cycle_alu(c, w, in_m);
            &&& is_c_instruction(w)
            &&& alu.out == comp_value(
                comp,
                c.d.value,
                if reads_m(comp) {
                    in_m
                } else {
                    next_a(c, w)
                },
            )
            &&& next_a(c, w) == if stores_a(dest) {
                c.alu.out
            } else {
                c.a.value
            }
            &&& cpu_next(c, w, in_m).d.value == if stores_d(dest) {
                alu.out
            } else {
                c.d.value
            }
            &&& cpu_outputs(c, w, in_m).1 == stores_m(dest)
            &&& cpu_outputs(c, w, in_m).0 == alu.out
            &&& jumps(w, alu) == jump_taken(jump, alu.out)
        }),
{
    let w = c_word(line);
    let (dest, comp, jump) = c_fields(line);
    let b = comp_bits(comp).unwrap();
    let dd = dest_bits(dest).unwrap();
    let j = jump_bits(jump).unwrap();
    assert(b < 128 && dd < 8 && j < 8);
    lemma_word_bits(b, dd, j);
    lemma_destination_bits(dest);
    let y = if bit(w, 0x1000) {
        in_m
    } else {
        next_a(c, w)
    };
    lemma_alu_computes_mnemonic(comp, c.d.value, y);
    let alu = cycle_alu(c, w, in_m);
    lemma_jump_bits(jump, alu.out);
}

} // verus!
