use lib::alu::Alu;
use lib::cpu::Cpu;
use lib::pc::Pc;
use lib::ram::Ram;
use lib::register::Register;
use lib::rom::Rom;

#[test]
fn alu_zero() {
    let mut alu = Alu::default();
    alu.x = 999;
    alu.y = 999;
    alu.zx = true;
    alu.nx = false;
    alu.zy = true;
    alu.ny = false;
    alu.f = true;
    alu.no = false;
    alu.compute();
    assert_eq!(alu.out, 0);
    assert!(alu.zr);
    assert!(!alu.ng);
}

#[test]
fn alu_add() {
    let mut alu = Alu::default();
    alu.x = 10;
    alu.y = 5;
    alu.zx = false;
    alu.nx = false;
    alu.zy = false;
    alu.ny = false;
    alu.f = true;
    alu.no = false;
    alu.compute();
    assert_eq!(alu.out, 15);
    assert!(!alu.zr);
    assert!(!alu.ng);
}

#[test]
fn alu_add_wraps_and_sets_ng() {
    let mut alu = Alu::default();
    alu.x = 0xFFFF;
    alu.y = 2;
    alu.f = true;
    alu.compute();
    assert_eq!(alu.out, 1);
    alu.x = 0x7FFF;
    alu.y = 1;
    alu.compute();
    assert_eq!(alu.out, 0x8000);
    assert!(alu.ng);
    assert!(!alu.zr);
}

#[test]
fn alu_x_minus_y() {
    // D-A: zx=0 nx=1 zy=0 ny=0 f=1 no=1
    let mut alu = Alu::default();
    alu.x = 7;
    alu.y = 10;
    alu.nx = true;
    alu.f = true;
    alu.no = true;
    alu.compute();
    assert_eq!(alu.out, 0xFFFD);
    assert!(alu.ng);
}

#[test]
fn alu_and_not() {
    let mut alu = Alu::default();
    alu.x = 0b1100;
    alu.y = 0b1010;
    alu.compute();
    assert_eq!(alu.out, 0b1000);
    alu.no = true;
    alu.compute();
    assert_eq!(alu.out, !0b1000u16);
    // inputs and controls stay as they were
    assert_eq!(alu.x, 0b1100);
    assert_eq!(alu.y, 0b1010);
}

#[test]
fn cpu_a_instruction() {
    let mut cpu = Cpu::default();
    cpu.tick(10, 0);
    assert_eq!(cpu.a.value, 10);
}

#[test]
fn cpu_d_equals_a() {
    let mut cpu = Cpu::default();
    cpu.tick(17, 0);
    cpu.tick(0xEC10, 0);
    assert_eq!(cpu.d.value, 17);
}

#[test]
fn cpu_write_to_memory() {
    let mut cpu = Cpu::default();
    cpu.tick(10, 0);
    cpu.tick(0xEC10, 0);
    cpu.tick(5, 0);
    let (out, write, addr, _) = cpu.tick(0xE308, 0);
    assert!(write);
    assert_eq!(addr, 5);
    assert_eq!(out, 10);
}

#[test]
fn cpu_jump() {
    let mut cpu = Cpu::default();
    cpu.tick(100, 0);
    let (_, _, _, _pc) = cpu.tick(0xEA82, 0);
    assert_eq!(cpu.pc.value, 100);
}

#[test]
fn cpu_a_instruction_outputs() {
    let mut cpu = Cpu::default();
    let (_, write, addr, pc) = cpu.tick(1234, 0);
    assert!(!write);
    assert_eq!(addr, 1234);
    assert_eq!(pc, 1234);
    assert_eq!(cpu.d.value, 0);
}

#[test]
fn cpu_reads_m() {
    // D=M (1111 1100 0001 0000) with M = 42
    let mut cpu = Cpu::default();
    cpu.tick(7, 0);
    let (out, write, addr, _) = cpu.tick(0xFC10, 42);
    assert_eq!(cpu.d.value, 42);
    assert_eq!(out, 42);
    assert!(!write);
    assert_eq!(addr, 7);
}

#[test]
fn cpu_a_destination_takes_previous_alu_output() {
    let mut cpu = Cpu::default();
    cpu.tick(9, 0); // A=9
    cpu.tick(0xEC10, 0); // D=A: D=9
    cpu.tick(3, 0); // A=3; the ALU computes D&A = 1 in this cycle
    // A=D+1 (1110 0111 1110 0000): A is loaded with the ALU output held
    // before this cycle (1), then the ALU computes D+1 = 10
    let (out, write, addr, _) = cpu.tick(0xE7E0, 0);
    assert_eq!(cpu.a.value, 1);
    assert_eq!(addr, 1);
    assert_eq!(out, 10);
    assert!(!write);
    assert_eq!(cpu.d.value, 9);
}

#[test]
fn load_value() {
    let mut pc = Pc::default();
    pc.tick(10, true, false, false);
    assert_eq!(pc.value, 10);
}

#[test]
fn reset_value() {
    let mut pc = Pc::default();
    pc.tick(10, true, false, false);
    assert_eq!(pc.value, 10);
    pc.tick(5, false, false, true);
    assert_eq!(pc.value, 0);
}

#[test]
fn increment_value() {
    let mut pc = Pc::default();
    pc.tick(0, true, false, false);
    assert_eq!(pc.value, 0);
    pc.tick(5, false, true, false);
    assert_eq!(pc.value, 1);
}

#[test]
fn pc_priorities_and_wrap() {
    let mut pc = Pc::default();
    assert_eq!(pc.tick(7, true, true, true), 0);
    assert_eq!(pc.tick(7, true, true, false), 7);
    assert_eq!(pc.tick(0xFFFF, true, false, false), 0xFFFF);
    assert_eq!(pc.tick(3, false, true, false), 0);
    assert_eq!(pc.tick(3, false, false, false), 0);
}

#[test]
fn ram_change_value() {
    let mut ram = Ram::new(8);
    ram.tick(5, 0, true);
    assert_eq!(ram.data[0], 5);
}

#[test]
fn ram_keep_value() {
    let mut ram = Ram::new(8);
    ram.tick(5, 0, true);
    ram.tick(10, 0, false);
    assert_eq!(ram.data[0], 5);
}

#[test]
fn ram_read_after_write() {
    let mut ram = Ram::new(4);
    assert_eq!(ram.data, vec![0, 0, 0, 0]);
    assert_eq!(ram.tick(77, 2, true), 77);
    assert_eq!(ram.tick(1, 2, false), 77);
    assert_eq!(ram.tick(1, 3, false), 0);
    assert_eq!(ram.data, vec![0, 0, 77, 0]);
}

#[test]
fn register_change_value() {
    let mut register = Register::default();
    register.tick(10, true);
    assert_eq!(register.value, 10);
}

#[test]
fn register_keep_value() {
    let mut register = Register::default();
    register.tick(10, true);
    assert_eq!(register.value, 10);
    register.tick(15, false);
    assert_eq!(register.value, 10);
}

#[test]
fn read_value() {
    let rom = Rom::new(vec![0, 0, 0, 0, 0, 0, 0, 0]);
    assert_eq!(rom.read(5), 0);
}

#[test]
fn rom_reads_words_and_zero_past_end() {
    let rom = Rom::new(vec![11, 22, 33]);
    assert_eq!(rom.read(0), 11);
    assert_eq!(rom.read(2), 33);
    assert_eq!(rom.read(3), 0);
    assert_eq!(rom.read(1000), 0);
}

fn run_comp(line: &str, d: u16, a: u16, m: u16) -> u16 {
    // set D = d and A = a through A-instructions and D=A, then run the
    // assembled instruction with M = m
    let words = lib::assembler::assemble(line);
    let mut cpu = Cpu::default();
    cpu.tick(d & 0x7FFF, 0);
    cpu.tick(0xEC10, 0);
    cpu.tick(a & 0x7FFF, 0);
    let (out, _, _, _) = cpu.tick(words[0], m);
    out
}

#[test]
fn assembled_computations_compute_their_mnemonics() {
    assert_eq!(run_comp("0", 9, 4, 2), 0);
    assert_eq!(run_comp("1", 9, 4, 2), 1);
    assert_eq!(run_comp("-1", 9, 4, 2), 0xFFFF);
    assert_eq!(run_comp("D", 9, 4, 2), 9);
    assert_eq!(run_comp("A", 9, 4, 2), 4);
    assert_eq!(run_comp("M", 9, 4, 2), 2);
    assert_eq!(run_comp("!D", 9, 4, 2), !9u16);
    assert_eq!(run_comp("-D", 9, 4, 2), 0u16.wrapping_sub(9));
    assert_eq!(run_comp("-M", 9, 4, 2), 0u16.wrapping_sub(2));
    assert_eq!(run_comp("D+1", 9, 4, 2), 10);
    assert_eq!(run_comp("A-1", 9, 4, 2), 3);
    assert_eq!(run_comp("M+1", 9, 4, 2), 3);
    assert_eq!(run_comp("D+A", 9, 4, 2), 13);
    assert_eq!(run_comp("D-A", 9, 4, 2), 5);
    assert_eq!(run_comp("A-D", 9, 4, 2), 0u16.wrapping_sub(5));
    assert_eq!(run_comp("M-D", 9, 4, 2), 0u16.wrapping_sub(7));
    assert_eq!(run_comp("D&A", 12, 10, 2), 8);
    assert_eq!(run_comp("D|M", 12, 10, 3), 15);
}

#[test]
fn assembled_destinations_and_jumps() {
    let words = lib::assembler::assemble("@5\nMD=D+1;JGT");
    let mut cpu = Cpu::default();
    cpu.tick(words[0], 0);
    let (out, write, addr, _) = cpu.tick(words[1], 0);
    assert_eq!(out, 1);
    assert!(write);
    assert_eq!(addr, 5);
    assert_eq!(cpu.d.value, 1);
    assert_eq!(cpu.a.value, 5);
}
