# A verified Hack tool chain

The chips of the Hack CPU (ALU, registers, program counter, RAM, ROM and the
CPU itself), the Hack assembler and the VM translator, written in Verus.

- `src/alu.rs`, `register.rs`, `pc.rs`, `ram.rs`, `rom.rs`, `cpu.rs`: the
  chips; each tick is specified by a spec function of the state before it.
- `src/text.rs`: lines, trimming, words, decimal numbers.
- `src/assembler.rs`: the two-pass assembler, specified by `first_pass`,
  `second_pass` and `assembled`.
- `src/translator.rs`: the VM translator, specified by `vm_pass` and
  `translated`.
- `src/semantics.rs`: what the words the assembler writes make the CPU do.

The tests under `tests/` run the library on concrete programs.
