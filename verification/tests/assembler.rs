use lib::assembler::assemble;

#[test]
fn assembles_a_and_c_instructions() {
    let src = "// Computes R0 = 2 + 3\n@2\nD=A\n@3\nD=D+A\n@0\nM=D\n";
    assert_eq!(assemble(src), vec![2, 0xEC10, 3, 0xE090, 0, 0xE308]);
}

#[test]
fn encodes_dest_comp_and_jump_fields() {
    assert_eq!(assemble("0;JMP"), vec![0xEA87]);
    assert_eq!(assemble("D;JGT"), vec![0xE301]);
    assert_eq!(assemble("AM=M+1"), vec![0xFDE8]);
    assert_eq!(assemble("AMD=D|M;JNE"), vec![0xF57D]);
    assert_eq!(assemble("M=-1"), vec![0xEE88]);
    assert_eq!(assemble("D=D&A;JLE"), vec![0xE016]);
}

#[test]
fn fields_are_trimmed() {
    assert_eq!(assemble("  D = A ; JEQ  "), vec![0xEC12]);
}

#[test]
fn labels_and_variables() {
    let src = "(LOOP)\n@LOOP\n0;JMP\n@i\n@j\n@i\n@END\n(END)\n";
    assert_eq!(assemble(src), vec![0, 0xEA87, 16, 17, 16, 6]);
}

#[test]
fn label_used_before_its_declaration() {
    let src = "@END\n0;JMP\n(END)\n@END\n";
    assert_eq!(assemble(src), vec![2, 0xEA87, 2]);
}

#[test]
fn predefined_symbols() {
    let src = "@R0\n@R15\n@SCREEN\n@KBD\n@SP\n@LCL\n@ARG\n@THIS\n@THAT\n";
    assert_eq!(assemble(src), vec![0, 15, 16384, 24576, 0, 1, 2, 3, 4]);
}

#[test]
fn numbers_as_str_parse_reads_them() {
    // a leading '+' and leading zeros are read as a number; a number too
    // large for 16 bits is a symbol
    let src = "@+5\n@007\n@65535\n@65536\n@-1\n";
    assert_eq!(assemble(src), vec![5, 7, 65535, 16, 17]);
}

#[test]
fn blank_lines_comments_and_whitespace_are_ignored() {
    let plain = assemble("@1\nD=A\n");
    let noisy = assemble("\n   // a comment\r\n\t@1  \r\n\n  D=A\t\n// end");
    assert_eq!(plain, noisy);
}

#[test]
fn label_redeclared_takes_the_later_address() {
    let src = "(X)\n@1\n(X)\n@X\n";
    assert_eq!(assemble(src), vec![1, 1]);
}

#[test]
fn label_may_override_a_predefined_symbol() {
    let src = "@0\n(R5)\n@R5\n";
    assert_eq!(assemble(src), vec![0, 1]);
}

#[test]
fn empty_source_gives_empty_program() {
    assert_eq!(assemble(""), Vec::<u16>::new());
    assert_eq!(assemble("// nothing\n\n"), Vec::<u16>::new());
}

#[test]
fn unclosed_parenthesis_line_is_counted_but_emits_nothing() {
    // "(A" counts as an instruction in the first pass, so END is 2
    let src = "@END\n(A\n(END)\n@END\n";
    assert_eq!(assemble(src), vec![2, 2]);
}

#[test]
fn translated_constants_read_back_as_the_same_number() {
    // the translator writes "@7" for "push constant 007"; the assembler reads it as 7
    assert_eq!(assemble("@7"), vec![7]);
    assert_eq!(assemble("@65535"), vec![65535]);
    assert_eq!(assemble("@0"), vec![0]);
}
