use lib::assembler::assemble;
use lib::translator::translate;

fn bootstrap() -> String {
    let mut s = String::new();
    s.push_str("@256\nD=A\n@SP\nM=D\n");
    s.push_str("@3\nD=A\n@SP\nA=M\nM=D\n@SP\nM=M+1\n");
    s.push_str("@4\nD=A\n@SP\nA=M\nM=D\n@SP\nM=M+1\n");
    s.push_str("@HALT\nD=A\n@SP\nA=M\nM=D\n@SP\nM=M+1\n");
    for _ in 0..4 {
        s.push_str("@SP\nA=M\nM=0\n@SP\nM=M+1\n");
    }
    s.push_str("@SP\nD=M\n@5\nD=D-A\n@2\nD=D-A\n@ARG\nM=D\n");
    s.push_str("@SP\nD=M\n@LCL\nM=D\n");
    s.push_str("@Add\n0;JMP\n");
    s.push_str("(HALT)\n@HALT\n0;JMP\n");
    s
}

#[test]
fn empty_program_is_the_bootstrap() {
    assert_eq!(translate(""), bootstrap());
    assert_eq!(translate("// only a comment\n\n   \n"), bootstrap());
}

#[test]
fn arithmetic_commands() {
    let expected = bootstrap()
        + "@SP\nM=M-1\nA=M\nD=M\n@SP\nM=M-1\nA=M\nM=D+M\n@SP\nM=M+1\n"
        + "@SP\nM=M-1\nA=M\nD=M\n@SP\nM=M-1\nA=M\nM=M-D\n@SP\nM=M+1\n"
        + "@SP\nM=M-1\nA=M\nM=-M\n@SP\nM=M+1\n"
        + "@SP\nM=M-1\nA=M\nD=M\n@SP\nM=M-1\nA=M\nM=D&M\n@SP\nM=M+1\n"
        + "@SP\nM=M-1\nA=M\nD=M\n@SP\nM=M-1\nA=M\nM=D|M\n@SP\nM=M+1\n"
        + "@SP\nM=M-1\nA=M\nM=!M\n@SP\nM=M+1\n";
    assert_eq!(translate("add\nsub\nneg\nand\nor\nnot\n"), expected);
}

#[test]
fn comparisons_are_numbered() {
    let eq0 = "@SP\nM=M-1\nA=M\nD=M\n@SP\nM=M-1\nA=M\nD=M-D\n@CMP_TRUE_0\nD;JEQ\n@SP\nA=M\nM=0\n@CMP_END_0\n0;JMP\n(CMP_TRUE_0)\n@SP\nA=M\nM=-1\n(CMP_END_0)\n@SP\nM=M+1\n";
    let lt1 = "@SP\nM=M-1\nA=M\nD=M\n@SP\nM=M-1\nA=M\nD=M-D\n@CMP_TRUE_1\nD;JLT\n@SP\nA=M\nM=0\n@CMP_END_1\n0;JMP\n(CMP_TRUE_1)\n@SP\nA=M\nM=-1\n(CMP_END_1)\n@SP\nM=M+1\n";
    let gt2 = "@SP\nM=M-1\nA=M\nD=M\n@SP\nM=M-1\nA=M\nD=M-D\n@CMP_TRUE_2\nD;JGT\n@SP\nA=M\nM=0\n@CMP_END_2\n0;JMP\n(CMP_TRUE_2)\n@SP\nA=M\nM=-1\n(CMP_END_2)\n@SP\nM=M+1\n";
    assert_eq!(translate("eq\nlt\ngt"), bootstrap() + eq0 + lt1 + gt2);
}

#[test]
fn push_and_pop_segments() {
    assert_eq!(
        translate("push constant 007"),
        bootstrap() + "@7\nD=A\n@SP\nA=M\nM=D\n@SP\nM=M+1\n"
    );
    assert_eq!(
        translate("push constant +5"),
        bootstrap() + "@5\nD=A\n@SP\nA=M\nM=D\n@SP\nM=M+1\n"
    );
    assert_eq!(
        translate("push local 02"),
        bootstrap() + "@02\nD=A\n@LCL\nA=D+M\nD=M\n@SP\nA=M\nM=D\n@SP\nM=M+1\n"
    );
    assert_eq!(
        translate("pop that 3"),
        bootstrap() + "@3\nD=A\n@THAT\nD=D+M\n@R13\nM=D\n@SP\nM=M-1\nA=M\nD=M\n@R13\nA=M\nM=D\n"
    );
    assert_eq!(
        translate("push static 4"),
        bootstrap() + "@20\nD=M\n@SP\nA=M\nM=D\n@SP\nM=M+1\n"
    );
    assert_eq!(
        translate("pop temp 3"),
        bootstrap() + "@SP\nM=M-1\nA=M\nD=M\n@8\nM=D\n"
    );
    assert_eq!(
        translate("pop pointer 1"),
        bootstrap() + "@SP\nM=M-1\nA=M\nD=M\n@4\nM=D\n"
    );
}

#[test]
fn function_and_call() {
    let expected = bootstrap()
        + "(Foo)\n@SP\nA=M\nM=0\n@SP\nM=M+1\n@SP\nA=M\nM=0\n@SP\nM=M+1\n"
        + "@SP\nM=M-1\nA=M\nD=M\n@SP\nM=M-1\nA=M\nD=M-D\n@CMP_TRUE_0\nD;JEQ\n@SP\nA=M\nM=0\n@CMP_END_0\n0;JMP\n(CMP_TRUE_0)\n@SP\nA=M\nM=-1\n(CMP_END_0)\n@SP\nM=M+1\n"
        + "@Bar_RETURN_1\nD=A\n@SP\nA=M\nM=D\n@SP\nM=M+1\n"
        + "@LCL\nD=M\n@SP\nA=M\nM=D\n@SP\nM=M+1\n"
        + "@ARG\nD=M\n@SP\nA=M\nM=D\n@SP\nM=M+1\n"
        + "@THIS\nD=M\n@SP\nA=M\nM=D\n@SP\nM=M+1\n"
        + "@THAT\nD=M\n@SP\nA=M\nM=D\n@SP\nM=M+1\n"
        + "@SP\nD=M\n@5\nD=D-A\n@2\nD=D-A\n@ARG\nM=D\n"
        + "@SP\nD=M\n@LCL\nM=D\n"
        + "@Bar\n0;JMP\n"
        + "(Bar_RETURN_1)\n";
    assert_eq!(translate("function Foo 2\neq\ncall Bar 2"), expected);
}

#[test]
fn return_command() {
    let expected = bootstrap()
        + "@LCL\nD=M\n@R14\nM=D\n\
           @R14\nD=M\n@5\nD=D-A\nA=D\nD=M\n@R15\nM=D\n\
           @SP\nM=M-1\nA=M\nD=M\n@ARG\nA=M\nM=D\n\
           @ARG\nD=M\n@SP\nM=D+1\n\
           @R14\nD=M\n@1\nD=D-A\nA=D\nD=M\n@THAT\nM=D\n\
           @R14\nD=M\n@2\nD=D-A\nA=D\nD=M\n@THIS\nM=D\n\
           @R14\nD=M\n@4\nD=D-A\nA=D\nD=M\n@LCL\nM=D\n\
           @R14\nD=M\n@3\nD=D-A\nA=D\nD=M\n@ARG\nM=D\n\
           @R15\nA=M\n0;JMP\n";
    assert_eq!(translate("return"), expected);
}

#[test]
fn surrounding_whitespace_and_comments_are_ignored() {
    let plain = translate("push constant 1\nadd\n");
    let noisy = translate("\n  // start\r\n\tpush   constant\t1  \r\n\n   add\n// end\n");
    assert_eq!(plain, noisy);
}

#[test]
fn function_with_many_locals() {
    let out = translate("function F 3");
    let mut expected = bootstrap() + "(F)\n";
    for _ in 0..3 {
        expected.push_str("@SP\nA=M\nM=0\n@SP\nM=M+1\n");
    }
    assert_eq!(out, expected);
}

#[test]
fn translated_demo_program_assembles() {
    let vm = "
        function Main 0
        push constant 3
        push constant 4
        call Add 2
        function Add 0
        push argument 0
        push argument 1
        add
        return
    ";
    let assembly = translate(vm);
    let binary = assemble(&assembly);
    let instructions = assembly
        .lines()
        .filter(|l| !l.trim().is_empty() && !l.trim().starts_with('('))
        .count();
    assert_eq!(binary.len(), instructions);
    // the bootstrap starts with @256; D=A
    assert_eq!(binary[0], 256);
    assert_eq!(binary[1], 0xEC10);
}
