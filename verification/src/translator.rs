//! The VM translator: turns stack-machine VM commands into Hack assembly.
//! Each command becomes a list of assembly lines; the output is every line
//! followed by a newline.
use vstd::prelude::*;
use crate::text::{
    decimal, eq_lit, is_blank_or_comment, join_lines, lemma_join_concat, lemma_join_push,
    parse_u16, parse_u16_range, push_char, push_chars, push_decimal, source_lines, split_words,
    starts_with, starts_with_lit, str_eq, trimmed_lines, view_lines, words,
};

verus! {

// ---------------------------------------------------------------------------
// The assembly lines of each command
// ---------------------------------------------------------------------------

/// The program's start: SP set to 256, a first frame (return address
/// HALT) for the function `Add`, the jump to it, and the HALT loop.
pub open spec fn bootstrap() -> Seq<Seq<char>> {
    seq![
        "@256"@, "D=A"@, "@SP"@, "M=D"@, "@3"@, "D=A"@, "@SP"@, "A=M"@, "M=D"@, "@SP"@, "M=M+1"@,
        "@4"@, "D=A"@, "@SP"@, "A=M"@, "M=D"@, "@SP"@, "M=M+1"@, "@HALT"@, "D=A"@, "@SP"@, "A=M"@,
        "M=D"@, "@SP"@, "M=M+1"@, "@SP"@, "A=M"@, "M=0"@, "@SP"@, "M=M+1"@, "@SP"@, "A=M"@, "M=0"@,
        "@SP"@, "M=M+1"@, "@SP"@, "A=M"@, "M=0"@, "@SP"@, "M=M+1"@, "@SP"@, "A=M"@, "M=0"@, "@SP"@,
        "M=M+1"@, "@SP"@, "D=M"@, "@5"@, "D=D-A"@, "@2"@, "D=D-A"@, "@ARG"@, "M=D"@, "@SP"@,
        "D=M"@, "@LCL"@, "M=D"@, "@Add"@, "0;JMP"@, "(HALT)"@, "@HALT"@, "0;JMP"@
    ]
}

/// `add`: pops two values and pushes their sum.
pub open spec fn add_lines() -> Seq<Seq<char>> {
    seq!["@SP"@, "M=M-1"@, "A=M"@, "D=M"@, "@SP"@, "M=M-1"@, "A=M"@, "M=D+M"@, "@SP"@, "M=M+1"@]
}

/// `sub`: pops two values and pushes their difference.
pub open spec fn sub_lines() -> Seq<Seq<char>> {
    seq!["@SP"@, "M=M-1"@, "A=M"@, "D=M"@, "@SP"@, "M=M-1"@, "A=M"@, "M=M-D"@, "@SP"@, "M=M+1"@]
}

/// `neg`: negates the top of the stack.
pub open spec fn neg_lines() -> Seq<Seq<char>> {
    seq!["@SP"@, "M=M-1"@, "A=M"@, "M=-M"@, "@SP"@, "M=M+1"@]
}

/// `and`: pops two values and pushes their bitwise and.
pub open spec fn and_lines() -> Seq<Seq<char>> {
    seq!["@SP"@, "M=M-1"@, "A=M"@, "D=M"@, "@SP"@, "M=M-1"@, "A=M"@, "M=D&M"@, "@SP"@, "M=M+1"@]
}

/// `or`: pops two values and pushes their bitwise or.
pub open spec fn or_lines() -> Seq<Seq<char>> {
    seq!["@SP"@, "M=M-1"@, "A=M"@, "D=M"@, "@SP"@, "M=M-1"@, "A=M"@, "M=D|M"@, "@SP"@, "M=M+1"@]
}

/// `not`: negates the top of the stack bitwise.
pub open spec fn not_lines() -> Seq<Seq<char>> {
    seq!["@SP"@, "M=M-1"@, "A=M"@, "M=!M"@, "@SP"@, "M=M+1"@]
}

/// `return`: restores the caller's frame, puts the return value in place of
/// the arguments, and jumps back.
pub open spec fn return_lines() -> Seq<Seq<char>> {
    seq![
        "@LCL"@, "D=M"@, "@R14"@, "M=D"@, "@R14"@, "D=M"@, "@5"@, "D=D-A"@, "A=D"@, "D=M"@,
        "@R15"@, "M=D"@, "@SP"@, "M=M-1"@, "A=M"@, "D=M"@, "@ARG"@, "A=M"@, "M=D"@, "@ARG"@,
        "D=M"@, "@SP"@, "M=D+1"@, "@R14"@, "D=M"@, "@1"@, "D=D-A"@, "A=D"@, "D=M"@, "@THAT"@,
        "M=D"@, "@R14"@, "D=M"@, "@2"@, "D=D-A"@, "A=D"@, "D=M"@, "@THIS"@, "M=D"@, "@R14"@,
        "D=M"@, "@4"@, "D=D-A"@, "A=D"@, "D=M"@, "@LCL"@, "M=D"@, "@R14"@, "D=M"@, "@3"@, "D=D-A"@,
        "A=D"@, "D=M"@, "@ARG"@, "M=D"@, "@R15"@, "A=M"@, "0;JMP"@
    ]
}

/// The lines that push 0, as many times as a function has locals.
pub open spec fn push_zero_lines() -> Seq<Seq<char>> {
    seq!["@SP"@, "A=M"@, "M=0"@, "@SP"@, "M=M+1"@]
}

/// `n` copies of the lines `ls`.
pub open spec fn repeat_lines(ls: Seq<Seq<char>>, n: nat) -> Seq<Seq<char>>
    decreases n,
{
    if n == 0 {
        Seq::<Seq<char>>::empty()
    } else {
        repeat_lines(ls, (n - 1) as nat) + ls
    }
}

/// The jump line of a comparison command: `eq`, `lt` or `gt`.
pub open spec fn comparison_jump_line(op: Seq<char>) -> Seq<char> {
    if op == "eq"@ {
        "D;JEQ"@
    } else if op == "lt"@ {
        "D;JLT"@
    } else {
        "D;JGT"@
    }
}

/// A comparison, numbered `k` so that its labels `CMP_TRUE_k` and
/// `CMP_END_k` are its own: pushes -1 (true) or 0 (false).
pub open spec fn comparison_lines(op: Seq<char>, k: nat) -> Seq<Seq<char>> {
    seq!["@SP"@, "M=M-1"@, "A=M"@, "D=M"@, "@SP"@, "M=M-1"@, "A=M"@, "D=M-D"@,
        "@"@ + "CMP_TRUE_"@ + decimal(k),
        comparison_jump_line(op),
        "@SP"@, "A=M"@, "M=0"@,
        "@"@ + "CMP_END_"@ + decimal(k),
        "0;JMP"@,
        "("@ + "CMP_TRUE_"@ + decimal(k) + ")"@,
        "@SP"@, "A=M"@, "M=-1"@,
        "("@ + "CMP_END_"@ + decimal(k) + ")"@,
        "@SP"@, "M=M+1"@]
}

/// The base-address register of a segment that lives behind a pointer.
pub open spec fn segment_base_of(segment: Seq<char>) -> Seq<char> {
    if segment == "local"@ {
        "LCL"@
    } else if segment == "argument"@ {
        "ARG"@
    } else if segment == "this"@ {
        "THIS"@
    } else {
        "THAT"@
    }
}

/// `local`, `argument`, `this` or `that`.
pub open spec fn is_pointer_segment(segment: Seq<char>) -> bool {
    segment == "local"@ || segment == "argument"@ || segment == "this"@ || segment == "that"@
}

/// The fixed base address of `temp` (5), `pointer` (3) or `static` (16).
pub open spec fn fixed_base(segment: Seq<char>) -> Option<u16> {
    if segment == "temp"@ {
        Some(5)
    } else if segment == "pointer"@ {
        Some(3)
    } else if segment == "static"@ {
        Some(16)
    } else {
        None
    }
}

/// Pushes a constant.
pub open spec fn push_constant_lines(value: nat) -> Seq<Seq<char>> {
    seq!["@"@ + decimal(value), "D=A"@, "@SP"@, "A=M"@, "M=D"@, "@SP"@, "M=M+1"@]
}

/// Pushes entry `index` (as written) of a pointer segment.
pub open spec fn push_segment_lines(segment: Seq<char>, index: Seq<char>) -> Seq<Seq<char>> {
    seq![
        "@"@ + index, "D=A"@, "@"@ + segment_base_of(segment), "A=D+M"@, "D=M"@, "@SP"@, "A=M"@,
        "M=D"@, "@SP"@, "M=M+1"@
    ]
}

/// Pops into entry `index` (as written) of a pointer segment.
pub open spec fn pop_segment_lines(segment: Seq<char>, index: Seq<char>) -> Seq<Seq<char>> {
    seq![
        "@"@ + index, "D=A"@, "@"@ + segment_base_of(segment), "D=D+M"@, "@R13"@, "M=D"@, "@SP"@,
        "M=M-1"@, "A=M"@, "D=M"@, "@R13"@, "A=M"@, "M=D"@
    ]
}

/// Pushes the word at a fixed address.
pub open spec fn push_fixed_lines(address: nat) -> Seq<Seq<char>> {
    seq!["@"@ + decimal(address), "D=M"@, "@SP"@, "A=M"@, "M=D"@, "@SP"@, "M=M+1"@]
}

/// Pops into the word at a fixed address.
pub open spec fn pop_fixed_lines(address: nat) -> Seq<Seq<char>> {
    seq!["@SP"@, "M=M-1"@, "A=M"@, "D=M"@, "@"@ + decimal(address), "M=D"@]
}

/// A `push` command with words `w`: `push segment index`.
pub open spec fn push_lines(w: Seq<Seq<char>>) -> Seq<Seq<char>> {
    let i = parse_u16(w[2]).unwrap();
    if w[1] == "constant"@ {
        push_constant_lines(i as nat)
    } else if is_pointer_segment(w[1]) {
        push_segment_lines(w[1], w[2])
    } else {
        push_fixed_lines((fixed_base(w[1]).unwrap() + i) as nat)
    }
}

/// A `pop` command with words `w`: `pop segment index`.
pub open spec fn pop_lines(w: Seq<Seq<char>>) -> Seq<Seq<char>> {
    let i = parse_u16(w[2]).unwrap();
    if is_pointer_segment(w[1]) {
        pop_segment_lines(w[1], w[2])
    } else {
        pop_fixed_lines((fixed_base(w[1]).unwrap() + i) as nat)
    }
}

/// A call of `function` with `n_args` (as written), numbered `k` so that
/// its return label `function_RETURN_k` is its own: pushes the return
/// address and the caller's LCL, ARG, THIS and THAT, repositions ARG and
/// LCL, and jumps.
pub open spec fn call_lines(function: Seq<char>, n_args: Seq<char>, k: nat) -> Seq<Seq<char>> {
    seq![
        "@"@ + function + "_RETURN_"@ + decimal(k), "D=A"@, "@SP"@, "A=M"@, "M=D"@, "@SP"@,
        "M=M+1"@, "@LCL"@, "D=M"@, "@SP"@, "A=M"@, "M=D"@, "@SP"@, "M=M+1"@, "@ARG"@, "D=M"@,
        "@SP"@, "A=M"@, "M=D"@, "@SP"@, "M=M+1"@, "@THIS"@, "D=M"@, "@SP"@, "A=M"@, "M=D"@, "@SP"@,
        "M=M+1"@, "@THAT"@, "D=M"@, "@SP"@, "A=M"@, "M=D"@, "@SP"@, "M=M+1"@, "@SP"@, "D=M"@,
        "@5"@, "D=D-A"@,
        "@"@ + n_args, "D=D-A"@, "@ARG"@, "M=D"@, "@SP"@, "D=M"@, "@LCL"@, "M=D"@,
        "@"@ + function, "0;JMP"@,
        "("@ + function + "_RETURN_"@ + decimal(k) + ")"@]
}

/// A function's entry: its label, then `n_locals` zeros pushed.
pub open spec fn function_lines(function: Seq<char>, n_locals: nat) -> Seq<Seq<char>> {
    seq!["("@ + function + ")"@] + repeat_lines(push_zero_lines(), n_locals)
}

/// The words of a `push` or `pop` line name a known segment and a 16-bit
/// index, and a fixed segment's address stays within 16 bits.
pub open spec fn segment_command_ok(w: Seq<Seq<char>>, allow_constant: bool) -> bool {
    &&& w.len() >= 3
    &&& parse_u16(w[2]) is Some
    &&& {
        ||| allow_constant && w[1] == "constant"@
        ||| is_pointer_segment(w[1])
        ||| (fixed_base(w[1]) is Some && fixed_base(w[1]).unwrap() + parse_u16(w[2]).unwrap()
            <= 0xffff)
    }
}

/// The arithmetic and logic commands that take no argument.
pub open spec fn is_plain_command(l: Seq<char>) -> bool {
    l == "add"@ || l == "sub"@ || l == "neg"@ || l == "eq"@ || l == "lt"@ || l == "gt"@ || l
        == "and"@ || l == "or"@ || l == "not"@
}

/// A line the translator accepts: an argument-less command or `return`, or
/// a line starting with `push`, `pop`, `call` or `function` whose words are
/// complete.
pub open spec fn vm_command_ok(l: Seq<char>) -> bool {
    if is_plain_command(l) {
        true
    } else if starts_with(l, "push"@) {
        segment_command_ok(words(l), true)
    } else if starts_with(l, "pop"@) {
        segment_command_ok(words(l), false)
    } else if starts_with(l, "call"@) {
        words(l).len() >= 3
    } else if starts_with(l, "function"@) {
        words(l).len() >= 3 && parse_u16(words(l)[2]) is Some
    } else {
        l == "return"@
    }
}

/// The assembly lines of one command line, given the count `k` of labelled
/// commands (comparisons and calls) before it, and the count after it.
pub open spec fn vm_step(l: Seq<char>, k: nat) -> (Seq<Seq<char>>, nat) {
    if l == "add"@ {
        (add_lines(), k)
    } else if l == "sub"@ {
        (sub_lines(), k)
    } else if l == "neg"@ {
        (neg_lines(), k)
    } else if l == "eq"@ {
        (comparison_lines("eq"@, k), k + 1)
    } else if l == "lt"@ {
        (comparison_lines("lt"@, k), k + 1)
    } else if l == "gt"@ {
        (comparison_lines("gt"@, k), k + 1)
    } else if l == "and"@ {
        (and_lines(), k)
    } else if l == "or"@ {
        (or_lines(), k)
    } else if l == "not"@ {
        (not_lines(), k)
    } else if starts_with(l, "push"@) {
        (push_lines(words(l)), k)
    } else if starts_with(l, "pop"@) {
        (pop_lines(words(l)), k)
    } else if starts_with(l, "call"@) {
        (call_lines(words(l)[1], words(l)[2], k), k + 1)
    } else if starts_with(l, "function"@) {
        (function_lines(words(l)[1], parse_u16(words(l)[2]).unwrap() as nat), k)
    } else if l == "return"@ {
        (return_lines(), k)
    } else {
        (Seq::<Seq<char>>::empty(), k)
    }
}

/// The assembly lines of `lines`, after the bootstrap, and the number of
/// labelled commands in them.
pub open spec fn vm_pass(lines: Seq<Seq<char>>) -> (Seq<Seq<char>>, nat)
    decreases lines.len(),
{
    if lines.len() == 0 {
        (bootstrap(), 0)
    } else {
        let (out, k) = vm_pass(lines.drop_last());
        let l = lines.last();
        if is_blank_or_comment(l) {
            (out, k)
        } else {
            let (a, k2) = vm_step(l, k);
            (out + a, k2)
        }
    }
}

/// The assembly text of a VM program.
pub open spec fn translated(source: Seq<char>) -> Seq<char> {
    join_lines(vm_pass(trimmed_lines(source)).0)
}

/// The programs the translator accepts: every line is blank, a comment, or
/// an accepted command, and there are at most 0xFFFF comparisons and calls.
pub open spec fn translatable(source: Seq<char>) -> bool {
    let lines = trimmed_lines(source);
    &&& forall|i: int|
        0 <= i < lines.len() && !is_blank_or_comment(#[trigger] lines[i]) ==> vm_command_ok(lines[i])
    &&& vm_pass(lines).1 <= 0xffff
}

// ---------------------------------------------------------------------------
// Writing lines
// ---------------------------------------------------------------------------

/// Assembly text under construction, with the lines it holds.
struct Emitter {
    text: String,
    lines: Ghost<Seq<Seq<char>>>,
}

impl Emitter {
    /// The text is the lines, each followed by a newline.
    spec fn wf(&self) -> bool {
        self.text@ == join_lines(self.lines@)
    }

    fn new() -> (e: Self)
        ensures
            e.wf(),
            e.lines@ == Seq::<Seq<char>>::empty(),
    {
        Emitter { text: String::new(), lines: Ghost(Seq::<Seq<char>>::empty()) }
    }

    /// Writes the line `l`.
    fn line(&mut self, l: &str)
        requires
            old(self).wf(),
        ensures
            final(self).wf(),
            final(self).lines@ == old(self).lines@.push(l@),
    {
        let ghost before = self.text@;
        self.text.append(l);
        push_char(&mut self.text, '\n');
        proof {
            lemma_join_push(self.lines@, l@);
            assert((before + l@).push('\n') =~= before + l@ + seq!['\n']);
        }
        self.lines = Ghost(self.lines@.push(l@));
    }

    /// Writes the line `l`.
    fn line_string(&mut self, l: &String)
        requires
            old(self).wf(),
        ensures
            final(self).wf(),
            final(self).lines@ == old(self).lines@.push(l@),
    {
        self.line(l.as_str());
    }

    fn finish(self) -> (s: String)
        requires
            self.wf(),
        ensures
            s@ == join_lines(self.lines@),
    {
        self.text
    }
}

// ---------------------------------------------------------------------------
// Executable translation
// ---------------------------------------------------------------------------

fn translate_add() -> (r: String)
    ensures
        r@ == join_lines(add_lines()),
{
    let mut e = Emitter::new();
    e.line("@SP");
    e.line("M=M-1");
    e.line("A=M");
    e.line("D=M");
    e.line("@SP");
    e.line("M=M-1");
    e.line("A=M");
    e.line("M=D+M");
    e.line("@SP");
    e.line("M=M+1");
    assert(e.lines@ =~= add_lines());
    e.finish()
}

fn translate_sub() -> (r: String)
    ensures
        r@ == join_lines(sub_lines()),
{
    let mut e = Emitter::new();
    e.line("@SP");
    e.line("M=M-1");
    e.line("A=M");
    e.line("D=M");
    e.line("@SP");
    e.line("M=M-1");
    e.line("A=M");
    e.line("M=M-D");
    e.line("@SP");
    e.line("M=M+1");
    assert(e.lines@ =~= sub_lines());
    e.finish()
}

fn translate_neg() -> (r: String)
    ensures
        r@ == join_lines(neg_lines()),
{
    let mut e = Emitter::new();
    e.line("@SP");
    e.line("M=M-1");
    e.line("A=M");
    e.line("M=-M");
    e.line("@SP");
    e.line("M=M+1");
    assert(e.lines@ =~= neg_lines());
    e.finish()
}

fn translate_and() -> (r: String)
    ensures
        r@ == join_lines(and_lines()),
{
    let mut e = Emitter::new();
    e.line("@SP");
    e.line("M=M-1");
    e.line("A=M");
    e.line("D=M");
    e.line("@SP");
    e.line("M=M-1");
    e.line("A=M");
    e.line("M=D&M");
    e.line("@SP");
    e.line("M=M+1");
    assert(e.lines@ =~= and_lines());
    e.finish()
}

fn translate_or() -> (r: String)
    ensures
        r@ == join_lines(or_lines()),
{
    let mut e = Emitter::new();
    e.line("@SP");
    e.line("M=M-1");
    e.line("A=M");
    e.line("D=M");
    e.line("@SP");
    e.line("M=M-1");
    e.line("A=M");
    e.line("M=D|M");
    e.line("@SP");
    e.line("M=M+1");
    assert(e.lines@ =~= or_lines());
    e.finish()
}

fn translate_not() -> (r: String)
    ensures
        r@ == join_lines(not_lines()),
{
    let mut e = Emitter::new();
    e.line("@SP");
    e.line("M=M-1");
    e.line("A=M");
    e.line("M=!M");
    e.line("@SP");
    e.line("M=M+1");
    assert(e.lines@ =~= not_lines());
    e.finish()
}

fn translate_return() -> (r: String)
    ensures
        r@ == join_lines(return_lines()),
{
    let mut e = Emitter::new();
    e.line("@LCL");
    e.line("D=M");
    e.line("@R14");
    e.line("M=D");
    e.line("@R14");
    e.line("D=M");
    e.line("@5");
    e.line("D=D-A");
    e.line("A=D");
    e.line("D=M");
    e.line("@R15");
    e.line("M=D");
    e.line("@SP");
    e.line("M=M-1");
    e.line("A=M");
    e.line("D=M");
    e.line("@ARG");
    e.line("A=M");
    e.line("M=D");
    e.line("@ARG");
    e.line("D=M");
    e.line("@SP");
    e.line("M=D+1");
    e.line("@R14");
    e.line("D=M");
    e.line("@1");
    e.line("D=D-A");
    e.line("A=D");
    e.line("D=M");
    e.line("@THAT");
    e.line("M=D");
    e.line("@R14");
    e.line("D=M");
    e.line("@2");
    e.line("D=D-A");
    e.line("A=D");
    e.line("D=M");
    e.line("@THIS");
    e.line("M=D");
    e.line("@R14");
    e.line("D=M");
    e.line("@4");
    e.line("D=D-A");
    e.line("A=D");
    e.line("D=M");
    e.line("@LCL");
    e.line("M=D");
    e.line("@R14");
    e.line("D=M");
    e.line("@3");
    e.line("D=D-A");
    e.line("A=D");
    e.line("D=M");
    e.line("@ARG");
    e.line("M=D");
    e.line("@R15");
    e.line("A=M");
    e.line("0;JMP");
    assert(e.lines@ =~= return_lines());
    e.finish()
}

/// A comparison `eq`, `lt` or `gt`, numbered with the label counter, which
/// it advances.
fn translate_comparison(op: &str, label_count: &mut u16) -> (r: String)
    requires
        op@ == "eq"@ || op@ == "lt"@ || op@ == "gt"@,
        *old(label_count) < 0xffff,
    ensures
        r@ == join_lines(comparison_lines(op@, *old(label_count) as nat)),
        *final(label_count) == *old(label_count) + 1,
{
    let jump = if str_eq(op, "eq") {
        "D;JEQ"
    } else if str_eq(op, "lt") {
        "D;JLT"
    } else {
        "D;JGT"
    };
    let k = *label_count;
    let mut true_label = "@".to_owned();
    true_label.append("CMP_TRUE_");
    push_decimal(&mut true_label, k);
    let mut end_label = "@".to_owned();
    end_label.append("CMP_END_");
    push_decimal(&mut end_label, k);
    let mut true_target = "(".to_owned();
    true_target.append("CMP_TRUE_");
    push_decimal(&mut true_target, k);
    true_target.append(")");
    let mut end_target = "(".to_owned();
    end_target.append("CMP_END_");
    push_decimal(&mut end_target, k);
    end_target.append(")");
    *label_count += 1;
    let mut e = Emitter::new();
    e.line("@SP");
    e.line("M=M-1");
    e.line("A=M");
    e.line("D=M");
    e.line("@SP");
    e.line("M=M-1");
    e.line("A=M");
    e.line("D=M-D");
    e.line_string(&true_label);
    e.line(jump);
    e.line("@SP");
    e.line("A=M");
    e.line("M=0");
    e.line_string(&end_label);
    e.line("0;JMP");
    e.line_string(&true_target);
    e.line("@SP");
    e.line("A=M");
    e.line("M=-1");
    e.line_string(&end_target);
    e.line("@SP");
    e.line("M=M+1");
    assert(e.lines@ =~= comparison_lines(op@, *old(label_count) as nat));
    e.finish()
}

/// The base-address register of a pointer segment.
fn segment_base(segment: &Vec<char>) -> (r: &'static str)
    requires
        is_pointer_segment(segment@),
    ensures
        r@ == segment_base_of(segment@),
{
    if eq_lit(segment, "local") {
        "LCL"
    } else if eq_lit(segment, "argument") {
        "ARG"
    } else if eq_lit(segment, "this") {
        "THIS"
    } else {
        "THAT"
    }
}

/// `prefix` followed by the characters of `v`.
fn text_with(prefix: &str, v: &Vec<char>) -> (s: String)
    ensures
        s@ == prefix@ + v@,
{
    let mut s = prefix.to_owned();
    push_chars(&mut s, v);
    s
}

/// `prefix` followed by the decimal writing of `n`.
fn text_with_number(prefix: &str, n: u16) -> (s: String)
    ensures
        s@ == prefix@ + decimal(n as nat),
{
    let mut s = prefix.to_owned();
    push_decimal(&mut s, n);
    s
}

fn translate_push_segment(segment: &Vec<char>, i: &Vec<char>) -> (r: String)
    requires
        is_pointer_segment(segment@),
    ensures
        r@ == join_lines(push_segment_lines(segment@, i@)),
{
    let mut base = "@".to_owned();
    base.append(segment_base(segment));
    let mut e = Emitter::new();
    e.line_string(&text_with("@", i));
    e.line("D=A");
    e.line_string(&base);
    e.line("A=D+M");
    e.line("D=M");
    e.line("@SP");
    e.line("A=M");
    e.line("M=D");
    e.line("@SP");
    e.line("M=M+1");
    assert(e.lines@ =~= push_segment_lines(segment@, i@));
    e.finish()
}

fn translate_pop_segment(segment: &Vec<char>, i: &Vec<char>) -> (r: String)
    requires
        is_pointer_segment(segment@),
    ensures
        r@ == join_lines(pop_segment_lines(segment@, i@)),
{
    let mut base = "@".to_owned();
    base.append(segment_base(segment));
    let mut e = Emitter::new();
    e.line_string(&text_with("@", i));
    e.line("D=A");
    e.line_string(&base);
    e.line("D=D+M");
    e.line("@R13");
    e.line("M=D");
    e.line("@SP");
    e.line("M=M-1");
    e.line("A=M");
    e.line("D=M");
    e.line("@R13");
    e.line("A=M");
    e.line("M=D");
    assert(e.lines@ =~= pop_segment_lines(segment@, i@));
    e.finish()
}

fn translate_push_fixed(base: u16, i: u16) -> (r: String)
    requires
        base + i <= 0xffff,
    ensures
        r@ == join_lines(push_fixed_lines((base + i) as nat)),
{
    let addr = base + i;
    let mut e = Emitter::new();
    e.line_string(&text_with_number("@", addr));
    e.line("D=M");
    e.line("@SP");
    e.line("A=M");
    e.line("M=D");
    e.line("@SP");
    e.line("M=M+1");
    assert(e.lines@ =~= push_fixed_lines((base + i) as nat));
    e.finish()
}

fn translate_pop_fixed(base: u16, i: u16) -> (r: String)
    requires
        base + i <= 0xffff,
    ensures
        r@ == join_lines(pop_fixed_lines((base + i) as nat)),
{
    let addr = base + i;
    let mut e = Emitter::new();
    e.line("@SP");
    e.line("M=M-1");
    e.line("A=M");
    e.line("D=M");
    e.line_string(&text_with_number("@", addr));
    e.line("M=D");
    assert(e.lines@ =~= pop_fixed_lines((base + i) as nat));
    e.finish()
}

fn translate_push_constant(value: u16) -> (r: String)
    ensures
        r@ == join_lines(push_constant_lines(value as nat)),
{
    let mut e = Emitter::new();
    e.line_string(&text_with_number("@", value));
    e.line("D=A");
    e.line("@SP");
    e.line("A=M");
    e.line("M=D");
    e.line("@SP");
    e.line("M=M+1");
    assert(e.lines@ =~= push_constant_lines(value as nat));
    e.finish()
}

/// A `push` line.
fn translate_push(line: &Vec<char>) -> (r: String)
    requires
        segment_command_ok(words(line@), true),
    ensures
        r@ == join_lines(push_lines(words(line@))),
{
    let parts = split_words(line);
    assert(parts[1]@ == words(line@)[1] && parts[2]@ == words(line@)[2]);
    let i = match parse_u16_range(&parts[2], 0, parts[2].len()) {
        Some(i) => i,
        None => 0,
    };
    assert(parts[2]@.subrange(0, parts[2]@.len() as int) =~= parts[2]@);
    if eq_lit(&parts[1], "constant") {
        translate_push_constant(i)
    } else if eq_lit(&parts[1], "local") || eq_lit(&parts[1], "argument") || eq_lit(
        &parts[1],
        "this",
    ) || eq_lit(&parts[1], "that") {
        translate_push_segment(&parts[1], &parts[2])
    } else if eq_lit(&parts[1], "temp") {
        translate_push_fixed(5, i)
    } else if eq_lit(&parts[1], "pointer") {
        translate_push_fixed(3, i)
    } else {
        translate_push_fixed(16, i)
    }
}

/// A `pop` line.
fn translate_pop(line: &Vec<char>) -> (r: String)
    requires
        segment_command_ok(words(line@), false),
    ensures
        r@ == join_lines(pop_lines(words(line@))),
{
    let parts = split_words(line);
    assert(parts[1]@ == words(line@)[1] && parts[2]@ == words(line@)[2]);
    let i = match parse_u16_range(&parts[2], 0, parts[2].len()) {
        Some(i) => i,
        None => 0,
    };
    assert(parts[2]@.subrange(0, parts[2]@.len() as int) =~= parts[2]@);
    if eq_lit(&parts[1], "local") || eq_lit(&parts[1], "argument") || eq_lit(&parts[1], "this")
        || eq_lit(&parts[1], "that") {
        translate_pop_segment(&parts[1], &parts[2])
    } else if eq_lit(&parts[1], "temp") {
        translate_pop_fixed(5, i)
    } else if eq_lit(&parts[1], "pointer") {
        translate_pop_fixed(3, i)
    } else {
        translate_pop_fixed(16, i)
    }
}

/// A call, numbered with the label counter, which it advances.
fn translate_call(function: &Vec<char>, n_args: &Vec<char>, label_count: &mut u16) -> (r: String)
    requires
        *old(label_count) < 0xffff,
    ensures
        r@ == join_lines(call_lines(function@, n_args@, *old(label_count) as nat)),
        *final(label_count) == *old(label_count) + 1,
{
    let k = *label_count;
    let mut return_address = text_with("@", function);
    return_address.append("_RETURN_");
    push_decimal(&mut return_address, k);
    let mut return_target = text_with("(", function);
    return_target.append("_RETURN_");
    push_decimal(&mut return_target, k);
    return_target.append(")");
    *label_count += 1;
    let mut e = Emitter::new();
    e.line_string(&return_address);
    e.line("D=A");
    e.line("@SP");
    e.line("A=M");
    e.line("M=D");
    e.line("@SP");
    e.line("M=M+1");
    e.line("@LCL");
    e.line("D=M");
    e.line("@SP");
    e.line("A=M");
    e.line("M=D");
    e.line("@SP");
    e.line("M=M+1");
    e.line("@ARG");
    e.line("D=M");
    e.line("@SP");
    e.line("A=M");
    e.line("M=D");
    e.line("@SP");
    e.line("M=M+1");
    e.line("@THIS");
    e.line("D=M");
    e.line("@SP");
    e.line("A=M");
    e.line("M=D");
    e.line("@SP");
    e.line("M=M+1");
    e.line("@THAT");
    e.line("D=M");
    e.line("@SP");
    e.line("A=M");
    e.line("M=D");
    e.line("@SP");
    e.line("M=M+1");
    e.line("@SP");
    e.line("D=M");
    e.line("@5");
    e.line("D=D-A");
    e.line_string(&text_with("@", n_args));
    e.line("D=D-A");
    e.line("@ARG");
    e.line("M=D");
    e.line("@SP");
    e.line("D=M");
    e.line("@LCL");
    e.line("M=D");
    e.line_string(&text_with("@", function));
    e.line("0;JMP");
    e.line_string(&return_target);
    assert(e.lines@ =~= call_lines(function@, n_args@, k as nat));
    e.finish()
}

/// A function's entry with `n_locals` (as written) locals set to 0.
fn translate_function(function: &Vec<char>, n_locals: &Vec<char>) -> (r: String)
    requires
        parse_u16(n_locals@) is Some,
    ensures
        r@ == join_lines(function_lines(function@, parse_u16(n_locals@).unwrap() as nat)),
{
    assert(n_locals@.subrange(0, n_locals@.len() as int) =~= n_locals@);
    let n = match parse_u16_range(n_locals, 0, n_locals.len()) {
        Some(n) => n,
        None => 0,
    };
    let mut label = text_with("(", function);
    label.append(")");
    let mut e = Emitter::new();
    e.line_string(&label);
    let ghost head = e.lines@;
    assert(head + repeat_lines(push_zero_lines(), 0) =~= head);
    let mut k: u16 = 0;
    while k < n
        invariant
            k <= n,
            e.wf(),
            e.lines@ == head + repeat_lines(push_zero_lines(), k as nat),
        decreases n - k,
    {
        let ghost before = e.lines@;
        e.line("@SP");
        e.line("A=M");
        e.line("M=0");
        e.line("@SP");
        e.line("M=M+1");
        assert(e.lines@ =~= head + repeat_lines(push_zero_lines(), (k + 1) as nat));
        k = k + 1;
    }
    e.finish()
}

/// Translates the VM program `source` into Hack assembly.
pub fn translate(source: &str) -> (output: String)
    requires
        translatable(source@),
    ensures
        output@ == translated(source@),
{
    let mut label_count: u16 = 0;
    let mut e = Emitter::new();
    e.line("@256");
    e.line("D=A");
    e.line("@SP");
    e.line("M=D");
    e.line("@3");
    e.line("D=A");
    e.line("@SP");
    e.line("A=M");
    e.line("M=D");
    e.line("@SP");
    e.line("M=M+1");
    e.line("@4");
    e.line("D=A");
    e.line("@SP");
    e.line("A=M");
    e.line("M=D");
    e.line("@SP");
    e.line("M=M+1");
    e.line("@HALT");
    e.line("D=A");
    e.line("@SP");
    e.line("A=M");
    e.line("M=D");
    e.line("@SP");
    e.line("M=M+1");
    e.line("@SP");
    e.line("A=M");
    e.line("M=0");
    e.line("@SP");
    e.line("M=M+1");
    e.line("@SP");
    e.line("A=M");
    e.line("M=0");
    e.line("@SP");
    e.line("M=M+1");
    e.line("@SP");
    e.line("A=M");
    e.line("M=0");
    e.line("@SP");
    e.line("M=M+1");
    e.line("@SP");
    e.line("A=M");
    e.line("M=0");
    e.line("@SP");
    e.line("M=M+1");
    e.line("@SP");
    e.line("D=M");
    e.line("@5");
    e.line("D=D-A");
    e.line("@2");
    e.line("D=D-A");
    e.line("@ARG");
    e.line("M=D");
    e.line("@SP");
    e.line("D=M");
    e.line("@LCL");
    e.line("M=D");
    e.line("@Add");
    e.line("0;JMP");
    e.line("(HALT)");
    e.line("@HALT");
    e.line("0;JMP");
    assert(e.lines@ =~= bootstrap());
    let mut output = e.finish();

    let lines = source_lines(source);
    let ghost ls = view_lines(lines@);
    assert(ls.take(0) =~= Seq::<Seq<char>>::empty());
    let mut i: usize = 0;
    while i < lines.len()
        invariant
            i <= lines.len(),
            ls == view_lines(lines@),
            ls == trimmed_lines(source@),
            forall|j: int|
                0 <= j < ls.len() && !is_blank_or_comment(#[trigger] ls[j]) ==> vm_command_ok(ls[j]),
            vm_pass(ls).1 <= 0xffff,
            output@ == join_lines(vm_pass(ls.take(i as int)).0),
            label_count as nat == vm_pass(ls.take(i as int)).1,
        decreases lines.len() - i,
    {
        let line = &lines[i];
        let ghost l = ls[i as int];
        let ghost before = vm_pass(ls.take(i as int)).0;
        assert(line@ == l);
        assert(ls.take(i + 1).drop_last() =~= ls.take(i as int));
        assert(ls.take(i + 1).last() == l);
        proof {
            lemma_vm_pass_monotone(ls, i + 1);
        }
        i = i + 1;
        if line.len() == 0 || starts_with_lit(line, "//") {
            continue;
        }
        assert(vm_command_ok(l));
        let code = if eq_lit(line, "add") {
            translate_add()
        } else if eq_lit(line, "sub") {
            translate_sub()
        } else if eq_lit(line, "neg") {
            translate_neg()
        } else if eq_lit(line, "eq") {
            translate_comparison("eq", &mut label_count)
        } else if eq_lit(line, "lt") {
            translate_comparison("lt", &mut label_count)
        } else if eq_lit(line, "gt") {
            translate_comparison("gt", &mut label_count)
        } else if eq_lit(line, "and") {
            translate_and()
        } else if eq_lit(line, "or") {
            translate_or()
        } else if eq_lit(line, "not") {
            translate_not()
        } else if starts_with_lit(line, "push") {
            translate_push(line)
        } else if starts_with_lit(line, "pop") {
            translate_pop(line)
        } else if starts_with_lit(line, "call") {
            let parts = split_words(line);
            translate_call(&parts[1], &parts[2], &mut label_count)
        } else if starts_with_lit(line, "function") {
            let parts = split_words(line);
            translate_function(&parts[1], &parts[2])
        } else {
            translate_return()
        };
        output.append(code.as_str());
        proof {
            lemma_join_concat(before, vm_step(l, vm_pass(ls.take(i - 1)).1).0);
        }
    }
    assert(ls.take(lines.len() as int) =~= ls);
    output
}

// ---------------------------------------------------------------------------
// Laws
// ---------------------------------------------------------------------------

/// Blank lines and comments change nothing: inserting one anywhere leaves
/// the translation as it was.
pub proof fn lemma_blank_lines_ignored(lines: Seq<Seq<char>>, k: int, c: Seq<char>)
    requires
        0 <= k <= lines.len(),
        is_blank_or_comment(c),
    ensures
        vm_pass(lines.insert(k, c)) == vm_pass(lines),
    decreases lines.len(),
{
    let m = lines.insert(k, c);
    if k == lines.len() {
        assert(m.drop_last() =~= lines);
        assert(m.last() == c);
    } else {
        assert(m.drop_last() =~= lines.drop_last().insert(k, c));
        assert(m.last() == lines.last());
        lemma_blank_lines_ignored(lines.drop_last(), k, c);
    }
}

/// Every translation starts with the bootstrap, and the translation of a
/// prefix of the lines is a prefix of the translation of all of them.
pub proof fn lemma_translation_extends(lines: Seq<Seq<char>>, i: int)
    requires
        0 <= i <= lines.len(),
    ensures
        vm_pass(lines).0.len() >= bootstrap().len(),
        vm_pass(lines).0.subrange(0, bootstrap().len() as int) == bootstrap(),
        vm_pass(lines).0.len() >= vm_pass(lines.take(i)).0.len(),
        vm_pass(lines).0.subrange(0, vm_pass(lines.take(i)).0.len() as int) == vm_pass(
            lines.take(i),
        ).0,
    decreases lines.len(), i,
{
    if lines.len() == 0 {
        assert(lines.take(i) =~= lines);
        assert(vm_pass(lines).0.subrange(0, bootstrap().len() as int) =~= bootstrap());
    } else if i == lines.len() {
        assert(lines.take(i) =~= lines);
        lemma_translation_extends(lines, 0);
        assert(vm_pass(lines).0.subrange(0, vm_pass(lines).0.len() as int) =~= vm_pass(lines).0);
    } else {
        let d = lines.drop_last();
        assert(d.take(i) =~= lines.take(i));
        lemma_translation_extends(d, i);
        let o = vm_pass(d).0;
        let n = vm_pass(lines).0;
        assert(n.subrange(0, o.len() as int) =~= o);
        assert(n.subrange(0, bootstrap().len() as int) =~= o.subrange(0, bootstrap().len() as int));
        assert(n.subrange(0, vm_pass(lines.take(i)).0.len() as int) =~= o.subrange(
            0,
            vm_pass(lines.take(i)).0.len() as int,
        ));
    }
}

/// A comparison or a call: a command that numbers its labels.
pub open spec fn numbers_labels(l: Seq<char>) -> bool {
    l == "eq"@ || l == "lt"@ || l == "gt"@ || (!is_plain_command(l) && !starts_with(l, "push"@)
        && !starts_with(l, "pop"@) && starts_with(l, "call"@))
}

/// The labelled commands are numbered in order, so no two of them share a
/// number: the one on an earlier line has a smaller number.
pub proof fn lemma_label_numbers_distinct(lines: Seq<Seq<char>>, i: int, j: int)
    requires
        0 <= i < j <= lines.len(),
        !is_blank_or_comment(lines[i]),
        numbers_labels(lines[i]),
    ensures
        vm_pass(lines.take(i)).1 < vm_pass(lines.take(j)).1,
    decreases j - i,
{
    if j == i + 1 {
        assert(lines.take(j).drop_last() =~= lines.take(i));
        assert(lines.take(j).last() == lines[i]);
        reveal_strlit("add");
        reveal_strlit("sub");
        reveal_strlit("neg");
        reveal_strlit("eq");
        reveal_strlit("lt");
        reveal_strlit("gt");
    } else {
        lemma_label_numbers_distinct(lines, i, j - 1);
        assert(lines.take(j).drop_last() =~= lines.take(j - 1));
    }
}

proof fn lemma_vm_pass_monotone(lines: Seq<Seq<char>>, i: int)
    requires
        0 <= i <= lines.len(),
    ensures
        vm_pass(lines.take(i)).1 <= vm_pass(lines).1,
    decreases lines.len() - i,
{
    if i < lines.len() {
        lemma_vm_pass_monotone(lines, i + 1);
        assert(lines.take(i + 1).drop_last() =~= lines.take(i));
    } else {
        assert(lines.take(i) =~= lines);
    }
}

/// A non-blank line appends the lines of its command to the translation of
/// the lines before it.
proof fn lemma_pass_push(lines: Seq<Seq<char>>, l: Seq<char>)
    requires
        !is_blank_or_comment(l),
    ensures
        vm_pass(lines.push(l)).0 == vm_pass(lines).0 + vm_step(l, vm_pass(lines).1).0,
{
    assert(lines.push(l).drop_last() =~= lines);
}

/// `n` copies of five lines are `5 * n` lines, line `x` being line `x % 5`
/// of the five.
proof fn lemma_repeat_five(ls: Seq<Seq<char>>, n: nat)
    requires
        ls.len() == 5,
    ensures
        repeat_lines(ls, n).len() == 5 * n,
        forall|x: int| 0 <= x < 5 * n ==> #[trigger] repeat_lines(ls, n)[x] == ls[x % 5],
    decreases n,
{
    if n > 0 {
        lemma_repeat_five(ls, (n - 1) as nat);
        let p = repeat_lines(ls, (n - 1) as nat);
        let r = repeat_lines(ls, n);
        assert(r == p + ls);
        assert forall|x: int| 0 <= x < 5 * n implies #[trigger] r[x] == ls[x % 5] by {
            if x < 5 * (n - 1) {
                assert(r[x] == p[x]);
            } else {
                assert(r[x] == ls[x - 5 * (n - 1)]);
                assert(x % 5 == x - 5 * (n - 1));
            }
        }
    }
}

/// `function f n` appends the label line `(f)` and then `n` times the five
/// lines `@SP`, `A=M`, `M=0`, `@SP`, `M=M+1` that push a zero: `1 + 5 * n`
/// lines, only the label when `n` is 0.
pub proof fn lemma_function_command(lines: Seq<Seq<char>>, l: Seq<char>)
    requires
        starts_with(l, "function"@),
        words(l).len() >= 3,
        parse_u16(words(l)[2]) is Some,
    ensures
        ({
            let b = vm_pass(lines).0;
            let o = vm_pass(lines.push(l)).0;
            let n = parse_u16(words(l)[2]).unwrap() as int;
            &&& o.len() == b.len() + 1 + 5 * n
            &&& o.subrange(0, b.len() as int) == b
            &&& o[b.len() as int] == "("@ + words(l)[1] + ")"@
            &&& forall|x: int|
                b.len() < x < o.len() ==> #[trigger] o[x] == seq!["@SP"@, "A=M"@, "M=0"@, "@SP"@, "M=M+1"@][(x - b.len() - 1) % 5]
        }),
{
    reveal_strlit("function");
    reveal_strlit("//");
    reveal_strlit("add");
    reveal_strlit("sub");
    reveal_strlit("neg");
    reveal_strlit("eq");
    reveal_strlit("lt");
    reveal_strlit("gt");
    reveal_strlit("and");
    reveal_strlit("or");
    reveal_strlit("not");
    reveal_strlit("push");
    reveal_strlit("pop");
    reveal_strlit("call");
    reveal_strlit("return");
    reveal_strlit("constant");
    reveal_strlit("local");
    reveal_strlit("argument");
    reveal_strlit("this");
    reveal_strlit("that");
    reveal_strlit("LCL");
    reveal_strlit("ARG");
    reveal_strlit("THIS");
    reveal_strlit("THAT");
    reveal_strlit("@");
    reveal_strlit("@LCL");
    reveal_strlit("@ARG");
    reveal_strlit("@THIS");
    reveal_strlit("@THAT");
    reveal_strlit("temp");
    reveal_strlit("pointer");
    reveal_strlit("static");
    lemma_line_start(l, "function"@);
    lemma_pass_push(lines, l);
    let b = vm_pass(lines).0;
    let o = vm_pass(lines.push(l)).0;
    let n = parse_u16(words(l)[2]).unwrap() as nat;
    let z = seq!["@SP"@, "A=M"@, "M=0"@, "@SP"@, "M=M+1"@];
    assert(push_zero_lines() == z);
    lemma_repeat_five(z, n);
    let f = function_lines(words(l)[1], n);
    assert(vm_step(l, vm_pass(lines).1).0 == f);
    assert(o == b + f);
    assert(o.subrange(0, b.len() as int) =~= b);
    assert forall|x: int| b.len() < x < o.len() implies #[trigger] o[x] == z[(x - b.len() - 1) % 5] by {
        assert(o[x] == f[x - b.len()]);
        assert(f[x - b.len()] == repeat_lines(z, n)[x - b.len() - 1]);
    }
}

/// The first character of a line that starts with `p` is `p`'s first.
proof fn lemma_line_start(l: Seq<char>, p: Seq<char>)
    requires
        p.len() > 0,
        starts_with(l, p),
    ensures
        l.len() > 0,
        l[0] == p[0],
        p.len() > 1 ==> l.len() > 1 && l[1] == p[1],
{
    assert(l.subrange(0, p.len() as int)[0] == l[0]);
    if p.len() > 1 {
        assert(l.subrange(0, p.len() as int)[1] == l[1]);
    }
}

/// `push s i` for a segment behind a pointer appends ten lines that read
/// the word at the segment's base plus `i`; the base register is LCL for
/// `local`, ARG for `argument`, THIS for `this` and THAT for `that`.
pub proof fn lemma_push_pointer_segment(lines: Seq<Seq<char>>, l: Seq<char>)
    requires
        starts_with(l, "push"@),
        words(l).len() >= 3,
        parse_u16(words(l)[2]) is Some,
    ensures
        words(l)[1] == "local"@ ==> vm_pass(lines.push(l)).0 == vm_pass(lines).0 + seq!["@"@ + words(l)[2], "D=A"@, "@LCL"@, "A=D+M"@, "D=M"@, "@SP"@, "A=M"@, "M=D"@, "@SP"@, "M=M+1"@],
        words(l)[1] == "argument"@ ==> vm_pass(lines.push(l)).0 == vm_pass(lines).0 + seq!["@"@ + words(l)[2], "D=A"@, "@ARG"@, "A=D+M"@, "D=M"@, "@SP"@, "A=M"@, "M=D"@, "@SP"@, "M=M+1"@],
        words(l)[1] == "this"@ ==> vm_pass(lines.push(l)).0 == vm_pass(lines).0 + seq!["@"@ + words(l)[2], "D=A"@, "@THIS"@, "A=D+M"@, "D=M"@, "@SP"@, "A=M"@, "M=D"@, "@SP"@, "M=M+1"@],
        words(l)[1] == "that"@ ==> vm_pass(lines.push(l)).0 == vm_pass(lines).0 + seq!["@"@ + words(l)[2], "D=A"@, "@THAT"@, "A=D+M"@, "D=M"@, "@SP"@, "A=M"@, "M=D"@, "@SP"@, "M=M+1"@],
{
    reveal_strlit("function");
    reveal_strlit("//");
    reveal_strlit("add");
    reveal_strlit("sub");
    reveal_strlit("neg");
    reveal_strlit("eq");
    reveal_strlit("lt");
    reveal_strlit("gt");
    reveal_strlit("and");
    reveal_strlit("or");
    reveal_strlit("not");
    reveal_strlit("push");
    reveal_strlit("pop");
    reveal_strlit("call");
    reveal_strlit("return");
    reveal_strlit("constant");
    reveal_strlit("local");
    reveal_strlit("argument");
    reveal_strlit("this");
    reveal_strlit("that");
    reveal_strlit("LCL");
    reveal_strlit("ARG");
    reveal_strlit("THIS");
    reveal_strlit("THAT");
    reveal_strlit("@");
    reveal_strlit("@LCL");
    reveal_strlit("@ARG");
    reveal_strlit("@THIS");
    reveal_strlit("@THAT");
    reveal_strlit("temp");
    reveal_strlit("pointer");
    reveal_strlit("static");
    lemma_line_start(l, "push"@);
    lemma_pass_push(lines, l);
    let w = words(l);
    let k = vm_pass(lines).1;
    if w[1] == "local"@ {
        assert("local"@[0] != "constant"@[0]);
        assert("that"@[2] != "this"@[2]);
        assert(segment_base_of(w[1]) == "LCL"@);
        assert("@"@ + "LCL"@ =~= "@LCL"@);
        assert(vm_step(l, k).0 == push_segment_lines(w[1], w[2]));
    }
    if w[1] == "argument"@ {
        assert("argument"@[0] != "constant"@[0]);
        assert("that"@[2] != "this"@[2]);
        assert(segment_base_of(w[1]) == "ARG"@);
        assert("@"@ + "ARG"@ =~= "@ARG"@);
        assert(vm_step(l, k).0 == push_segment_lines(w[1], w[2]));
    }
    if w[1] == "this"@ {
        assert("this"@[0] != "constant"@[0]);
        assert("that"@[2] != "this"@[2]);
        assert(segment_base_of(w[1]) == "THIS"@);
        assert("@"@ + "THIS"@ =~= "@THIS"@);
        assert(vm_step(l, k).0 == push_segment_lines(w[1], w[2]));
    }
    if w[1] == "that"@ {
        assert("that"@[0] != "constant"@[0]);
        assert("that"@[2] != "this"@[2]);
        assert(segment_base_of(w[1]) == "THAT"@);
        assert("@"@ + "THAT"@ =~= "@THAT"@);
        assert(vm_step(l, k).0 == push_segment_lines(w[1], w[2]));
    }
}

/// `pop s i` for a segment behind a pointer appends thirteen lines that
/// store the top of the stack at the segment's base plus `i`; the base
/// register is LCL for `local`, ARG for `argument`, THIS for `this` and THAT
/// for `that`.
pub proof fn lemma_pop_pointer_segment(lines: Seq<Seq<char>>, l: Seq<char>)
    requires
        starts_with(l, "pop"@),
        words(l).len() >= 3,
        parse_u16(words(l)[2]) is Some,
    ensures
        words(l)[1] == "local"@ ==> vm_pass(lines.push(l)).0 == vm_pass(lines).0 + seq!["@"@ + words(l)[2], "D=A"@, "@LCL"@, "D=D+M"@, "@R13"@, "M=D"@, "@SP"@, "M=M-1"@, "A=M"@, "D=M"@, "@R13"@, "A=M"@, "M=D"@],
        words(l)[1] == "argument"@ ==> vm_pass(lines.push(l)).0 == vm_pass(lines).0 + seq!["@"@ + words(l)[2], "D=A"@, "@ARG"@, "D=D+M"@, "@R13"@, "M=D"@, "@SP"@, "M=M-1"@, "A=M"@, "D=M"@, "@R13"@, "A=M"@, "M=D"@],
        words(l)[1] == "this"@ ==> vm_pass(lines.push(l)).0 == vm_pass(lines).0 + seq!["@"@ + words(l)[2], "D=A"@, "@THIS"@, "D=D+M"@, "@R13"@, "M=D"@, "@SP"@, "M=M-1"@, "A=M"@, "D=M"@, "@R13"@, "A=M"@, "M=D"@],
        words(l)[1] == "that"@ ==> vm_pass(lines.push(l)).0 == vm_pass(lines).0 + seq!["@"@ + words(l)[2], "D=A"@, "@THAT"@, "D=D+M"@, "@R13"@, "M=D"@, "@SP"@, "M=M-1"@, "A=M"@, "D=M"@, "@R13"@, "A=M"@, "M=D"@],
{
    reveal_strlit("function");
    reveal_strlit("//");
    reveal_strlit("add");
    reveal_strlit("sub");
    reveal_strlit("neg");
    reveal_strlit("eq");
    reveal_strlit("lt");
    reveal_strlit("gt");
    reveal_strlit("and");
    reveal_strlit("or");
    reveal_strlit("not");
    reveal_strlit("push");
    reveal_strlit("pop");
    reveal_strlit("call");
    reveal_strlit("return");
    reveal_strlit("constant");
    reveal_strlit("local");
    reveal_strlit("argument");
    reveal_strlit("this");
    reveal_strlit("that");
    reveal_strlit("LCL");
    reveal_strlit("ARG");
    reveal_strlit("THIS");
    reveal_strlit("THAT");
    reveal_strlit("@");
    reveal_strlit("@LCL");
    reveal_strlit("@ARG");
    reveal_strlit("@THIS");
    reveal_strlit("@THAT");
    reveal_strlit("temp");
    reveal_strlit("pointer");
    reveal_strlit("static");
    lemma_line_start(l, "pop"@);
    lemma_pass_push(lines, l);
    let w = words(l);
    let k = vm_pass(lines).1;
    if w[1] == "local"@ {
        assert("local"@[0] != "constant"@[0]);
        assert("that"@[2] != "this"@[2]);
        assert(segment_base_of(w[1]) == "LCL"@);
        assert("@"@ + "LCL"@ =~= "@LCL"@);
        assert(vm_step(l, k).0 == pop_segment_lines(w[1], w[2]));
    }
    if w[1] == "argument"@ {
        assert("argument"@[0] != "constant"@[0]);
        assert("that"@[2] != "this"@[2]);
        assert(segment_base_of(w[1]) == "ARG"@);
        assert("@"@ + "ARG"@ =~= "@ARG"@);
        assert(vm_step(l, k).0 == pop_segment_lines(w[1], w[2]));
    }
    if w[1] == "this"@ {
        assert("this"@[0] != "constant"@[0]);
        assert("that"@[2] != "this"@[2]);
        assert(segment_base_of(w[1]) == "THIS"@);
        assert("@"@ + "THIS"@ =~= "@THIS"@);
        assert(vm_step(l, k).0 == pop_segment_lines(w[1], w[2]));
    }
    if w[1] == "that"@ {
        assert("that"@[0] != "constant"@[0]);
        assert("that"@[2] != "this"@[2]);
        assert(segment_base_of(w[1]) == "THAT"@);
        assert("@"@ + "THAT"@ =~= "@THAT"@);
        assert(vm_step(l, k).0 == pop_segment_lines(w[1], w[2]));
    }
}

/// `push constant i` appends seven lines that load `i` (written in decimal)
/// into D and push it; `push` of `temp`, `pointer` or `static` entry `i`
/// appends seven lines that push the word at address 5 + i, 3 + i or
/// 16 + i respectively.
pub proof fn lemma_push_constant_and_fixed(lines: Seq<Seq<char>>, l: Seq<char>)
    requires
        starts_with(l, "push"@),
        words(l).len() >= 3,
        parse_u16(words(l)[2]) is Some,
    ensures
        ({
            let i = parse_u16(words(l)[2]).unwrap();
            let b = vm_pass(lines).0;
            let o = vm_pass(lines.push(l)).0;
            &&& words(l)[1] == "constant"@ ==> o == b + seq![
                "@"@ + decimal(i as nat),
                "D=A"@,
                "@SP"@,
                "A=M"@,
                "M=D"@,
                "@SP"@,
                "M=M+1"@,
            ]
            &&& words(l)[1] == "temp"@ ==> o == b + seq!["@"@ + decimal((5 + i) as nat), "D=M"@, "@SP"@, "A=M"@, "M=D"@, "@SP"@, "M=M+1"@]
            &&& words(l)[1] == "pointer"@ ==> o == b + seq!["@"@ + decimal((3 + i) as nat), "D=M"@, "@SP"@, "A=M"@, "M=D"@, "@SP"@, "M=M+1"@]
            &&& words(l)[1] == "static"@ ==> o == b + seq!["@"@ + decimal((16 + i) as nat), "D=M"@, "@SP"@, "A=M"@, "M=D"@, "@SP"@, "M=M+1"@]
        }),
{
    reveal_strlit("function");
    reveal_strlit("//");
    reveal_strlit("add");
    reveal_strlit("sub");
    reveal_strlit("neg");
    reveal_strlit("eq");
    reveal_strlit("lt");
    reveal_strlit("gt");
    reveal_strlit("and");
    reveal_strlit("or");
    reveal_strlit("not");
    reveal_strlit("push");
    reveal_strlit("pop");
    reveal_strlit("call");
    reveal_strlit("return");
    reveal_strlit("constant");
    reveal_strlit("local");
    reveal_strlit("argument");
    reveal_strlit("this");
    reveal_strlit("that");
    reveal_strlit("temp");
    reveal_strlit("pointer");
    reveal_strlit("static");
    lemma_line_start(l, "push"@);
    lemma_pass_push(lines, l);
    let w = words(l);
    let k = vm_pass(lines).1;
    if w[1] == "temp"@ {
        assert("temp"@[1] != "this"@[1] && "temp"@[1] != "that"@[1]);
        assert(w[1] != "constant"@);
        assert(!is_pointer_segment(w[1]));
        assert(fixed_base(w[1]) == Some(5u16));
    }
    if w[1] == "pointer"@ {
        assert(w[1] != "constant"@);
        assert(!is_pointer_segment(w[1]));
        assert(fixed_base(w[1]) == Some(3u16));
    }
    if w[1] == "static"@ {
        assert(w[1] != "constant"@);
        assert(!is_pointer_segment(w[1]));
        assert(fixed_base(w[1]) == Some(16u16));
    }
}

/// `pop` into `temp`, `pointer` or `static` entry `i` appends six lines
/// that pop the top of the stack into address 5 + i, 3 + i or 16 + i
/// respectively.
pub proof fn lemma_pop_fixed(lines: Seq<Seq<char>>, l: Seq<char>)
    requires
        starts_with(l, "pop"@),
        words(l).len() >= 3,
        parse_u16(words(l)[2]) is Some,
    ensures
        ({
            let i = parse_u16(words(l)[2]).unwrap();
            let b = vm_pass(lines).0;
            let o = vm_pass(lines.push(l)).0;
            &&& words(l)[1] == "temp"@ ==> o == b + seq!["@SP"@, "M=M-1"@, "A=M"@, "D=M"@, "@"@ + decimal((5 + i) as nat), "M=D"@]
            &&& words(l)[1] == "pointer"@ ==> o == b + seq!["@SP"@, "M=M-1"@, "A=M"@, "D=M"@, "@"@ + decimal((3 + i) as nat), "M=D"@]
            &&& words(l)[1] == "static"@ ==> o == b + seq!["@SP"@, "M=M-1"@, "A=M"@, "D=M"@, "@"@ + decimal((16 + i) as nat), "M=D"@]
        }),
{
    reveal_strlit("function");
    reveal_strlit("//");
    reveal_strlit("add");
    reveal_strlit("sub");
    reveal_strlit("neg");
    reveal_strlit("eq");
    reveal_strlit("lt");
    reveal_strlit("gt");
    reveal_strlit("and");
    reveal_strlit("or");
    reveal_strlit("not");
    reveal_strlit("push");
    reveal_strlit("pop");
    reveal_strlit("call");
    reveal_strlit("return");
    reveal_strlit("constant");
    reveal_strlit("local");
    reveal_strlit("argument");
    reveal_strlit("this");
    reveal_strlit("that");
    reveal_strlit("temp");
    reveal_strlit("pointer");
    reveal_strlit("static");
    lemma_line_start(l, "pop"@);
    lemma_pass_push(lines, l);
    let w = words(l);
    if w[1] == "temp"@ {
        assert("temp"@[1] != "this"@[1] && "temp"@[1] != "that"@[1]);
        assert(!is_pointer_segment(w[1]));
        assert(fixed_base(w[1]) == Some(5u16));
    }
    if w[1] == "pointer"@ {
        assert(!is_pointer_segment(w[1]));
        assert(fixed_base(w[1]) == Some(3u16));
    }
    if w[1] == "static"@ {
        assert(!is_pointer_segment(w[1]));
        assert(fixed_base(w[1]) == Some(16u16));
    }
}

} // verus!
