//! The Hack assembler: translates assembly text into 16-bit machine words in
//! two passes, the first collecting label addresses, the second encoding
//! instructions and allocating variables from address 16 on.
use vstd::prelude::*;
use vstd::hash_map::StringHashMap;
use crate::text::{
    decimal, eq_lit, find_char, first_index, is_blank_or_comment, lemma_parse_decimal, parse_u16, parse_u16_range, push_chars,
    source_lines, starts_with, starts_with_lit, sub_vec, trim, trim_vec, trimmed_lines, view_lines,
};

verus! {

// ---------------------------------------------------------------------------
// Instruction fields
// ---------------------------------------------------------------------------

/// The seven bits `a c1 c2 c3 c4 c5 c6` of a computation mnemonic.
pub open spec fn comp_bits(s: Seq<char>) -> Option<u16> {
    if s == "0"@ {
        Some(0b0_101010)
    } else if s == "1"@ {
        Some(0b0_111111)
    } else if s == "-1"@ {
        Some(0b0_111010)
    } else if s == "D"@ {
        Some(0b0_001100)
    } else if s == "A"@ {
        Some(0b0_110000)
    } else if s == "!D"@ {
        Some(0b0_001101)
    } else if s == "!A"@ {
        Some(0b0_110001)
    } else if s == "-D"@ {
        Some(0b0_001111)
    } else if s == "-A"@ {
        Some(0b0_110011)
    } else if s == "D+1"@ {
        Some(0b0_011111)
    } else if s == "A+1"@ {
        Some(0b0_110111)
    } else if s == "D-1"@ {
        Some(0b0_001110)
    } else if s == "A-1"@ {
        Some(0b0_110010)
    } else if s == "D+A"@ {
        Some(0b0_000010)
    } else if s == "D-A"@ {
        Some(0b0_010011)
    } else if s == "A-D"@ {
        Some(0b0_000111)
    } else if s == "D&A"@ {
        Some(0b0_000000)
    } else if s == "D|A"@ {
        Some(0b0_010101)
    } else if s == "M"@ {
        Some(0b1_110000)
    } else if s == "!M"@ {
        Some(0b1_110001)
    } else if s == "-M"@ {
        Some(0b1_110011)
    } else if s == "M+1"@ {
        Some(0b1_110111)
    } else if s == "M-1"@ {
        Some(0b1_110010)
    } else if s == "D+M"@ {
        Some(0b1_000010)
    } else if s == "D-M"@ {
        Some(0b1_010011)
    } else if s == "M-D"@ {
        Some(0b1_000111)
    } else if s == "D&M"@ {
        Some(0b1_000000)
    } else if s == "D|M"@ {
        Some(0b1_010101)
    } else {
        None
    }
}

/// The three destination bits `d1 d2 d3` of a destination mnemonic (empty: none).
pub open spec fn dest_bits(s: Seq<char>) -> Option<u16> {
    if s == ""@ {
        Some(0b000)
    } else if s == "M"@ {
        Some(0b001)
    } else if s == "D"@ {
        Some(0b010)
    } else if s == "MD"@ {
        Some(0b011)
    } else if s == "A"@ {
        Some(0b100)
    } else if s == "AM"@ {
        Some(0b101)
    } else if s == "AD"@ {
        Some(0b110)
    } else if s == "AMD"@ {
        Some(0b111)
    } else {
        None
    }
}

/// The three jump bits `j1 j2 j3` of a jump mnemonic (empty: never).
pub open spec fn jump_bits(s: Seq<char>) -> Option<u16> {
    if s == ""@ {
        Some(0b000)
    } else if s == "JGT"@ {
        Some(0b001)
    } else if s == "JEQ"@ {
        Some(0b010)
    } else if s == "JGE"@ {
        Some(0b011)
    } else if s == "JLT"@ {
        Some(0b100)
    } else if s == "JNE"@ {
        Some(0b101)
    } else if s == "JLE"@ {
        Some(0b110)
    } else if s == "JMP"@ {
        Some(0b111)
    } else {
        None
    }
}

/// The destination, computation and jump parts of a C-instruction line,
/// each trimmed: the destination is what stands before the first `=` (empty
/// when there is none), the jump what stands after the first `;` of the rest.
pub open spec fn c_fields(line: Seq<char>) -> (Seq<char>, Seq<char>, Seq<char>) {
    let e = first_index(line, '=');
    let dest = if e < line.len() {
        line.subrange(0, e)
    } else {
        Seq::<char>::empty()
    };
    let rest = if e < line.len() {
        line.subrange(e + 1, line.len() as int)
    } else {
        line
    };
    let s = first_index(rest, ';');
    let comp = if s < rest.len() {
        rest.subrange(0, s)
    } else {
        rest
    };
    let jump = if s < rest.len() {
        rest.subrange(s + 1, rest.len() as int)
    } else {
        Seq::<char>::empty()
    };
    (trim(dest), trim(comp), trim(jump))
}

/// All three parts of a C-instruction line are known mnemonics.
pub open spec fn c_instruction_ok(line: Seq<char>) -> bool {
    let (dest, comp, jump) = c_fields(line);
    &&& comp_bits(comp) is Some
    &&& dest_bits(dest) is Some
    &&& jump_bits(jump) is Some
}

/// The machine word of a C-instruction: `111 a cccccc ddd jjj`.
pub open spec fn c_word(line: Seq<char>) -> u16 {
    let (dest, comp, jump) = c_fields(line);
    0xe000u16 | (comp_bits(comp).unwrap() << 6u16) | (dest_bits(dest).unwrap() << 3u16) | jump_bits(
        jump,
    ).unwrap()
}

/// Encodes a computation mnemonic into bits 12..6 of a C-instruction.
fn encode_comp(comp: &Vec<char>) -> (r: u16)
    requires
        comp_bits(comp@) is Some,
    ensures
        r == comp_bits(comp@).unwrap() << 6u16,
{
    let bits: u16 = if eq_lit(comp, "0") {
        0b0_101010
    } else if eq_lit(comp, "1") {
        0b0_111111
    } else if eq_lit(comp, "-1") {
        0b0_111010
    } else if eq_lit(comp, "D") {
        0b0_001100
    } else if eq_lit(comp, "A") {
        0b0_110000
    } else if eq_lit(comp, "!D") {
        0b0_001101
    } else if eq_lit(comp, "!A") {
        0b0_110001
    } else if eq_lit(comp, "-D") {
        0b0_001111
    } else if eq_lit(comp, "-A") {
        0b0_110011
    } else if eq_lit(comp, "D+1") {
        0b0_011111
    } else if eq_lit(comp, "A+1") {
        0b0_110111
    } else if eq_lit(comp, "D-1") {
        0b0_001110
    } else if eq_lit(comp, "A-1") {
        0b0_110010
    } else if eq_lit(comp, "D+A") {
        0b0_000010
    } else if eq_lit(comp, "D-A") {
        0b0_010011
    } else if eq_lit(comp, "A-D") {
        0b0_000111
    } else if eq_lit(comp, "D&A") {
        0b0_000000
    } else if eq_lit(comp, "D|A") {
        0b0_010101
    } else if eq_lit(comp, "M") {
        0b1_110000
    } else if eq_lit(comp, "!M") {
        0b1_110001
    } else if eq_lit(comp, "-M") {
        0b1_110011
    } else if eq_lit(comp, "M+1") {
        0b1_110111
    } else if eq_lit(comp, "M-1") {
        0b1_110010
    } else if eq_lit(comp, "D+M") {
        0b1_000010
    } else if eq_lit(comp, "D-M") {
        0b1_010011
    } else if eq_lit(comp, "M-D") {
        0b1_000111
    } else if eq_lit(comp, "D&M") {
        0b1_000000
    } else if eq_lit(comp, "D|M") {
        0b1_010101
    } else {
        0
    };
    let a = (bits >> 6u16) & 1;
    let c = bits & 0b111111;
    assert(bits < 128);
    assert(bits < 128 ==> ((((bits >> 6u16) & 1) << 12u16) | ((bits & 0b111111) << 6u16)) == bits
        << 6u16) by (bit_vector);
    (a << 12u16) | (c << 6u16)
}

/// Encodes a destination mnemonic into bits 5..3 of a C-instruction.
fn encode_dest(dest: &Vec<char>) -> (r: u16)
    requires
        dest_bits(dest@) is Some,
    ensures
        r == dest_bits(dest@).unwrap() << 3u16,
{
    let bits: u16 = if eq_lit(dest, "") {
        0b000
    } else if eq_lit(dest, "M") {
        0b001
    } else if eq_lit(dest, "D") {
        0b010
    } else if eq_lit(dest, "MD") {
        0b011
    } else if eq_lit(dest, "A") {
        0b100
    } else if eq_lit(dest, "AM") {
        0b101
    } else if eq_lit(dest, "AD") {
        0b110
    } else if eq_lit(dest, "AMD") {
        0b111
    } else {
        0
    };
    bits << 3u16
}

/// Encodes a jump mnemonic into bits 2..0 of a C-instruction.
fn encode_jump(jump: &Vec<char>) -> (r: u16)
    requires
        jump_bits(jump@) is Some,
    ensures
        r == jump_bits(jump@).unwrap(),
{
    let bits: u16 = if eq_lit(jump, "") {
        0b000
    } else if eq_lit(jump, "JGT") {
        0b001
    } else if eq_lit(jump, "JEQ") {
        0b010
    } else if eq_lit(jump, "JGE") {
        0b011
    } else if eq_lit(jump, "JLT") {
        0b100
    } else if eq_lit(jump, "JNE") {
        0b101
    } else if eq_lit(jump, "JLE") {
        0b110
    } else if eq_lit(jump, "JMP") {
        0b111
    } else {
        0
    };
    bits
}

/// Encodes one C-instruction line.
fn parse_c(line: &Vec<char>) -> (r: u16)
    requires
        c_instruction_ok(line@),
    ensures
        r == c_word(line@),
{
    let len = line.len();
    let e = find_char(line, '=');
    let dest;
    let rest;
    if e < len {
        dest = sub_vec(line, 0, e);
        rest = sub_vec(line, e + 1, len);
    } else {
        dest = Vec::new();
        rest = sub_vec(line, 0, len);
        assert(rest@ =~= line@);
    }
    let rlen = rest.len();
    let s = find_char(&rest, ';');
    let comp;
    let jump;
    if s < rlen {
        comp = sub_vec(&rest, 0, s);
        jump = sub_vec(&rest, s + 1, rlen);
    } else {
        comp = sub_vec(&rest, 0, rlen);
        jump = Vec::new();
        assert(comp@ =~= rest@);
    }
    assert(dest@ =~= Seq::<char>::empty() || e < len);
    assert(jump@ =~= Seq::<char>::empty() || s < rlen);
    let c = encode_comp(&trim_vec(&comp));
    let d = encode_dest(&trim_vec(&dest));
    let j = encode_jump(&trim_vec(&jump));
    0b1110_0000_0000_0000 | c | d | j
}

// ---------------------------------------------------------------------------
// Symbols
// ---------------------------------------------------------------------------

/// The symbols every program starts with: R0..R15, SCREEN, KBD, SP, LCL,
/// ARG, THIS, THAT.
pub open spec fn predefined_symbols() -> Map<Seq<char>, u16> {
    Map::<Seq<char>, u16>::empty()
        .insert("R0"@, 0).insert("R1"@, 1).insert("R2"@, 2).insert("R3"@, 3).insert("R4"@, 4)
        .insert("R5"@, 5).insert("R6"@, 6).insert("R7"@, 7).insert("R8"@, 8).insert("R9"@, 9)
        .insert("R10"@, 10).insert("R11"@, 11).insert("R12"@, 12).insert("R13"@, 13)
        .insert("R14"@, 14).insert("R15"@, 15).insert("SCREEN"@, 16384).insert("KBD"@, 24576)
        .insert("SP"@, 0).insert("LCL"@, 1).insert("ARG"@, 2).insert("THIS"@, 3).insert("THAT"@, 4)
}

/// A table holding the predefined symbols.
fn populate_table() -> (table: StringHashMap<u16>)
    ensures
        table@ == predefined_symbols(),
{
    let mut table = StringHashMap::<u16>::new();
    table.insert("R0".to_owned(), 0);
    table.insert("R1".to_owned(), 1);
    table.insert("R2".to_owned(), 2);
    table.insert("R3".to_owned(), 3);
    table.insert("R4".to_owned(), 4);
    table.insert("R5".to_owned(), 5);
    table.insert("R6".to_owned(), 6);
    table.insert("R7".to_owned(), 7);
    table.insert("R8".to_owned(), 8);
    table.insert("R9".to_owned(), 9);
    table.insert("R10".to_owned(), 10);
    table.insert("R11".to_owned(), 11);
    table.insert("R12".to_owned(), 12);
    table.insert("R13".to_owned(), 13);
    table.insert("R14".to_owned(), 14);
    table.insert("R15".to_owned(), 15);
    table.insert("SCREEN".to_owned(), 16384);
    table.insert("KBD".to_owned(), 24576);
    table.insert("SP".to_owned(), 0);
    table.insert("LCL".to_owned(), 1);
    table.insert("ARG".to_owned(), 2);
    table.insert("THIS".to_owned(), 3);
    table.insert("THAT".to_owned(), 4);
    table
}

// ---------------------------------------------------------------------------
// The two passes
// ---------------------------------------------------------------------------

/// A label declaration `(NAME)`.
pub open spec fn is_label(l: Seq<char>) -> bool {
    l.len() > 0 && l[0] == '(' && l.last() == ')'
}

/// The name that a label declaration declares.
pub open spec fn label_of(l: Seq<char>) -> Seq<char> {
    l.subrange(1, l.len() - 1)
}

/// The first pass over `lines`: the symbol table (predefined symbols, then
/// each label bound to the number of instruction lines before it) and the
/// number of instruction lines counted. Every line that is neither skipped
/// nor a label declaration counts as an instruction.
pub open spec fn first_pass(lines: Seq<Seq<char>>) -> (Map<Seq<char>, u16>, nat)
    decreases lines.len(),
{
    if lines.len() == 0 {
        (predefined_symbols(), 0)
    } else {
        let (t, n) = first_pass(lines.drop_last());
        let l = lines.last();
        if is_blank_or_comment(l) {
            (t, n)
        } else if is_label(l) {
            (t.insert(label_of(l), n as u16), n)
        } else {
            (t, n + 1)
        }
    }
}

/// A line that the second pass encodes as a C-instruction.
pub open spec fn is_c_line(l: Seq<char>) -> bool {
    !is_blank_or_comment(l) && l[0] != '(' && l[0] != '@'
}

/// The second pass over `lines`, starting from the symbol table `t0`: the
/// final symbol table, the next free variable address (16 at the start),
/// and the machine words. Lines starting with `(` emit nothing. `@` followed
/// by a decimal number emits the number; `@` followed by anything else emits
/// the symbol's address, binding an unknown symbol to the next free address
/// first. Every other line is a C-instruction.
pub open spec fn second_pass(lines: Seq<Seq<char>>, t0: Map<Seq<char>, u16>) -> (
    Map<Seq<char>, u16>,
    nat,
    Seq<u16>,
)
    decreases lines.len(),
{
    if lines.len() == 0 {
        (t0, 16, Seq::<u16>::empty())
    } else {
        let (t, v, out) = second_pass(lines.drop_last(), t0);
        let l = lines.last();
        if is_blank_or_comment(l) || l[0] == '(' {
            (t, v, out)
        } else if l[0] == '@' {
            let sym = l.drop_first();
            match parse_u16(sym) {
                Some(k) => (t, v, out.push(k)),
                None => if t.contains_key(sym) {
                    (t, v, out.push(t[sym]))
                } else {
                    (t.insert(sym, v as u16), v + 1, out.push(v as u16))
                },
            }
        } else {
            (t, v, out.push(c_word(l)))
        }
    }
}

/// The machine words of an assembly source.
pub open spec fn assembled(source: Seq<char>) -> Seq<u16> {
    let lines = trimmed_lines(source);
    second_pass(lines, first_pass(lines).0).2
}

/// The sources the assembler accepts: every C-instruction line is made of
/// known mnemonics, and neither the instruction count nor the variable
/// addresses pass 0xFFFF.
pub open spec fn assemblable(source: Seq<char>) -> bool {
    let lines = trimmed_lines(source);
    &&& forall|i: int| 0 <= i < lines.len() && is_c_line(#[trigger] lines[i]) ==> c_instruction_ok(lines[i])
    &&& first_pass(lines).1 <= 0xffff
    &&& second_pass(lines, first_pass(lines).0).1 <= 0xffff
}

proof fn lemma_first_pass_monotone(lines: Seq<Seq<char>>, i: int)
    requires
        0 <= i <= lines.len(),
    ensures
        first_pass(lines.take(i)).1 <= first_pass(lines).1,
    decreases lines.len() - i,
{
    if i < lines.len() {
        lemma_first_pass_monotone(lines, i + 1);
        assert(lines.take(i + 1).drop_last() =~= lines.take(i));
    } else {
        assert(lines.take(i) =~= lines);
    }
}

proof fn lemma_second_pass_monotone(lines: Seq<Seq<char>>, t0: Map<Seq<char>, u16>, i: int)
    requires
        0 <= i <= lines.len(),
    ensures
        second_pass(lines.take(i), t0).1 <= second_pass(lines, t0).1,
    decreases lines.len() - i,
{
    if i < lines.len() {
        lemma_second_pass_monotone(lines, t0, i + 1);
        assert(lines.take(i + 1).drop_last() =~= lines.take(i));
    } else {
        assert(lines.take(i) =~= lines);
    }
}

// ---------------------------------------------------------------------------
// Laws
// ---------------------------------------------------------------------------

/// A line that the first pass counts as an instruction.
pub open spec fn counts_as_instruction(l: Seq<char>) -> bool {
    !is_blank_or_comment(l) && !is_label(l)
}

/// The number of lines of `lines` that the first pass counts as instructions.
pub open spec fn count_instructions(lines: Seq<Seq<char>>) -> nat
    decreases lines.len(),
{
    if lines.len() == 0 {
        0
    } else {
        count_instructions(lines.drop_last()) + if counts_as_instruction(lines.last()) {
            1nat
        } else {
            0nat
        }
    }
}

/// A line for which the second pass emits one word.
pub open spec fn emits_word(l: Seq<char>) -> bool {
    !is_blank_or_comment(l) && l[0] != '('
}

/// The number of lines of `lines` for which the second pass emits a word.
pub open spec fn count_words(lines: Seq<Seq<char>>) -> nat
    decreases lines.len(),
{
    if lines.len() == 0 {
        0
    } else {
        count_words(lines.drop_last()) + if emits_word(lines.last()) {
            1nat
        } else {
            0nat
        }
    }
}

/// Blank lines and comments change nothing: inserting one anywhere leaves
/// both passes, and so the machine words, as they were.
pub proof fn lemma_blank_lines_ignored(
    lines: Seq<Seq<char>>,
    k: int,
    c: Seq<char>,
    t0: Map<Seq<char>, u16>,
)
    requires
        0 <= k <= lines.len(),
        is_blank_or_comment(c),
    ensures
        first_pass(lines.insert(k, c)) == first_pass(lines),
        second_pass(lines.insert(k, c), t0) == second_pass(lines, t0),
    decreases lines.len(),
{
    let m = lines.insert(k, c);
    if k == lines.len() {
        assert(m.drop_last() =~= lines);
        assert(m.last() == c);
    } else {
        assert(m.drop_last() =~= lines.drop_last().insert(k, c));
        assert(m.last() == lines.last());
        lemma_blank_lines_ignored(lines.drop_last(), k, c, t0);
    }
}

/// The first pass counts exactly the instruction lines.
pub proof fn lemma_first_pass_counts(lines: Seq<Seq<char>>)
    ensures
        first_pass(lines).1 == count_instructions(lines),
    decreases lines.len(),
{
    if lines.len() > 0 {
        lemma_first_pass_counts(lines.drop_last());
    }
}

/// The assembler emits exactly one word for each line that is neither
/// blank, a comment, nor starts with `(`.
pub proof fn lemma_one_word_per_instruction(lines: Seq<Seq<char>>, t0: Map<Seq<char>, u16>)
    ensures
        second_pass(lines, t0).2.len() == count_words(lines),
    decreases lines.len(),
{
    if lines.len() > 0 {
        lemma_one_word_per_instruction(lines.drop_last(), t0);
    }
}

/// The second pass only adds symbols: what the starting table binds stays
/// bound to the same address.
pub proof fn lemma_second_pass_keeps_symbols(
    lines: Seq<Seq<char>>,
    t0: Map<Seq<char>, u16>,
    name: Seq<char>,
)
    requires
        t0.contains_key(name),
    ensures
        second_pass(lines, t0).0.contains_key(name),
        second_pass(lines, t0).0[name] == t0[name],
    decreases lines.len(),
{
    if lines.len() > 0 {
        lemma_second_pass_keeps_symbols(lines.drop_last(), t0, name);
    }
}

/// A label is bound to the number of instruction lines before its last
/// declaration.
pub proof fn lemma_label_address(lines: Seq<Seq<char>>, k: int)
    requires
        0 <= k < lines.len(),
        is_label(lines[k]),
        forall|j: int|
            k < j < lines.len() && is_label(#[trigger] lines[j]) ==> label_of(lines[j]) != label_of(
                lines[k],
            ),
        count_instructions(lines) <= 0xffff,
    ensures
        first_pass(lines).0.contains_key(label_of(lines[k])),
        first_pass(lines).0[label_of(lines[k])] == count_instructions(lines.take(k)),
    decreases lines.len(),
{
    lemma_count_instructions_prefix(lines, k);
    if k == lines.len() - 1 {
        assert(lines.drop_last() =~= lines.take(k));
        lemma_first_pass_counts(lines.take(k));
        assert(!is_blank_or_comment(lines[k])) by {
            if starts_with(lines[k], "//"@) {
                reveal_strlit("//");
                assert(lines[k][0] == lines[k].subrange(0, 2)[0]);
            }
        }
    } else {
        let d = lines.drop_last();
        assert forall|j: int| k < j < d.len() && is_label(#[trigger] d[j]) implies label_of(d[j])
            != label_of(d[k]) by {
            assert(d[j] == lines[j]);
        }
        assert(d[k] == lines[k]);
        assert(d.take(k) =~= lines.take(k));
        lemma_count_instructions_prefix(lines, lines.len() - 1);
        assert(lines.take(lines.len() - 1) =~= d);
        lemma_label_address(d, k);
        let l = lines.last();
        if is_label(l) && !is_blank_or_comment(l) {
            assert(label_of(lines[lines.len() - 1]) != label_of(lines[k]));
        }
    }
}

proof fn lemma_count_instructions_prefix(lines: Seq<Seq<char>>, k: int)
    requires
        0 <= k <= lines.len(),
    ensures
        count_instructions(lines.take(k)) <= count_instructions(lines),
    decreases lines.len() - k,
{
    if k < lines.len() {
        lemma_count_instructions_prefix(lines, k + 1);
        assert(lines.take(k + 1).drop_last() =~= lines.take(k));
    } else {
        assert(lines.take(k) =~= lines);
    }
}

/// A reference `@NAME` to a declared label emits the label's address: the
/// number of instruction lines before the label's last declaration.
pub proof fn lemma_label_reference(lines: Seq<Seq<char>>, k: int, j: int)
    requires
        0 <= k < lines.len(),
        0 <= j < lines.len(),
        is_label(lines[k]),
        forall|i: int|
            k < i < lines.len() && is_label(#[trigger] lines[i]) ==> label_of(lines[i]) != label_of(
                lines[k],
            ),
        count_instructions(lines) <= 0xffff,
        lines[j] == seq!['@'] + label_of(lines[k]),
        parse_u16(label_of(lines[k])) is None,
    ensures
        second_pass(lines.take(j + 1), first_pass(lines).0).2.last() == count_instructions(
            lines.take(k),
        ),
{
    let name = label_of(lines[k]);
    let t0 = first_pass(lines).0;
    lemma_label_address(lines, k);
    let p = lines.take(j + 1);
    assert(p.drop_last() =~= lines.take(j));
    assert(p.last() == lines[j]);
    let l = lines[j];
    assert(l.len() > 0 && l[0] == '@');
    assert(l.drop_first() =~= name);
    assert(!is_blank_or_comment(l)) by {
        if starts_with(l, "//"@) {
            reveal_strlit("//");
            assert(l[0] == l.subrange(0, 2)[0]);
        }
    }
    lemma_second_pass_keeps_symbols(lines.take(j), t0, name);
}

/// A `String` with the characters of `v`.
fn string_of(v: &Vec<char>) -> (s: String)
    ensures
        s@ == v@,
{
    let mut s = String::new();
    push_chars(&mut s, v);
    s
}

/// The first pass: the symbol table with every label bound to its address.
fn first_scan(lines: &Vec<Vec<char>>) -> (table: StringHashMap<u16>)
    requires
        first_pass(view_lines(lines@)).1 <= 0xffff,
    ensures
        table@ == first_pass(view_lines(lines@)).0,
{
    let ghost ls = view_lines(lines@);
    let mut table = populate_table();
    let mut line_number: u16 = 0;
    let mut i: usize = 0;
    assert(ls.take(0) =~= Seq::<Seq<char>>::empty());
    while i < lines.len()
        invariant
            i <= lines.len(),
            ls == view_lines(lines@),
            first_pass(ls).1 <= 0xffff,
            (table@, line_number as nat) == first_pass(ls.take(i as int)),
        decreases lines.len() - i,
    {
        let line = &lines[i];
        assert(line@ == ls[i as int]);
        assert(ls.take(i + 1).drop_last() =~= ls.take(i as int));
        assert(ls.take(i + 1).last() == ls[i as int]);
        proof {
            lemma_first_pass_monotone(ls, i + 1);
        }
        i = i + 1;
        if line.len() == 0 || starts_with_lit(line, "//") {
            continue;
        }
        if line[0] == '(' && line[line.len() - 1] == ')' {
            let label = sub_vec(line, 1, line.len() - 1);
            table.insert(string_of(&label), line_number);
            continue;
        }
        line_number = line_number + 1;
    }
    assert(ls.take(lines.len() as int) =~= ls);
    table
}

/// The second pass: the machine words, with variables added to `table`.
fn second_scan(lines: &Vec<Vec<char>>, table: &mut StringHashMap<u16>) -> (program: Vec<u16>)
    requires
        forall|i: int|
            0 <= i < lines.len() && is_c_line(#[trigger] view_lines(lines@)[i]) ==> c_instruction_ok(
                view_lines(lines@)[i],
            ),
        second_pass(view_lines(lines@), old(table)@).1 <= 0xffff,
    ensures
        (final(table)@, program@) == ({
            let r = second_pass(view_lines(lines@), old(table)@);
            (r.0, r.2)
        }),
{
    let ghost ls = view_lines(lines@);
    let ghost t0 = table@;
    let mut program: Vec<u16> = Vec::new();
    let mut next_var: u16 = 16;
    let mut i: usize = 0;
    assert(ls.take(0) =~= Seq::<Seq<char>>::empty());
    while i < lines.len()
        invariant
            i <= lines.len(),
            ls == view_lines(lines@),
            forall|j: int| 0 <= j < ls.len() && is_c_line(#[trigger] ls[j]) ==> c_instruction_ok(ls[j]),
            second_pass(ls, t0).1 <= 0xffff,
            (table@, next_var as nat, program@) == second_pass(ls.take(i as int), t0),
        decreases lines.len() - i,
    {
        let line = &lines[i];
        let ghost l = ls[i as int];
        assert(line@ == l);
        assert(ls.take(i + 1).drop_last() =~= ls.take(i as int));
        assert(ls.take(i + 1).last() == l);
        proof {
            lemma_second_pass_monotone(ls, t0, i + 1);
        }
        i = i + 1;
        if line.len() == 0 || starts_with_lit(line, "//") {
            continue;
        }
        if line[0] == '(' {
            continue;
        }
        if line[0] == '@' {
            assert(line@.subrange(1, line@.len() as int) =~= l.drop_first());
            match parse_u16_range(line, 1, line.len()) {
                Some(n) => {
                    program.push(n);
                },
                None => {
                    let symbol = string_of(&sub_vec(line, 1, line.len()));
                    if !table.contains_key(symbol.as_str()) {
                        table.insert(symbol.clone(), next_var);
                        next_var = next_var + 1;
                    }
                    match table.get(symbol.as_str()) {
                        Some(a) => {
                            program.push(*a);
                        },
                        None => {},
                    }
                },
            }
        } else {
            assert(is_c_line(ls[i - 1]));
            program.push(parse_c(line));
        }
    }
    assert(ls.take(lines.len() as int) =~= ls);
    program
}

/// Assembles `source` into machine words.
pub fn assemble(source: &str) -> (program: Vec<u16>)
    requires
        assemblable(source@),
    ensures
        program@ == assembled(source@),
{
    let lines = source_lines(source);
    let mut table = first_scan(&lines);
    let program = second_scan(&lines, &mut table);
    program
}

/// The predefined symbols and their addresses, none of them a number.
proof fn lemma_predefined_addresses()
    ensures
        predefined_symbols().contains_key("R0"@),
        predefined_symbols()["R0"@] == 0,
        parse_u16("R0"@) is None,
        predefined_symbols().contains_key("R1"@),
        predefined_symbols()["R1"@] == 1,
        parse_u16("R1"@) is None,
        predefined_symbols().contains_key("R2"@),
        predefined_symbols()["R2"@] == 2,
        parse_u16("R2"@) is None,
        predefined_symbols().contains_key("R3"@),
        predefined_symbols()["R3"@] == 3,
        parse_u16("R3"@) is None,
        predefined_symbols().contains_key("R4"@),
        predefined_symbols()["R4"@] == 4,
        parse_u16("R4"@) is None,
        predefined_symbols().contains_key("R5"@),
        predefined_symbols()["R5"@] == 5,
        parse_u16("R5"@) is None,
        predefined_symbols().contains_key("R6"@),
        predefined_symbols()["R6"@] == 6,
        parse_u16("R6"@) is None,
        predefined_symbols().contains_key("R7"@),
        predefined_symbols()["R7"@] == 7,
        parse_u16("R7"@) is None,
        predefined_symbols().contains_key("R8"@),
        predefined_symbols()["R8"@] == 8,
        parse_u16("R8"@) is None,
        predefined_symbols().contains_key("R9"@),
        predefined_symbols()["R9"@] == 9,
        parse_u16("R9"@) is None,
        predefined_symbols().contains_key("R10"@),
        predefined_symbols()["R10"@] == 10,
        parse_u16("R10"@) is None,
        predefined_symbols().contains_key("R11"@),
        predefined_symbols()["R11"@] == 11,
        parse_u16("R11"@) is None,
        predefined_symbols().contains_key("R12"@),
        predefined_symbols()["R12"@] == 12,
        parse_u16("R12"@) is None,
        predefined_symbols().contains_key("R13"@),
        predefined_symbols()["R13"@] == 13,
        parse_u16("R13"@) is None,
        predefined_symbols().contains_key("R14"@),
        predefined_symbols()["R14"@] == 14,
        parse_u16("R14"@) is None,
        predefined_symbols().contains_key("R15"@),
        predefined_symbols()["R15"@] == 15,
        parse_u16("R15"@) is None,
        predefined_symbols().contains_key("SCREEN"@),
        predefined_symbols()["SCREEN"@] == 16384,
        parse_u16("SCREEN"@) is None,
        predefined_symbols().contains_key("KBD"@),
        predefined_symbols()["KBD"@] == 24576,
        parse_u16("KBD"@) is None,
        predefined_symbols().contains_key("SP"@),
        predefined_symbols()["SP"@] == 0,
        parse_u16("SP"@) is None,
        predefined_symbols().contains_key("LCL"@),
        predefined_symbols()["LCL"@] == 1,
        parse_u16("LCL"@) is None,
        predefined_symbols().contains_key("ARG"@),
        predefined_symbols()["ARG"@] == 2,
        parse_u16("ARG"@) is None,
        predefined_symbols().contains_key("THIS"@),
        predefined_symbols()["THIS"@] == 3,
        parse_u16("THIS"@) is None,
        predefined_symbols().contains_key("THAT"@),
        predefined_symbols()["THAT"@] == 4,
        parse_u16("THAT"@) is None,
{
    reveal_strlit("R0");
    reveal_strlit("R1");
    reveal_strlit("R2");
    reveal_strlit("R3");
    reveal_strlit("R4");
    reveal_strlit("R5");
    reveal_strlit("R6");
    reveal_strlit("R7");
    reveal_strlit("R8");
    reveal_strlit("R9");
    reveal_strlit("R10");
    reveal_strlit("R11");
    reveal_strlit("R12");
    reveal_strlit("R13");
    reveal_strlit("R14");
    reveal_strlit("R15");
    reveal_strlit("SCREEN");
    reveal_strlit("KBD");
    reveal_strlit("SP");
    reveal_strlit("LCL");
    reveal_strlit("ARG");
    reveal_strlit("THIS");
    reveal_strlit("THAT");
    assert("R0"@[1] != "R1"@[1]);
    assert("R0"@[1] != "R2"@[1]);
    assert("R0"@[1] != "R3"@[1]);
    assert("R0"@[1] != "R4"@[1]);
    assert("R0"@[1] != "R5"@[1]);
    assert("R0"@[1] != "R6"@[1]);
    assert("R0"@[1] != "R7"@[1]);
    assert("R0"@[1] != "R8"@[1]);
    assert("R0"@[1] != "R9"@[1]);
    assert("R0"@[0] != "SP"@[0]);
    assert("R1"@[1] != "R2"@[1]);
    assert("R1"@[1] != "R3"@[1]);
    assert("R1"@[1] != "R4"@[1]);
    assert("R1"@[1] != "R5"@[1]);
    assert("R1"@[1] != "R6"@[1]);
    assert("R1"@[1] != "R7"@[1]);
    assert("R1"@[1] != "R8"@[1]);
    assert("R1"@[1] != "R9"@[1]);
    assert("R1"@[0] != "SP"@[0]);
    assert("R2"@[1] != "R3"@[1]);
    assert("R2"@[1] != "R4"@[1]);
    assert("R2"@[1] != "R5"@[1]);
    assert("R2"@[1] != "R6"@[1]);
    assert("R2"@[1] != "R7"@[1]);
    assert("R2"@[1] != "R8"@[1]);
    assert("R2"@[1] != "R9"@[1]);
    assert("R2"@[0] != "SP"@[0]);
    assert("R3"@[1] != "R4"@[1]);
    assert("R3"@[1] != "R5"@[1]);
    assert("R3"@[1] != "R6"@[1]);
    assert("R3"@[1] != "R7"@[1]);
    assert("R3"@[1] != "R8"@[1]);
    assert("R3"@[1] != "R9"@[1]);
    assert("R3"@[0] != "SP"@[0]);
    assert("R4"@[1] != "R5"@[1]);
    assert("R4"@[1] != "R6"@[1]);
    assert("R4"@[1] != "R7"@[1]);
    assert("R4"@[1] != "R8"@[1]);
    assert("R4"@[1] != "R9"@[1]);
    assert("R4"@[0] != "SP"@[0]);
    assert("R5"@[1] != "R6"@[1]);
    assert("R5"@[1] != "R7"@[1]);
    assert("R5"@[1] != "R8"@[1]);
    assert("R5"@[1] != "R9"@[1]);
    assert("R5"@[0] != "SP"@[0]);
    assert("R6"@[1] != "R7"@[1]);
    assert("R6"@[1] != "R8"@[1]);
    assert("R6"@[1] != "R9"@[1]);
    assert("R6"@[0] != "SP"@[0]);
    assert("R7"@[1] != "R8"@[1]);
    assert("R7"@[1] != "R9"@[1]);
    assert("R7"@[0] != "SP"@[0]);
    assert("R8"@[1] != "R9"@[1]);
    assert("R8"@[0] != "SP"@[0]);
    assert("R9"@[0] != "SP"@[0]);
    assert("R10"@[2] != "R11"@[2]);
    assert("R10"@[2] != "R12"@[2]);
    assert("R10"@[2] != "R13"@[2]);
    assert("R10"@[2] != "R14"@[2]);
    assert("R10"@[2] != "R15"@[2]);
    assert("R10"@[0] != "KBD"@[0]);
    assert("R10"@[0] != "LCL"@[0]);
    assert("R10"@[0] != "ARG"@[0]);
    assert("R11"@[2] != "R12"@[2]);
    assert("R11"@[2] != "R13"@[2]);
    assert("R11"@[2] != "R14"@[2]);
    assert("R11"@[2] != "R15"@[2]);
    assert("R11"@[0] != "KBD"@[0]);
    assert("R11"@[0] != "LCL"@[0]);
    assert("R11"@[0] != "ARG"@[0]);
    assert("R12"@[2] != "R13"@[2]);
    assert("R12"@[2] != "R14"@[2]);
    assert("R12"@[2] != "R15"@[2]);
    assert("R12"@[0] != "KBD"@[0]);
    assert("R12"@[0] != "LCL"@[0]);
    assert("R12"@[0] != "ARG"@[0]);
    assert("R13"@[2] != "R14"@[2]);
    assert("R13"@[2] != "R15"@[2]);
    assert("R13"@[0] != "KBD"@[0]);
    assert("R13"@[0] != "LCL"@[0]);
    assert("R13"@[0] != "ARG"@[0]);
    assert("R14"@[2] != "R15"@[2]);
    assert("R14"@[0] != "KBD"@[0]);
    assert("R14"@[0] != "LCL"@[0]);
    assert("R14"@[0] != "ARG"@[0]);
    assert("R15"@[0] != "KBD"@[0]);
    assert("R15"@[0] != "LCL"@[0]);
    assert("R15"@[0] != "ARG"@[0]);
    assert("KBD"@[0] != "LCL"@[0]);
    assert("KBD"@[0] != "ARG"@[0]);
    assert("LCL"@[0] != "ARG"@[0]);
    assert("THIS"@[2] != "THAT"@[2]);
}

/// Without a label of that name, the first pass leaves a predefined symbol
/// at its predefined address.
proof fn lemma_first_pass_keeps_predefined(lines: Seq<Seq<char>>, name: Seq<char>)
    requires
        predefined_symbols().contains_key(name),
        forall|i: int| 0 <= i < lines.len() && is_label(#[trigger] lines[i]) ==> label_of(lines[i]) != name,
    ensures
        first_pass(lines).0.contains_key(name),
        first_pass(lines).0[name] == predefined_symbols()[name],
    decreases lines.len(),
{
    if lines.len() > 0 {
        let d = lines.drop_last();
        assert forall|i: int| 0 <= i < d.len() && is_label(#[trigger] d[i]) implies label_of(d[i]) != name by {
            assert(d[i] == lines[i]);
        }
        lemma_first_pass_keeps_predefined(d, name);
        assert(lines[lines.len() - 1] == lines.last());
    }
}

/// A reference `@R0` .. `@R15`, `@SP`, `@LCL`, `@ARG`, `@THIS`, `@THAT`,
/// `@SCREEN` or `@KBD` to a name that no label declares emits its fixed
/// address: Rk is k, SP, LCL, ARG, THIS and THAT are 0 to 4, SCREEN is
/// 16384 and KBD is 24576.
pub proof fn lemma_predefined_reference(lines: Seq<Seq<char>>, j: int, name: Seq<char>)
    requires
        0 <= j < lines.len(),
        lines[j] == seq!['@'] + name,
        forall|i: int| 0 <= i < lines.len() && is_label(#[trigger] lines[i]) ==> label_of(lines[i]) != name,
    ensures
        name == "R0"@ ==> second_pass(lines.take(j + 1), first_pass(lines).0).2.last() == 0,
        name == "R1"@ ==> second_pass(lines.take(j + 1), first_pass(lines).0).2.last() == 1,
        name == "R2"@ ==> second_pass(lines.take(j + 1), first_pass(lines).0).2.last() == 2,
        name == "R3"@ ==> second_pass(lines.take(j + 1), first_pass(lines).0).2.last() == 3,
        name == "R4"@ ==> second_pass(lines.take(j + 1), first_pass(lines).0).2.last() == 4,
        name == "R5"@ ==> second_pass(lines.take(j + 1), first_pass(lines).0).2.last() == 5,
        name == "R6"@ ==> second_pass(lines.take(j + 1), first_pass(lines).0).2.last() == 6,
        name == "R7"@ ==> second_pass(lines.take(j + 1), first_pass(lines).0).2.last() == 7,
        name == "R8"@ ==> second_pass(lines.take(j + 1), first_pass(lines).0).2.last() == 8,
        name == "R9"@ ==> second_pass(lines.take(j + 1), first_pass(lines).0).2.last() == 9,
        name == "R10"@ ==> second_pass(lines.take(j + 1), first_pass(lines).0).2.last() == 10,
        name == "R11"@ ==> second_pass(lines.take(j + 1), first_pass(lines).0).2.last() == 11,
        name == "R12"@ ==> second_pass(lines.take(j + 1), first_pass(lines).0).2.last() == 12,
        name == "R13"@ ==> second_pass(lines.take(j + 1), first_pass(lines).0).2.last() == 13,
        name == "R14"@ ==> second_pass(lines.take(j + 1), first_pass(lines).0).2.last() == 14,
        name == "R15"@ ==> second_pass(lines.take(j + 1), first_pass(lines).0).2.last() == 15,
        name == "SCREEN"@ ==> second_pass(lines.take(j + 1), first_pass(lines).0).2.last() == 16384,
        name == "KBD"@ ==> second_pass(lines.take(j + 1), first_pass(lines).0).2.last() == 24576,
        name == "SP"@ ==> second_pass(lines.take(j + 1), first_pass(lines).0).2.last() == 0,
        name == "LCL"@ ==> second_pass(lines.take(j + 1), first_pass(lines).0).2.last() == 1,
        name == "ARG"@ ==> second_pass(lines.take(j + 1), first_pass(lines).0).2.last() == 2,
        name == "THIS"@ ==> second_pass(lines.take(j + 1), first_pass(lines).0).2.last() == 3,
        name == "THAT"@ ==> second_pass(lines.take(j + 1), first_pass(lines).0).2.last() == 4,
{
    lemma_predefined_addresses();
    if predefined_symbols().contains_key(name) {
        let t0 = first_pass(lines).0;
        lemma_first_pass_keeps_predefined(lines, name);
        let p = lines.take(j + 1);
        assert(p.drop_last() =~= lines.take(j));
        assert(p.last() == lines[j]);
        let l = lines[j];
        assert(l.len() > 0 && l[0] == '@');
        assert(l.drop_first() =~= name);
        assert(!is_blank_or_comment(l)) by {
            if starts_with(l, "//"@) {
                reveal_strlit("//");
                assert(l[0] == l.subrange(0, 2)[0]);
            }
        }
        lemma_second_pass_keeps_symbols(lines.take(j), t0, name);
    }
}

/// A reference `@n` with `n` a number written in decimal emits `n` itself.
pub proof fn lemma_number_reference(lines: Seq<Seq<char>>, j: int, t0: Map<Seq<char>, u16>, n: u16)
    requires
        0 <= j < lines.len(),
        lines[j] == seq!['@'] + decimal(n as nat),
    ensures
        second_pass(lines.take(j + 1), t0).2.last() == n,
{
    lemma_parse_decimal(n);
    let p = lines.take(j + 1);
    assert(p.drop_last() =~= lines.take(j));
    assert(p.last() == lines[j]);
    let l = lines[j];
    assert(l.len() > 0 && l[0] == '@');
    assert(l.drop_first() =~= decimal(n as nat));
    assert(!is_blank_or_comment(l)) by {
        if starts_with(l, "//"@) {
            reveal_strlit("//");
            assert(l[0] == l.subrange(0, 2)[0]);
        }
    }
}

} // verus!
