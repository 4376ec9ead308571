//! The tool chain's hand-over: every program the VM translator accepts
//! becomes assembly text in which every C-instruction line is one the
//! assembler accepts.
use vstd::prelude::*;
use crate::assembler::{
    assemblable, c_instruction_ok, comp_bits, dest_bits, first_pass, is_c_line, jump_bits,
    second_pass,
};
use crate::text::{
    decimal, is_blank_or_comment, is_digit, is_ws, lemma_decimal_digits, lemma_first_index_at,
    lemma_split_join, lemma_words_nonempty, no_newline, parse_u16, split_lines, starts_with, trim,
    trim_end, trimmed_lines, words,
};
use crate::translator::{
    add_lines, and_lines, bootstrap, call_lines, comparison_jump_line, comparison_lines,
    fixed_base, function_lines, is_pointer_segment, neg_lines, not_lines, or_lines,
    pop_fixed_lines, pop_lines, pop_segment_lines, push_constant_lines, push_fixed_lines,
    push_lines, push_segment_lines, push_zero_lines, repeat_lines, return_lines,
    segment_base_of, segment_command_ok, sub_lines, translatable, translated, vm_command_ok,
    vm_pass, vm_step,
};

verus! {

/// A line as the assembler sees it after the translator wrote it: no
/// newline inside, and, trimmed, either not a C-instruction line or one
/// whose mnemonics are all known.
spec fn good_line(x: Seq<char>) -> bool {
    no_newline(x) && (is_c_line(trim(x)) ==> c_instruction_ok(trim(x)))
}

/// Every line of `ls` is a good line.
spec fn good_lines(ls: Seq<Seq<char>>) -> bool {
    forall|i: int| 0 <= i < ls.len() ==> good_line(#[trigger] ls[i])
}

proof fn lemma_good_push(ls: Seq<Seq<char>>, x: Seq<char>)
    requires
        good_lines(ls),
        good_line(x),
    ensures
        good_lines(ls.push(x)),
{
    assert forall|i: int| 0 <= i < ls.push(x).len() implies good_line(#[trigger] ls.push(x)[i]) by {
        if i < ls.len() {
            assert(ls.push(x)[i] == ls[i]);
        }
    }
}

proof fn lemma_good_concat(a: Seq<Seq<char>>, b: Seq<Seq<char>>)
    requires
        good_lines(a),
        good_lines(b),
    ensures
        good_lines(a + b),
{
    assert forall|i: int| 0 <= i < (a + b).len() implies good_line(#[trigger] (a + b)[i]) by {
        if i < a.len() {
            assert((a + b)[i] == a[i]);
        } else {
            assert((a + b)[i] == b[i - a.len()]);
        }
    }
}

proof fn lemma_good_repeat(ls: Seq<Seq<char>>, n: nat)
    requires
        good_lines(ls),
    ensures
        good_lines(repeat_lines(ls, n)),
    decreases n,
{
    if n > 0 {
        lemma_good_repeat(ls, (n - 1) as nat);
        lemma_good_concat(repeat_lines(ls, (n - 1) as nat), ls);
    }
}

proof fn lemma_trim_plain(s: Seq<char>)
    requires
        s.len() == 0 || (!is_ws(s[0]) && !is_ws(s.last())),
    ensures
        trim(s) == s,
{
}

proof fn lemma_trim_end_keeps_first(s: Seq<char>)
    requires
        s.len() > 0,
        !is_ws(s[0]),
    ensures
        trim_end(s).len() > 0,
        trim_end(s)[0] == s[0],
    decreases s.len(),
{
    if is_ws(s.last()) {
        assert(s.len() > 1);
        assert(s.drop_last()[0] == s[0]);
        lemma_trim_end_keeps_first(s.drop_last());
    }
}

/// A line that starts with `@` or `(` is never a C-instruction line.
proof fn lemma_marked_line(x: Seq<char>)
    requires
        x.len() > 0,
        x[0] == '@' || x[0] == '(',
        no_newline(x),
    ensures
        good_line(x),
{
    lemma_trim_end_keeps_first(x);
}

proof fn lemma_no_newline_concat(a: Seq<char>, b: Seq<char>)
    requires
        no_newline(a),
        no_newline(b),
    ensures
        no_newline(a + b),
{
    assert forall|i: int| 0 <= i < (a + b).len() implies (a + b)[i] != '\n' by {
        if i < a.len() {
            assert((a + b)[i] == a[i]);
        } else {
            assert((a + b)[i] == b[i - a.len()]);
        }
    }
}

proof fn lemma_short_no_newline(l: Seq<char>)
    requires
        l.len() <= 10,
        l.len() > 0 ==> l[0] != '\n',
        l.len() > 1 ==> l[1] != '\n',
        l.len() > 2 ==> l[2] != '\n',
        l.len() > 3 ==> l[3] != '\n',
        l.len() > 4 ==> l[4] != '\n',
        l.len() > 5 ==> l[5] != '\n',
        l.len() > 6 ==> l[6] != '\n',
        l.len() > 7 ==> l[7] != '\n',
        l.len() > 8 ==> l[8] != '\n',
        l.len() > 9 ==> l[9] != '\n',
    ensures
        no_newline(l),
{
    assert forall|i: int| 0 <= i < l.len() implies l[i] != '\n' by {
        if i == 0 {
        } else if i == 1 {
        } else if i == 2 {
        } else if i == 3 {
        } else if i == 4 {
        } else if i == 5 {
        } else if i == 6 {
        } else if i == 7 {
        } else if i == 8 {
        } else if i == 9 {
        }
    }
}

proof fn lemma_decimal_no_newline(n: nat)
    ensures
        no_newline(decimal(n)),
{
    lemma_decimal_digits(n);
    assert forall|i: int| 0 <= i < decimal(n).len() implies decimal(n)[i] != '\n' by {
        assert(is_digit(decimal(n)[i]));
    }
}

/// The characters of the words of `s` are not whitespace.
proof fn lemma_words_plain(s: Seq<char>)
    ensures
        forall|j: int, i: int|
            0 <= j < words(s).len() && 0 <= i < words(s)[j].len() ==> !is_ws(#[trigger] words(s)[j][i]),
    decreases s.len(),
{
    if s.len() > 0 {
        lemma_words_plain(s.drop_last());
        let prev = words(s.drop_last());
        let c = s.last();
        let w = words(s);
        if is_ws(c) {
            assert(w == prev);
        } else if s.len() >= 2 && !is_ws(s[s.len() - 2]) {
            lemma_words_nonempty(s.drop_last());
            assert(w == prev.update(prev.len() - 1, prev.last().push(c)));
            assert forall|j: int, i: int| 0 <= j < w.len() && 0 <= i < w[j].len() implies !is_ws(
                #[trigger] w[j][i],
            ) by {
                if j == prev.len() - 1 {
                    assert(w[j] == prev[j].push(c));
                    if i < prev[j].len() {
                        assert(w[j][i] == prev[j][i]);
                    }
                } else {
                    assert(w[j] == prev[j]);
                }
            }
        } else {
            assert(w == prev.push(seq![c]));
            assert forall|j: int, i: int| 0 <= j < w.len() && 0 <= i < w[j].len() implies !is_ws(
                #[trigger] w[j][i],
            ) by {
                if j < prev.len() {
                    assert(w[j] == prev[j]);
                } else {
                    assert(w[j] == seq![c]);
                }
            }
        }
    }
}

/// A word of a line has no newline in it.
proof fn lemma_word_no_newline(s: Seq<char>, j: int)
    requires
        0 <= j < words(s).len(),
    ensures
        no_newline(words(s)[j]),
{
    lemma_words_plain(s);
    assert forall|i: int| 0 <= i < words(s)[j].len() implies words(s)[j][i] != '\n' by {
        assert(!is_ws(words(s)[j][i]));
    }
}

/// The known computation, destination and jump mnemonics have codes.
proof fn lemma_known_fields(comp: Seq<char>, dest: Seq<char>, jump: Seq<char>)
    requires
        comp == "0"@ || comp == "1"@ || comp == "-1"@ || comp == "D"@ || comp == "A"@ ||
            comp == "!D"@ || comp == "!A"@ || comp == "-D"@ || comp == "-A"@ || comp == "D+1"@ ||
            comp == "A+1"@ || comp == "D-1"@ || comp == "A-1"@ || comp == "D+A"@ || comp == "D-A"@ ||
            comp == "A-D"@ || comp == "D&A"@ || comp == "D|A"@ || comp == "M"@ || comp == "!M"@ ||
            comp == "-M"@ || comp == "M+1"@ || comp == "M-1"@ || comp == "D+M"@ || comp == "D-M"@ ||
            comp == "M-D"@ || comp == "D&M"@ || comp == "D|M"@,
        dest == ""@ || dest == "M"@ || dest == "D"@ || dest == "MD"@ || dest == "A"@ ||
            dest == "AM"@ || dest == "AD"@ || dest == "AMD"@,
        jump == ""@ || jump == "JGT"@ || jump == "JEQ"@ || jump == "JGE"@ || jump == "JLT"@ ||
            jump == "JNE"@ || jump == "JLE"@ || jump == "JMP"@,
    ensures
        comp_bits(comp) is Some,
        dest_bits(dest) is Some,
        jump_bits(jump) is Some,
{
}

proof fn lemma_line_d_is_a()
    ensures
        good_line("D=A"@),
{
    reveal_strlit("");
    reveal_strlit("A");
    reveal_strlit("D");
    reveal_strlit("D=A");
    let l = "D=A"@;
    lemma_first_index_at(l, '=', 1);
    let rest = l.subrange(2, l.len() as int);
    assert(l.subrange(0, 1) =~= "D"@);
    assert(rest =~= "A"@);
    lemma_first_index_at(rest, ';', 1);
    assert(Seq::<char>::empty() =~= ""@);
    lemma_trim_plain(l);
    lemma_trim_plain(""@);
    lemma_trim_plain("A"@);
    lemma_trim_plain("D"@);
    lemma_known_fields("A"@, "D"@, ""@);
    lemma_short_no_newline(l);
}

proof fn lemma_line_m_is_d()
    ensures
        good_line("M=D"@),
{
    reveal_strlit("");
    reveal_strlit("D");
    reveal_strlit("M");
    reveal_strlit("M=D");
    let l = "M=D"@;
    lemma_first_index_at(l, '=', 1);
    let rest = l.subrange(2, l.len() as int);
    assert(l.subrange(0, 1) =~= "M"@);
    assert(rest =~= "D"@);
    lemma_first_index_at(rest, ';', 1);
    assert(Seq::<char>::empty() =~= ""@);
    lemma_trim_plain(l);
    lemma_trim_plain(""@);
    lemma_trim_plain("D"@);
    lemma_trim_plain("M"@);
    lemma_known_fields("D"@, "M"@, ""@);
    lemma_short_no_newline(l);
}

proof fn lemma_line_a_is_m()
    ensures
        good_line("A=M"@),
{
    reveal_strlit("");
    reveal_strlit("A");
    reveal_strlit("A=M");
    reveal_strlit("M");
    let l = "A=M"@;
    lemma_first_index_at(l, '=', 1);
    let rest = l.subrange(2, l.len() as int);
    assert(l.subrange(0, 1) =~= "A"@);
    assert(rest =~= "M"@);
    lemma_first_index_at(rest, ';', 1);
    assert(Seq::<char>::empty() =~= ""@);
    lemma_trim_plain(l);
    lemma_trim_plain(""@);
    lemma_trim_plain("A"@);
    lemma_trim_plain("M"@);
    lemma_known_fields("M"@, "A"@, ""@);
    lemma_short_no_newline(l);
}

proof fn lemma_line_m_is_m_plus_1()
    ensures
        good_line("M=M+1"@),
{
    reveal_strlit("");
    reveal_strlit("M");
    reveal_strlit("M+1");
    reveal_strlit("M=M+1");
    let l = "M=M+1"@;
    lemma_first_index_at(l, '=', 1);
    let rest = l.subrange(2, l.len() as int);
    assert(l.subrange(0, 1) =~= "M"@);
    assert(rest =~= "M+1"@);
    lemma_first_index_at(rest, ';', 3);
    assert(Seq::<char>::empty() =~= ""@);
    lemma_trim_plain(l);
    lemma_trim_plain(""@);
    lemma_trim_plain("M"@);
    lemma_trim_plain("M+1"@);
    lemma_known_fields("M+1"@, "M"@, ""@);
    lemma_short_no_newline(l);
}

proof fn lemma_line_m_is_0()
    ensures
        good_line("M=0"@),
{
    reveal_strlit("");
    reveal_strlit("0");
    reveal_strlit("M");
    reveal_strlit("M=0");
    let l = "M=0"@;
    lemma_first_index_at(l, '=', 1);
    let rest = l.subrange(2, l.len() as int);
    assert(l.subrange(0, 1) =~= "M"@);
    assert(rest =~= "0"@);
    lemma_first_index_at(rest, ';', 1);
    assert(Seq::<char>::empty() =~= ""@);
    lemma_trim_plain(l);
    lemma_trim_plain(""@);
    lemma_trim_plain("0"@);
    lemma_trim_plain("M"@);
    lemma_known_fields("0"@, "M"@, ""@);
    lemma_short_no_newline(l);
}

proof fn lemma_line_d_is_m()
    ensures
        good_line("D=M"@),
{
    reveal_strlit("");
    reveal_strlit("D");
    reveal_strlit("D=M");
    reveal_strlit("M");
    let l = "D=M"@;
    lemma_first_index_at(l, '=', 1);
    let rest = l.subrange(2, l.len() as int);
    assert(l.subrange(0, 1) =~= "D"@);
    assert(rest =~= "M"@);
    lemma_first_index_at(rest, ';', 1);
    assert(Seq::<char>::empty() =~= ""@);
    lemma_trim_plain(l);
    lemma_trim_plain(""@);
    lemma_trim_plain("D"@);
    lemma_trim_plain("M"@);
    lemma_known_fields("M"@, "D"@, ""@);
    lemma_short_no_newline(l);
}

proof fn lemma_line_d_is_d_minus_a()
    ensures
        good_line("D=D-A"@),
{
    reveal_strlit("");
    reveal_strlit("D");
    reveal_strlit("D-A");
    reveal_strlit("D=D-A");
    let l = "D=D-A"@;
    lemma_first_index_at(l, '=', 1);
    let rest = l.subrange(2, l.len() as int);
    assert(l.subrange(0, 1) =~= "D"@);
    assert(rest =~= "D-A"@);
    lemma_first_index_at(rest, ';', 3);
    assert(Seq::<char>::empty() =~= ""@);
    lemma_trim_plain(l);
    lemma_trim_plain(""@);
    lemma_trim_plain("D"@);
    lemma_trim_plain("D-A"@);
    lemma_known_fields("D-A"@, "D"@, ""@);
    lemma_short_no_newline(l);
}

proof fn lemma_line_0_jump_jmp()
    ensures
        good_line("0;JMP"@),
{
    reveal_strlit("");
    reveal_strlit("0");
    reveal_strlit("0;JMP");
    reveal_strlit("JMP");
    let l = "0;JMP"@;
    lemma_first_index_at(l, '=', 5);
    let rest = l;
    assert(rest =~= "0;JMP"@);
    lemma_first_index_at(rest, ';', 1);
    assert(rest.subrange(0, 1) =~= "0"@);
    assert(rest.subrange(2, rest.len() as int) =~= "JMP"@);
    assert(Seq::<char>::empty() =~= ""@);
    lemma_trim_plain(l);
    lemma_trim_plain(""@);
    lemma_trim_plain("0"@);
    lemma_trim_plain("JMP"@);
    lemma_known_fields("0"@, ""@, "JMP"@);
    lemma_short_no_newline(l);
}

proof fn lemma_line_m_is_m_minus_1()
    ensures
        good_line("M=M-1"@),
{
    reveal_strlit("");
    reveal_strlit("M");
    reveal_strlit("M-1");
    reveal_strlit("M=M-1");
    let l = "M=M-1"@;
    lemma_first_index_at(l, '=', 1);
    let rest = l.subrange(2, l.len() as int);
    assert(l.subrange(0, 1) =~= "M"@);
    assert(rest =~= "M-1"@);
    lemma_first_index_at(rest, ';', 3);
    assert(Seq::<char>::empty() =~= ""@);
    lemma_trim_plain(l);
    lemma_trim_plain(""@);
    lemma_trim_plain("M"@);
    lemma_trim_plain("M-1"@);
    lemma_known_fields("M-1"@, "M"@, ""@);
    lemma_short_no_newline(l);
}

proof fn lemma_line_m_is_d_plus_m()
    ensures
        good_line("M=D+M"@),
{
    reveal_strlit("");
    reveal_strlit("D+M");
    reveal_strlit("M");
    reveal_strlit("M=D+M");
    let l = "M=D+M"@;
    lemma_first_index_at(l, '=', 1);
    let rest = l.subrange(2, l.len() as int);
    assert(l.subrange(0, 1) =~= "M"@);
    assert(rest =~= "D+M"@);
    lemma_first_index_at(rest, ';', 3);
    assert(Seq::<char>::empty() =~= ""@);
    lemma_trim_plain(l);
    lemma_trim_plain(""@);
    lemma_trim_plain("D+M"@);
    lemma_trim_plain("M"@);
    lemma_known_fields("D+M"@, "M"@, ""@);
    lemma_short_no_newline(l);
}

proof fn lemma_line_m_is_m_minus_d()
    ensures
        good_line("M=M-D"@),
{
    reveal_strlit("");
    reveal_strlit("M");
    reveal_strlit("M-D");
    reveal_strlit("M=M-D");
    let l = "M=M-D"@;
    lemma_first_index_at(l, '=', 1);
    let rest = l.subrange(2, l.len() as int);
    assert(l.subrange(0, 1) =~= "M"@);
    assert(rest =~= "M-D"@);
    lemma_first_index_at(rest, ';', 3);
    assert(Seq::<char>::empty() =~= ""@);
    lemma_trim_plain(l);
    lemma_trim_plain(""@);
    lemma_trim_plain("M"@);
    lemma_trim_plain("M-D"@);
    lemma_known_fields("M-D"@, "M"@, ""@);
    lemma_short_no_newline(l);
}

proof fn lemma_line_m_is_minus_m()
    ensures
        good_line("M=-M"@),
{
    reveal_strlit("");
    reveal_strlit("-M");
    reveal_strlit("M");
    reveal_strlit("M=-M");
    let l = "M=-M"@;
    lemma_first_index_at(l, '=', 1);
    let rest = l.subrange(2, l.len() as int);
    assert(l.subrange(0, 1) =~= "M"@);
    assert(rest =~= "-M"@);
    lemma_first_index_at(rest, ';', 2);
    assert(Seq::<char>::empty() =~= ""@);
    lemma_trim_plain(l);
    lemma_trim_plain(""@);
    lemma_trim_plain("-M"@);
    lemma_trim_plain("M"@);
    lemma_known_fields("-M"@, "M"@, ""@);
    lemma_short_no_newline(l);
}

proof fn lemma_line_m_is_d_and_m()
    ensures
        good_line("M=D&M"@),
{
    reveal_strlit("");
    reveal_strlit("D&M");
    reveal_strlit("M");
    reveal_strlit("M=D&M");
    let l = "M=D&M"@;
    lemma_first_index_at(l, '=', 1);
    let rest = l.subrange(2, l.len() as int);
    assert(l.subrange(0, 1) =~= "M"@);
    assert(rest =~= "D&M"@);
    lemma_first_index_at(rest, ';', 3);
    assert(Seq::<char>::empty() =~= ""@);
    lemma_trim_plain(l);
    lemma_trim_plain(""@);
    lemma_trim_plain("D&M"@);
    lemma_trim_plain("M"@);
    lemma_known_fields("D&M"@, "M"@, ""@);
    lemma_short_no_newline(l);
}

proof fn lemma_line_m_is_d_or_m()
    ensures
        good_line("M=D|M"@),
{
    reveal_strlit("");
    reveal_strlit("D|M");
    reveal_strlit("M");
    reveal_strlit("M=D|M");
    let l = "M=D|M"@;
    lemma_first_index_at(l, '=', 1);
    let rest = l.subrange(2, l.len() as int);
    assert(l.subrange(0, 1) =~= "M"@);
    assert(rest =~= "D|M"@);
    lemma_first_index_at(rest, ';', 3);
    assert(Seq::<char>::empty() =~= ""@);
    lemma_trim_plain(l);
    lemma_trim_plain(""@);
    lemma_trim_plain("D|M"@);
    lemma_trim_plain("M"@);
    lemma_known_fields("D|M"@, "M"@, ""@);
    lemma_short_no_newline(l);
}

proof fn lemma_line_m_is_not_m()
    ensures
        good_line("M=!M"@),
{
    reveal_strlit("");
    reveal_strlit("!M");
    reveal_strlit("M");
    reveal_strlit("M=!M");
    let l = "M=!M"@;
    lemma_first_index_at(l, '=', 1);
    let rest = l.subrange(2, l.len() as int);
    assert(l.subrange(0, 1) =~= "M"@);
    assert(rest =~= "!M"@);
    lemma_first_index_at(rest, ';', 2);
    assert(Seq::<char>::empty() =~= ""@);
    lemma_trim_plain(l);
    lemma_trim_plain(""@);
    lemma_trim_plain("!M"@);
    lemma_trim_plain("M"@);
    lemma_known_fields("!M"@, "M"@, ""@);
    lemma_short_no_newline(l);
}

proof fn lemma_line_a_is_d()
    ensures
        good_line("A=D"@),
{
    reveal_strlit("");
    reveal_strlit("A");
    reveal_strlit("A=D");
    reveal_strlit("D");
    let l = "A=D"@;
    lemma_first_index_at(l, '=', 1);
    let rest = l.subrange(2, l.len() as int);
    assert(l.subrange(0, 1) =~= "A"@);
    assert(rest =~= "D"@);
    lemma_first_index_at(rest, ';', 1);
    assert(Seq::<char>::empty() =~= ""@);
    lemma_trim_plain(l);
    lemma_trim_plain(""@);
    lemma_trim_plain("A"@);
    lemma_trim_plain("D"@);
    lemma_known_fields("D"@, "A"@, ""@);
    lemma_short_no_newline(l);
}

proof fn lemma_line_m_is_d_plus_1()
    ensures
        good_line("M=D+1"@),
{
    reveal_strlit("");
    reveal_strlit("D+1");
    reveal_strlit("M");
    reveal_strlit("M=D+1");
    let l = "M=D+1"@;
    lemma_first_index_at(l, '=', 1);
    let rest = l.subrange(2, l.len() as int);
    assert(l.subrange(0, 1) =~= "M"@);
    assert(rest =~= "D+1"@);
    lemma_first_index_at(rest, ';', 3);
    assert(Seq::<char>::empty() =~= ""@);
    lemma_trim_plain(l);
    lemma_trim_plain(""@);
    lemma_trim_plain("D+1"@);
    lemma_trim_plain("M"@);
    lemma_known_fields("D+1"@, "M"@, ""@);
    lemma_short_no_newline(l);
}

proof fn lemma_line_d_is_m_minus_d()
    ensures
        good_line("D=M-D"@),
{
    reveal_strlit("");
    reveal_strlit("D");
    reveal_strlit("D=M-D");
    reveal_strlit("M-D");
    let l = "D=M-D"@;
    lemma_first_index_at(l, '=', 1);
    let rest = l.subrange(2, l.len() as int);
    assert(l.subrange(0, 1) =~= "D"@);
    assert(rest =~= "M-D"@);
    lemma_first_index_at(rest, ';', 3);
    assert(Seq::<char>::empty() =~= ""@);
    lemma_trim_plain(l);
    lemma_trim_plain(""@);
    lemma_trim_plain("D"@);
    lemma_trim_plain("M-D"@);
    lemma_known_fields("M-D"@, "D"@, ""@);
    lemma_short_no_newline(l);
}

proof fn lemma_line_a_is_d_plus_m()
    ensures
        good_line("A=D+M"@),
{
    reveal_strlit("");
    reveal_strlit("A");
    reveal_strlit("A=D+M");
    reveal_strlit("D+M");
    let l = "A=D+M"@;
    lemma_first_index_at(l, '=', 1);
    let rest = l.subrange(2, l.len() as int);
    assert(l.subrange(0, 1) =~= "A"@);
    assert(rest =~= "D+M"@);
    lemma_first_index_at(rest, ';', 3);
    assert(Seq::<char>::empty() =~= ""@);
    lemma_trim_plain(l);
    lemma_trim_plain(""@);
    lemma_trim_plain("A"@);
    lemma_trim_plain("D+M"@);
    lemma_known_fields("D+M"@, "A"@, ""@);
    lemma_short_no_newline(l);
}

proof fn lemma_line_d_is_d_plus_m()
    ensures
        good_line("D=D+M"@),
{
    reveal_strlit("");
    reveal_strlit("D");
    reveal_strlit("D+M");
    reveal_strlit("D=D+M");
    let l = "D=D+M"@;
    lemma_first_index_at(l, '=', 1);
    let rest = l.subrange(2, l.len() as int);
    assert(l.subrange(0, 1) =~= "D"@);
    assert(rest =~= "D+M"@);
    lemma_first_index_at(rest, ';', 3);
    assert(Seq::<char>::empty() =~= ""@);
    lemma_trim_plain(l);
    lemma_trim_plain(""@);
    lemma_trim_plain("D"@);
    lemma_trim_plain("D+M"@);
    lemma_known_fields("D+M"@, "D"@, ""@);
    lemma_short_no_newline(l);
}

proof fn lemma_line_m_is_minus_1()
    ensures
        good_line("M=-1"@),
{
    reveal_strlit("");
    reveal_strlit("-1");
    reveal_strlit("M");
    reveal_strlit("M=-1");
    let l = "M=-1"@;
    lemma_first_index_at(l, '=', 1);
    let rest = l.subrange(2, l.len() as int);
    assert(l.subrange(0, 1) =~= "M"@);
    assert(rest =~= "-1"@);
    lemma_first_index_at(rest, ';', 2);
    assert(Seq::<char>::empty() =~= ""@);
    lemma_trim_plain(l);
    lemma_trim_plain(""@);
    lemma_trim_plain("-1"@);
    lemma_trim_plain("M"@);
    lemma_known_fields("-1"@, "M"@, ""@);
    lemma_short_no_newline(l);
}

proof fn lemma_line_d_jump_jeq()
    ensures
        good_line("D;JEQ"@),
{
    reveal_strlit("");
    reveal_strlit("D");
    reveal_strlit("D;JEQ");
    reveal_strlit("JEQ");
    let l = "D;JEQ"@;
    lemma_first_index_at(l, '=', 5);
    let rest = l;
    assert(rest =~= "D;JEQ"@);
    lemma_first_index_at(rest, ';', 1);
    assert(rest.subrange(0, 1) =~= "D"@);
    assert(rest.subrange(2, rest.len() as int) =~= "JEQ"@);
    assert(Seq::<char>::empty() =~= ""@);
    lemma_trim_plain(l);
    lemma_trim_plain(""@);
    lemma_trim_plain("D"@);
    lemma_trim_plain("JEQ"@);
    lemma_known_fields("D"@, ""@, "JEQ"@);
    lemma_short_no_newline(l);
}

proof fn lemma_line_d_jump_jlt()
    ensures
        good_line("D;JLT"@),
{
    reveal_strlit("");
    reveal_strlit("D");
    reveal_strlit("D;JLT");
    reveal_strlit("JLT");
    let l = "D;JLT"@;
    lemma_first_index_at(l, '=', 5);
    let rest = l;
    assert(rest =~= "D;JLT"@);
    lemma_first_index_at(rest, ';', 1);
    assert(rest.subrange(0, 1) =~= "D"@);
    assert(rest.subrange(2, rest.len() as int) =~= "JLT"@);
    assert(Seq::<char>::empty() =~= ""@);
    lemma_trim_plain(l);
    lemma_trim_plain(""@);
    lemma_trim_plain("D"@);
    lemma_trim_plain("JLT"@);
    lemma_known_fields("D"@, ""@, "JLT"@);
    lemma_short_no_newline(l);
}

proof fn lemma_line_d_jump_jgt()
    ensures
        good_line("D;JGT"@),
{
    reveal_strlit("");
    reveal_strlit("D");
    reveal_strlit("D;JGT");
    reveal_strlit("JGT");
    let l = "D;JGT"@;
    lemma_first_index_at(l, '=', 5);
    let rest = l;
    assert(rest =~= "D;JGT"@);
    lemma_first_index_at(rest, ';', 1);
    assert(rest.subrange(0, 1) =~= "D"@);
    assert(rest.subrange(2, rest.len() as int) =~= "JGT"@);
    assert(Seq::<char>::empty() =~= ""@);
    lemma_trim_plain(l);
    lemma_trim_plain(""@);
    lemma_trim_plain("D"@);
    lemma_trim_plain("JGT"@);
    lemma_known_fields("D"@, ""@, "JGT"@);
    lemma_short_no_newline(l);
}

proof fn lemma_line_at_256()
    ensures
        good_line("@256"@),
{
    reveal_strlit("@256");
    lemma_short_no_newline("@256"@);
    lemma_marked_line("@256"@);
}

proof fn lemma_line_at_sp()
    ensures
        good_line("@SP"@),
{
    reveal_strlit("@SP");
    lemma_short_no_newline("@SP"@);
    lemma_marked_line("@SP"@);
}

proof fn lemma_line_at_3()
    ensures
        good_line("@3"@),
{
    reveal_strlit("@3");
    lemma_short_no_newline("@3"@);
    lemma_marked_line("@3"@);
}

proof fn lemma_line_at_4()
    ensures
        good_line("@4"@),
{
    reveal_strlit("@4");
    lemma_short_no_newline("@4"@);
    lemma_marked_line("@4"@);
}

proof fn lemma_line_at_halt()
    ensures
        good_line("@HALT"@),
{
    reveal_strlit("@HALT");
    lemma_short_no_newline("@HALT"@);
    lemma_marked_line("@HALT"@);
}

proof fn lemma_line_at_5()
    ensures
        good_line("@5"@),
{
    reveal_strlit("@5");
    lemma_short_no_newline("@5"@);
    lemma_marked_line("@5"@);
}

proof fn lemma_line_at_2()
    ensures
        good_line("@2"@),
{
    reveal_strlit("@2");
    lemma_short_no_newline("@2"@);
    lemma_marked_line("@2"@);
}

proof fn lemma_line_at_arg()
    ensures
        good_line("@ARG"@),
{
    reveal_strlit("@ARG");
    lemma_short_no_newline("@ARG"@);
    lemma_marked_line("@ARG"@);
}

proof fn lemma_line_at_lcl()
    ensures
        good_line("@LCL"@),
{
    reveal_strlit("@LCL");
    lemma_short_no_newline("@LCL"@);
    lemma_marked_line("@LCL"@);
}

proof fn lemma_line_at_add()
    ensures
        good_line("@Add"@),
{
    reveal_strlit("@Add");
    lemma_short_no_newline("@Add"@);
    lemma_marked_line("@Add"@);
}

proof fn lemma_line_label_halt()
    ensures
        good_line("(HALT)"@),
{
    reveal_strlit("(HALT)");
    lemma_short_no_newline("(HALT)"@);
    lemma_marked_line("(HALT)"@);
}

proof fn lemma_line_at_r14()
    ensures
        good_line("@R14"@),
{
    reveal_strlit("@R14");
    lemma_short_no_newline("@R14"@);
    lemma_marked_line("@R14"@);
}

proof fn lemma_line_at_r15()
    ensures
        good_line("@R15"@),
{
    reveal_strlit("@R15");
    lemma_short_no_newline("@R15"@);
    lemma_marked_line("@R15"@);
}

proof fn lemma_line_at_1()
    ensures
        good_line("@1"@),
{
    reveal_strlit("@1");
    lemma_short_no_newline("@1"@);
    lemma_marked_line("@1"@);
}

proof fn lemma_line_at_that()
    ensures
        good_line("@THAT"@),
{
    reveal_strlit("@THAT");
    lemma_short_no_newline("@THAT"@);
    lemma_marked_line("@THAT"@);
}

proof fn lemma_line_at_this()
    ensures
        good_line("@THIS"@),
{
    reveal_strlit("@THIS");
    lemma_short_no_newline("@THIS"@);
    lemma_marked_line("@THIS"@);
}

proof fn lemma_line_at_r13()
    ensures
        good_line("@R13"@),
{
    reveal_strlit("@R13");
    lemma_short_no_newline("@R13"@);
    lemma_marked_line("@R13"@);
}

/// Every fixed line the translator writes is a good line.
proof fn lemma_fixed_lines()
    ensures
        good_line("D=A"@),
        good_line("M=D"@),
        good_line("A=M"@),
        good_line("M=M+1"@),
        good_line("M=0"@),
        good_line("D=M"@),
        good_line("D=D-A"@),
        good_line("0;JMP"@),
        good_line("M=M-1"@),
        good_line("M=D+M"@),
        good_line("M=M-D"@),
        good_line("M=-M"@),
        good_line("M=D&M"@),
        good_line("M=D|M"@),
        good_line("M=!M"@),
        good_line("A=D"@),
        good_line("M=D+1"@),
        good_line("D=M-D"@),
        good_line("A=D+M"@),
        good_line("D=D+M"@),
        good_line("M=-1"@),
        good_line("D;JEQ"@),
        good_line("D;JLT"@),
        good_line("D;JGT"@),
        good_line("@256"@),
        good_line("@SP"@),
        good_line("@3"@),
        good_line("@4"@),
        good_line("@HALT"@),
        good_line("@5"@),
        good_line("@2"@),
        good_line("@ARG"@),
        good_line("@LCL"@),
        good_line("@Add"@),
        good_line("(HALT)"@),
        good_line("@R14"@),
        good_line("@R15"@),
        good_line("@1"@),
        good_line("@THAT"@),
        good_line("@THIS"@),
        good_line("@R13"@),
{
    lemma_line_d_is_a();
    lemma_line_m_is_d();
    lemma_line_a_is_m();
    lemma_line_m_is_m_plus_1();
    lemma_line_m_is_0();
    lemma_line_d_is_m();
    lemma_line_d_is_d_minus_a();
    lemma_line_0_jump_jmp();
    lemma_line_m_is_m_minus_1();
    lemma_line_m_is_d_plus_m();
    lemma_line_m_is_m_minus_d();
    lemma_line_m_is_minus_m();
    lemma_line_m_is_d_and_m();
    lemma_line_m_is_d_or_m();
    lemma_line_m_is_not_m();
    lemma_line_a_is_d();
    lemma_line_m_is_d_plus_1();
    lemma_line_d_is_m_minus_d();
    lemma_line_a_is_d_plus_m();
    lemma_line_d_is_d_plus_m();
    lemma_line_m_is_minus_1();
    lemma_line_d_jump_jeq();
    lemma_line_d_jump_jlt();
    lemma_line_d_jump_jgt();
    lemma_line_at_256();
    lemma_line_at_sp();
    lemma_line_at_3();
    lemma_line_at_4();
    lemma_line_at_halt();
    lemma_line_at_5();
    lemma_line_at_2();
    lemma_line_at_arg();
    lemma_line_at_lcl();
    lemma_line_at_add();
    lemma_line_label_halt();
    lemma_line_at_r14();
    lemma_line_at_r15();
    lemma_line_at_1();
    lemma_line_at_that();
    lemma_line_at_this();
    lemma_line_at_r13();
}

#[verifier::rlimit(100)]
proof fn lemma_good_bootstrap()
    ensures
        good_lines(bootstrap()),
{
    lemma_fixed_lines();
    let s0 = Seq::<Seq<char>>::empty();
    lemma_good_push(s0, "@256"@);
    let s1 = s0.push("@256"@);
    lemma_good_push(s1, "D=A"@);
    let s2 = s1.push("D=A"@);
    lemma_good_push(s2, "@SP"@);
    let s3 = s2.push("@SP"@);
    lemma_good_push(s3, "M=D"@);
    let s4 = s3.push("M=D"@);
    lemma_good_push(s4, "@3"@);
    let s5 = s4.push("@3"@);
    lemma_good_push(s5, "D=A"@);
    let s6 = s5.push("D=A"@);
    lemma_good_push(s6, "@SP"@);
    let s7 = s6.push("@SP"@);
    lemma_good_push(s7, "A=M"@);
    let s8 = s7.push("A=M"@);
    lemma_good_push(s8, "M=D"@);
    let s9 = s8.push("M=D"@);
    lemma_good_push(s9, "@SP"@);
    let s10 = s9.push("@SP"@);
    lemma_good_push(s10, "M=M+1"@);
    let s11 = s10.push("M=M+1"@);
    lemma_good_push(s11, "@4"@);
    let s12 = s11.push("@4"@);
    lemma_good_push(s12, "D=A"@);
    let s13 = s12.push("D=A"@);
    lemma_good_push(s13, "@SP"@);
    let s14 = s13.push("@SP"@);
    lemma_good_push(s14, "A=M"@);
    let s15 = s14.push("A=M"@);
    lemma_good_push(s15, "M=D"@);
    let s16 = s15.push("M=D"@);
    lemma_good_push(s16, "@SP"@);
    let s17 = s16.push("@SP"@);
    lemma_good_push(s17, "M=M+1"@);
    let s18 = s17.push("M=M+1"@);
    lemma_good_push(s18, "@HALT"@);
    let s19 = s18.push("@HALT"@);
    lemma_good_push(s19, "D=A"@);
    let s20 = s19.push("D=A"@);
    lemma_good_push(s20, "@SP"@);
    let s21 = s20.push("@SP"@);
    lemma_good_push(s21, "A=M"@);
    let s22 = s21.push("A=M"@);
    lemma_good_push(s22, "M=D"@);
    let s23 = s22.push("M=D"@);
    lemma_good_push(s23, "@SP"@);
    let s24 = s23.push("@SP"@);
    lemma_good_push(s24, "M=M+1"@);
    let s25 = s24.push("M=M+1"@);
    lemma_good_push(s25, "@SP"@);
    let s26 = s25.push("@SP"@);
    lemma_good_push(s26, "A=M"@);
    let s27 = s26.push("A=M"@);
    lemma_good_push(s27, "M=0"@);
    let s28 = s27.push("M=0"@);
    lemma_good_push(s28, "@SP"@);
    let s29 = s28.push("@SP"@);
    lemma_good_push(s29, "M=M+1"@);
    let s30 = s29.push("M=M+1"@);
    lemma_good_push(s30, "@SP"@);
    let s31 = s30.push("@SP"@);
    lemma_good_push(s31, "A=M"@);
    let s32 = s31.push("A=M"@);
    lemma_good_push(s32, "M=0"@);
    let s33 = s32.push("M=0"@);
    lemma_good_push(s33, "@SP"@);
    let s34 = s33.push("@SP"@);
    lemma_good_push(s34, "M=M+1"@);
    let s35 = s34.push("M=M+1"@);
    lemma_good_push(s35, "@SP"@);
    let s36 = s35.push("@SP"@);
    lemma_good_push(s36, "A=M"@);
    let s37 = s36.push("A=M"@);
    lemma_good_push(s37, "M=0"@);
    let s38 = s37.push("M=0"@);
    lemma_good_push(s38, "@SP"@);
    let s39 = s38.push("@SP"@);
    lemma_good_push(s39, "M=M+1"@);
    let s40 = s39.push("M=M+1"@);
    lemma_good_push(s40, "@SP"@);
    let s41 = s40.push("@SP"@);
    lemma_good_push(s41, "A=M"@);
    let s42 = s41.push("A=M"@);
    lemma_good_push(s42, "M=0"@);
    let s43 = s42.push("M=0"@);
    lemma_good_push(s43, "@SP"@);
    let s44 = s43.push("@SP"@);
    lemma_good_push(s44, "M=M+1"@);
    let s45 = s44.push("M=M+1"@);
    lemma_good_push(s45, "@SP"@);
    let s46 = s45.push("@SP"@);
    lemma_good_push(s46, "D=M"@);
    let s47 = s46.push("D=M"@);
    lemma_good_push(s47, "@5"@);
    let s48 = s47.push("@5"@);
    lemma_good_push(s48, "D=D-A"@);
    let s49 = s48.push("D=D-A"@);
    lemma_good_push(s49, "@2"@);
    let s50 = s49.push("@2"@);
    lemma_good_push(s50, "D=D-A"@);
    let s51 = s50.push("D=D-A"@);
    lemma_good_push(s51, "@ARG"@);
    let s52 = s51.push("@ARG"@);
    lemma_good_push(s52, "M=D"@);
    let s53 = s52.push("M=D"@);
    lemma_good_push(s53, "@SP"@);
    let s54 = s53.push("@SP"@);
    lemma_good_push(s54, "D=M"@);
    let s55 = s54.push("D=M"@);
    lemma_good_push(s55, "@LCL"@);
    let s56 = s55.push("@LCL"@);
    lemma_good_push(s56, "M=D"@);
    let s57 = s56.push("M=D"@);
    lemma_good_push(s57, "@Add"@);
    let s58 = s57.push("@Add"@);
    lemma_good_push(s58, "0;JMP"@);
    let s59 = s58.push("0;JMP"@);
    lemma_good_push(s59, "(HALT)"@);
    let s60 = s59.push("(HALT)"@);
    lemma_good_push(s60, "@HALT"@);
    let s61 = s60.push("@HALT"@);
    lemma_good_push(s61, "0;JMP"@);
    let s62 = s61.push("0;JMP"@);
    assert(s62 =~= bootstrap());
}

proof fn lemma_good_add()
    ensures
        good_lines(add_lines()),
{
    lemma_fixed_lines();
    let s0 = Seq::<Seq<char>>::empty();
    lemma_good_push(s0, "@SP"@);
    let s1 = s0.push("@SP"@);
    lemma_good_push(s1, "M=M-1"@);
    let s2 = s1.push("M=M-1"@);
    lemma_good_push(s2, "A=M"@);
    let s3 = s2.push("A=M"@);
    lemma_good_push(s3, "D=M"@);
    let s4 = s3.push("D=M"@);
    lemma_good_push(s4, "@SP"@);
    let s5 = s4.push("@SP"@);
    lemma_good_push(s5, "M=M-1"@);
    let s6 = s5.push("M=M-1"@);
    lemma_good_push(s6, "A=M"@);
    let s7 = s6.push("A=M"@);
    lemma_good_push(s7, "M=D+M"@);
    let s8 = s7.push("M=D+M"@);
    lemma_good_push(s8, "@SP"@);
    let s9 = s8.push("@SP"@);
    lemma_good_push(s9, "M=M+1"@);
    let s10 = s9.push("M=M+1"@);
    assert(s10 =~= add_lines());
}

proof fn lemma_good_sub()
    ensures
        good_lines(sub_lines()),
{
    lemma_fixed_lines();
    let s0 = Seq::<Seq<char>>::empty();
    lemma_good_push(s0, "@SP"@);
    let s1 = s0.push("@SP"@);
    lemma_good_push(s1, "M=M-1"@);
    let s2 = s1.push("M=M-1"@);
    lemma_good_push(s2, "A=M"@);
    let s3 = s2.push("A=M"@);
    lemma_good_push(s3, "D=M"@);
    let s4 = s3.push("D=M"@);
    lemma_good_push(s4, "@SP"@);
    let s5 = s4.push("@SP"@);
    lemma_good_push(s5, "M=M-1"@);
    let s6 = s5.push("M=M-1"@);
    lemma_good_push(s6, "A=M"@);
    let s7 = s6.push("A=M"@);
    lemma_good_push(s7, "M=M-D"@);
    let s8 = s7.push("M=M-D"@);
    lemma_good_push(s8, "@SP"@);
    let s9 = s8.push("@SP"@);
    lemma_good_push(s9, "M=M+1"@);
    let s10 = s9.push("M=M+1"@);
    assert(s10 =~= sub_lines());
}

proof fn lemma_good_neg()
    ensures
        good_lines(neg_lines()),
{
    lemma_fixed_lines();
    let s0 = Seq::<Seq<char>>::empty();
    lemma_good_push(s0, "@SP"@);
    let s1 = s0.push("@SP"@);
    lemma_good_push(s1, "M=M-1"@);
    let s2 = s1.push("M=M-1"@);
    lemma_good_push(s2, "A=M"@);
    let s3 = s2.push("A=M"@);
    lemma_good_push(s3, "M=-M"@);
    let s4 = s3.push("M=-M"@);
    lemma_good_push(s4, "@SP"@);
    let s5 = s4.push("@SP"@);
    lemma_good_push(s5, "M=M+1"@);
    let s6 = s5.push("M=M+1"@);
    assert(s6 =~= neg_lines());
}

proof fn lemma_good_and()
    ensures
        good_lines(and_lines()),
{
    lemma_fixed_lines();
    let s0 = Seq::<Seq<char>>::empty();
    lemma_good_push(s0, "@SP"@);
    let s1 = s0.push("@SP"@);
    lemma_good_push(s1, "M=M-1"@);
    let s2 = s1.push("M=M-1"@);
    lemma_good_push(s2, "A=M"@);
    let s3 = s2.push("A=M"@);
    lemma_good_push(s3, "D=M"@);
    let s4 = s3.push("D=M"@);
    lemma_good_push(s4, "@SP"@);
    let s5 = s4.push("@SP"@);
    lemma_good_push(s5, "M=M-1"@);
    let s6 = s5.push("M=M-1"@);
    lemma_good_push(s6, "A=M"@);
    let s7 = s6.push("A=M"@);
    lemma_good_push(s7, "M=D&M"@);
    let s8 = s7.push("M=D&M"@);
    lemma_good_push(s8, "@SP"@);
    let s9 = s8.push("@SP"@);
    lemma_good_push(s9, "M=M+1"@);
    let s10 = s9.push("M=M+1"@);
    assert(s10 =~= and_lines());
}

proof fn lemma_good_or()
    ensures
        good_lines(or_lines()),
{
    lemma_fixed_lines();
    let s0 = Seq::<Seq<char>>::empty();
    lemma_good_push(s0, "@SP"@);
    let s1 = s0.push("@SP"@);
    lemma_good_push(s1, "M=M-1"@);
    let s2 = s1.push("M=M-1"@);
    lemma_good_push(s2, "A=M"@);
    let s3 = s2.push("A=M"@);
    lemma_good_push(s3, "D=M"@);
    let s4 = s3.push("D=M"@);
    lemma_good_push(s4, "@SP"@);
    let s5 = s4.push("@SP"@);
    lemma_good_push(s5, "M=M-1"@);
    let s6 = s5.push("M=M-1"@);
    lemma_good_push(s6, "A=M"@);
    let s7 = s6.push("A=M"@);
    lemma_good_push(s7, "M=D|M"@);
    let s8 = s7.push("M=D|M"@);
    lemma_good_push(s8, "@SP"@);
    let s9 = s8.push("@SP"@);
    lemma_good_push(s9, "M=M+1"@);
    let s10 = s9.push("M=M+1"@);
    assert(s10 =~= or_lines());
}

proof fn lemma_good_not()
    ensures
        good_lines(not_lines()),
{
    lemma_fixed_lines();
    let s0 = Seq::<Seq<char>>::empty();
    lemma_good_push(s0, "@SP"@);
    let s1 = s0.push("@SP"@);
    lemma_good_push(s1, "M=M-1"@);
    let s2 = s1.push("M=M-1"@);
    lemma_good_push(s2, "A=M"@);
    let s3 = s2.push("A=M"@);
    lemma_good_push(s3, "M=!M"@);
    let s4 = s3.push("M=!M"@);
    lemma_good_push(s4, "@SP"@);
    let s5 = s4.push("@SP"@);
    lemma_good_push(s5, "M=M+1"@);
    let s6 = s5.push("M=M+1"@);
    assert(s6 =~= not_lines());
}

#[verifier::rlimit(100)]
proof fn lemma_good_return()
    ensures
        good_lines(return_lines()),
{
    lemma_fixed_lines();
    let s0 = Seq::<Seq<char>>::empty();
    lemma_good_push(s0, "@LCL"@);
    let s1 = s0.push("@LCL"@);
    lemma_good_push(s1, "D=M"@);
    let s2 = s1.push("D=M"@);
    lemma_good_push(s2, "@R14"@);
    let s3 = s2.push("@R14"@);
    lemma_good_push(s3, "M=D"@);
    let s4 = s3.push("M=D"@);
    lemma_good_push(s4, "@R14"@);
    let s5 = s4.push("@R14"@);
    lemma_good_push(s5, "D=M"@);
    let s6 = s5.push("D=M"@);
    lemma_good_push(s6, "@5"@);
    let s7 = s6.push("@5"@);
    lemma_good_push(s7, "D=D-A"@);
    let s8 = s7.push("D=D-A"@);
    lemma_good_push(s8, "A=D"@);
    let s9 = s8.push("A=D"@);
    lemma_good_push(s9, "D=M"@);
    let s10 = s9.push("D=M"@);
    lemma_good_push(s10, "@R15"@);
    let s11 = s10.push("@R15"@);
    lemma_good_push(s11, "M=D"@);
    let s12 = s11.push("M=D"@);
    lemma_good_push(s12, "@SP"@);
    let s13 = s12.push("@SP"@);
    lemma_good_push(s13, "M=M-1"@);
    let s14 = s13.push("M=M-1"@);
    lemma_good_push(s14, "A=M"@);
    let s15 = s14.push("A=M"@);
    lemma_good_push(s15, "D=M"@);
    let s16 = s15.push("D=M"@);
    lemma_good_push(s16, "@ARG"@);
    let s17 = s16.push("@ARG"@);
    lemma_good_push(s17, "A=M"@);
    let s18 = s17.push("A=M"@);
    lemma_good_push(s18, "M=D"@);
    let s19 = s18.push("M=D"@);
    lemma_good_push(s19, "@ARG"@);
    let s20 = s19.push("@ARG"@);
    lemma_good_push(s20, "D=M"@);
    let s21 = s20.push("D=M"@);
    lemma_good_push(s21, "@SP"@);
    let s22 = s21.push("@SP"@);
    lemma_good_push(s22, "M=D+1"@);
    let s23 = s22.push("M=D+1"@);
    lemma_good_push(s23, "@R14"@);
    let s24 = s23.push("@R14"@);
    lemma_good_push(s24, "D=M"@);
    let s25 = s24.push("D=M"@);
    lemma_good_push(s25, "@1"@);
    let s26 = s25.push("@1"@);
    lemma_good_push(s26, "D=D-A"@);
    let s27 = s26.push("D=D-A"@);
    lemma_good_push(s27, "A=D"@);
    let s28 = s27.push("A=D"@);
    lemma_good_push(s28, "D=M"@);
    let s29 = s28.push("D=M"@);
    lemma_good_push(s29, "@THAT"@);
    let s30 = s29.push("@THAT"@);
    lemma_good_push(s30, "M=D"@);
    let s31 = s30.push("M=D"@);
    lemma_good_push(s31, "@R14"@);
    let s32 = s31.push("@R14"@);
    lemma_good_push(s32, "D=M"@);
    let s33 = s32.push("D=M"@);
    lemma_good_push(s33, "@2"@);
    let s34 = s33.push("@2"@);
    lemma_good_push(s34, "D=D-A"@);
    let s35 = s34.push("D=D-A"@);
    lemma_good_push(s35, "A=D"@);
    let s36 = s35.push("A=D"@);
    lemma_good_push(s36, "D=M"@);
    let s37 = s36.push("D=M"@);
    lemma_good_push(s37, "@THIS"@);
    let s38 = s37.push("@THIS"@);
    lemma_good_push(s38, "M=D"@);
    let s39 = s38.push("M=D"@);
    lemma_good_push(s39, "@R14"@);
    let s40 = s39.push("@R14"@);
    lemma_good_push(s40, "D=M"@);
    let s41 = s40.push("D=M"@);
    lemma_good_push(s41, "@4"@);
    let s42 = s41.push("@4"@);
    lemma_good_push(s42, "D=D-A"@);
    let s43 = s42.push("D=D-A"@);
    lemma_good_push(s43, "A=D"@);
    let s44 = s43.push("A=D"@);
    lemma_good_push(s44, "D=M"@);
    let s45 = s44.push("D=M"@);
    lemma_good_push(s45, "@LCL"@);
    let s46 = s45.push("@LCL"@);
    lemma_good_push(s46, "M=D"@);
    let s47 = s46.push("M=D"@);
    lemma_good_push(s47, "@R14"@);
    let s48 = s47.push("@R14"@);
    lemma_good_push(s48, "D=M"@);
    let s49 = s48.push("D=M"@);
    lemma_good_push(s49, "@3"@);
    let s50 = s49.push("@3"@);
    lemma_good_push(s50, "D=D-A"@);
    let s51 = s50.push("D=D-A"@);
    lemma_good_push(s51, "A=D"@);
    let s52 = s51.push("A=D"@);
    lemma_good_push(s52, "D=M"@);
    let s53 = s52.push("D=M"@);
    lemma_good_push(s53, "@ARG"@);
    let s54 = s53.push("@ARG"@);
    lemma_good_push(s54, "M=D"@);
    let s55 = s54.push("M=D"@);
    lemma_good_push(s55, "@R15"@);
    let s56 = s55.push("@R15"@);
    lemma_good_push(s56, "A=M"@);
    let s57 = s56.push("A=M"@);
    lemma_good_push(s57, "0;JMP"@);
    let s58 = s57.push("0;JMP"@);
    assert(s58 =~= return_lines());
}

proof fn lemma_good_push_zero()
    ensures
        good_lines(push_zero_lines()),
{
    lemma_fixed_lines();
    let s0 = Seq::<Seq<char>>::empty();
    lemma_good_push(s0, "@SP"@);
    let s1 = s0.push("@SP"@);
    lemma_good_push(s1, "A=M"@);
    let s2 = s1.push("A=M"@);
    lemma_good_push(s2, "M=0"@);
    let s3 = s2.push("M=0"@);
    lemma_good_push(s3, "@SP"@);
    let s4 = s3.push("@SP"@);
    lemma_good_push(s4, "M=M+1"@);
    let s5 = s4.push("M=M+1"@);
    assert(s5 =~= push_zero_lines());
}

/// `head` (`@` or `(`) followed by text with no newline is a good line.
proof fn lemma_marked(head: Seq<char>, tail: Seq<char>)
    requires
        head == "@"@ || head == "("@,
        no_newline(tail),
    ensures
        good_line(head + tail),
{
    reveal_strlit("@");
    reveal_strlit("(");
    lemma_short_no_newline(head);
    lemma_no_newline_concat(head, tail);
    assert((head + tail)[0] == head[0]);
    lemma_marked_line(head + tail);
}

/// The literal pieces of the labels the translator writes hold no newline.
proof fn lemma_label_pieces()
    ensures
        no_newline("CMP_TRUE_"@),
        no_newline("CMP_END_"@),
        no_newline("_RETURN_"@),
        no_newline(")"@),
        no_newline("LCL"@),
        no_newline("ARG"@),
        no_newline("THIS"@),
        no_newline("THAT"@),
{
    reveal_strlit("CMP_TRUE_");
    lemma_short_no_newline("CMP_TRUE_"@);
    reveal_strlit("CMP_END_");
    lemma_short_no_newline("CMP_END_"@);
    reveal_strlit("_RETURN_");
    lemma_short_no_newline("_RETURN_"@);
    reveal_strlit(")");
    lemma_short_no_newline(")"@);
    reveal_strlit("LCL");
    lemma_short_no_newline("LCL"@);
    reveal_strlit("ARG");
    lemma_short_no_newline("ARG"@);
    reveal_strlit("THIS");
    lemma_short_no_newline("THIS"@);
    reveal_strlit("THAT");
    lemma_short_no_newline("THAT"@);
}

proof fn lemma_good_comparison(op: Seq<char>, k: nat)
    ensures
        good_lines(comparison_lines(op, k)),
{
    lemma_fixed_lines();
    lemma_label_pieces();
    lemma_decimal_no_newline(k);
    let t = "CMP_TRUE_"@ + decimal(k);
    let e = "CMP_END_"@ + decimal(k);
    lemma_no_newline_concat("CMP_TRUE_"@, decimal(k));
    lemma_no_newline_concat("CMP_END_"@, decimal(k));
    lemma_no_newline_concat(t, ")"@);
    lemma_no_newline_concat(e, ")"@);
    lemma_marked("@"@, t);
    lemma_marked("@"@, e);
    lemma_marked("("@, t + ")"@);
    lemma_marked("("@, e + ")"@);
    assert("@"@ + "CMP_TRUE_"@ + decimal(k) =~= "@"@ + t);
    assert("@"@ + "CMP_END_"@ + decimal(k) =~= "@"@ + e);
    assert("("@ + "CMP_TRUE_"@ + decimal(k) + ")"@ =~= "("@ + (t + ")"@));
    assert("("@ + "CMP_END_"@ + decimal(k) + ")"@ =~= "("@ + (e + ")"@));
    let s0 = Seq::<Seq<char>>::empty();
    lemma_good_push(s0, "@SP"@);
    let s1 = s0.push("@SP"@);
    lemma_good_push(s1, "M=M-1"@);
    let s2 = s1.push("M=M-1"@);
    lemma_good_push(s2, "A=M"@);
    let s3 = s2.push("A=M"@);
    lemma_good_push(s3, "D=M"@);
    let s4 = s3.push("D=M"@);
    lemma_good_push(s4, "@SP"@);
    let s5 = s4.push("@SP"@);
    lemma_good_push(s5, "M=M-1"@);
    let s6 = s5.push("M=M-1"@);
    lemma_good_push(s6, "A=M"@);
    let s7 = s6.push("A=M"@);
    lemma_good_push(s7, "D=M-D"@);
    let s8 = s7.push("D=M-D"@);
    lemma_good_push(s8, "@"@ + "CMP_TRUE_"@ + decimal(k));
    let s9 = s8.push("@"@ + "CMP_TRUE_"@ + decimal(k));
    lemma_good_push(s9, comparison_jump_line(op));
    let s10 = s9.push(comparison_jump_line(op));
    lemma_good_push(s10, "@SP"@);
    let s11 = s10.push("@SP"@);
    lemma_good_push(s11, "A=M"@);
    let s12 = s11.push("A=M"@);
    lemma_good_push(s12, "M=0"@);
    let s13 = s12.push("M=0"@);
    lemma_good_push(s13, "@"@ + "CMP_END_"@ + decimal(k));
    let s14 = s13.push("@"@ + "CMP_END_"@ + decimal(k));
    lemma_good_push(s14, "0;JMP"@);
    let s15 = s14.push("0;JMP"@);
    lemma_good_push(s15, "("@ + "CMP_TRUE_"@ + decimal(k) + ")"@);
    let s16 = s15.push("("@ + "CMP_TRUE_"@ + decimal(k) + ")"@);
    lemma_good_push(s16, "@SP"@);
    let s17 = s16.push("@SP"@);
    lemma_good_push(s17, "A=M"@);
    let s18 = s17.push("A=M"@);
    lemma_good_push(s18, "M=-1"@);
    let s19 = s18.push("M=-1"@);
    lemma_good_push(s19, "("@ + "CMP_END_"@ + decimal(k) + ")"@);
    let s20 = s19.push("("@ + "CMP_END_"@ + decimal(k) + ")"@);
    lemma_good_push(s20, "@SP"@);
    let s21 = s20.push("@SP"@);
    lemma_good_push(s21, "M=M+1"@);
    let s22 = s21.push("M=M+1"@);
    assert(s22 =~= comparison_lines(op, k));
}

proof fn lemma_good_push_constant(value: nat)
    ensures
        good_lines(push_constant_lines(value)),
{
    lemma_fixed_lines();
    lemma_decimal_no_newline(value);
    lemma_marked("@"@, decimal(value));
    let s0 = Seq::<Seq<char>>::empty();
    lemma_good_push(s0, "@"@ + decimal(value));
    let s1 = s0.push("@"@ + decimal(value));
    lemma_good_push(s1, "D=A"@);
    let s2 = s1.push("D=A"@);
    lemma_good_push(s2, "@SP"@);
    let s3 = s2.push("@SP"@);
    lemma_good_push(s3, "A=M"@);
    let s4 = s3.push("A=M"@);
    lemma_good_push(s4, "M=D"@);
    let s5 = s4.push("M=D"@);
    lemma_good_push(s5, "@SP"@);
    let s6 = s5.push("@SP"@);
    lemma_good_push(s6, "M=M+1"@);
    let s7 = s6.push("M=M+1"@);
    assert(s7 =~= push_constant_lines(value));
}

proof fn lemma_good_push_fixed(address: nat)
    ensures
        good_lines(push_fixed_lines(address)),
{
    lemma_fixed_lines();
    lemma_decimal_no_newline(address);
    lemma_marked("@"@, decimal(address));
    let s0 = Seq::<Seq<char>>::empty();
    lemma_good_push(s0, "@"@ + decimal(address));
    let s1 = s0.push("@"@ + decimal(address));
    lemma_good_push(s1, "D=M"@);
    let s2 = s1.push("D=M"@);
    lemma_good_push(s2, "@SP"@);
    let s3 = s2.push("@SP"@);
    lemma_good_push(s3, "A=M"@);
    let s4 = s3.push("A=M"@);
    lemma_good_push(s4, "M=D"@);
    let s5 = s4.push("M=D"@);
    lemma_good_push(s5, "@SP"@);
    let s6 = s5.push("@SP"@);
    lemma_good_push(s6, "M=M+1"@);
    let s7 = s6.push("M=M+1"@);
    assert(s7 =~= push_fixed_lines(address));
}

proof fn lemma_good_pop_fixed(address: nat)
    ensures
        good_lines(pop_fixed_lines(address)),
{
    lemma_fixed_lines();
    lemma_decimal_no_newline(address);
    lemma_marked("@"@, decimal(address));
    let s0 = Seq::<Seq<char>>::empty();
    lemma_good_push(s0, "@SP"@);
    let s1 = s0.push("@SP"@);
    lemma_good_push(s1, "M=M-1"@);
    let s2 = s1.push("M=M-1"@);
    lemma_good_push(s2, "A=M"@);
    let s3 = s2.push("A=M"@);
    lemma_good_push(s3, "D=M"@);
    let s4 = s3.push("D=M"@);
    lemma_good_push(s4, "@"@ + decimal(address));
    let s5 = s4.push("@"@ + decimal(address));
    lemma_good_push(s5, "M=D"@);
    let s6 = s5.push("M=D"@);
    assert(s6 =~= pop_fixed_lines(address));
}

proof fn lemma_good_push_segment(segment: Seq<char>, index: Seq<char>)
    requires
        no_newline(index),
    ensures
        good_lines(push_segment_lines(segment, index)),
{
    lemma_fixed_lines();
    lemma_label_pieces();
    lemma_marked("@"@, index);
    lemma_marked("@"@, segment_base_of(segment));
    let s0 = Seq::<Seq<char>>::empty();
    lemma_good_push(s0, "@"@ + index);
    let s1 = s0.push("@"@ + index);
    lemma_good_push(s1, "D=A"@);
    let s2 = s1.push("D=A"@);
    lemma_good_push(s2, "@"@ + segment_base_of(segment));
    let s3 = s2.push("@"@ + segment_base_of(segment));
    lemma_good_push(s3, "A=D+M"@);
    let s4 = s3.push("A=D+M"@);
    lemma_good_push(s4, "D=M"@);
    let s5 = s4.push("D=M"@);
    lemma_good_push(s5, "@SP"@);
    let s6 = s5.push("@SP"@);
    lemma_good_push(s6, "A=M"@);
    let s7 = s6.push("A=M"@);
    lemma_good_push(s7, "M=D"@);
    let s8 = s7.push("M=D"@);
    lemma_good_push(s8, "@SP"@);
    let s9 = s8.push("@SP"@);
    lemma_good_push(s9, "M=M+1"@);
    let s10 = s9.push("M=M+1"@);
    assert(s10 =~= push_segment_lines(segment, index));
}

proof fn lemma_good_pop_segment(segment: Seq<char>, index: Seq<char>)
    requires
        no_newline(index),
    ensures
        good_lines(pop_segment_lines(segment, index)),
{
    lemma_fixed_lines();
    lemma_label_pieces();
    lemma_marked("@"@, index);
    lemma_marked("@"@, segment_base_of(segment));
    let s0 = Seq::<Seq<char>>::empty();
    lemma_good_push(s0, "@"@ + index);
    let s1 = s0.push("@"@ + index);
    lemma_good_push(s1, "D=A"@);
    let s2 = s1.push("D=A"@);
    lemma_good_push(s2, "@"@ + segment_base_of(segment));
    let s3 = s2.push("@"@ + segment_base_of(segment));
    lemma_good_push(s3, "D=D+M"@);
    let s4 = s3.push("D=D+M"@);
    lemma_good_push(s4, "@R13"@);
    let s5 = s4.push("@R13"@);
    lemma_good_push(s5, "M=D"@);
    let s6 = s5.push("M=D"@);
    lemma_good_push(s6, "@SP"@);
    let s7 = s6.push("@SP"@);
    lemma_good_push(s7, "M=M-1"@);
    let s8 = s7.push("M=M-1"@);
    lemma_good_push(s8, "A=M"@);
    let s9 = s8.push("A=M"@);
    lemma_good_push(s9, "D=M"@);
    let s10 = s9.push("D=M"@);
    lemma_good_push(s10, "@R13"@);
    let s11 = s10.push("@R13"@);
    lemma_good_push(s11, "A=M"@);
    let s12 = s11.push("A=M"@);
    lemma_good_push(s12, "M=D"@);
    let s13 = s12.push("M=D"@);
    assert(s13 =~= pop_segment_lines(segment, index));
}

#[verifier::rlimit(100)]
proof fn lemma_good_call(function: Seq<char>, n_args: Seq<char>, k: nat)
    requires
        no_newline(function),
        no_newline(n_args),
    ensures
        good_lines(call_lines(function, n_args, k)),
{
    lemma_fixed_lines();
    lemma_label_pieces();
    lemma_decimal_no_newline(k);
    let r = function + "_RETURN_"@ + decimal(k);
    lemma_no_newline_concat(function, "_RETURN_"@);
    lemma_no_newline_concat(function + "_RETURN_"@, decimal(k));
    lemma_no_newline_concat(r, ")"@);
    lemma_marked("@"@, r);
    lemma_marked("("@, r + ")"@);
    lemma_marked("@"@, n_args);
    lemma_marked("@"@, function);
    assert("@"@ + function + "_RETURN_"@ + decimal(k) =~= "@"@ + r);
    assert("("@ + function + "_RETURN_"@ + decimal(k) + ")"@ =~= "("@ + (r + ")"@));
    let s0 = Seq::<Seq<char>>::empty();
    lemma_good_push(s0, "@"@ + function + "_RETURN_"@ + decimal(k));
    let s1 = s0.push("@"@ + function + "_RETURN_"@ + decimal(k));
    lemma_good_push(s1, "D=A"@);
    let s2 = s1.push("D=A"@);
    lemma_good_push(s2, "@SP"@);
    let s3 = s2.push("@SP"@);
    lemma_good_push(s3, "A=M"@);
    let s4 = s3.push("A=M"@);
    lemma_good_push(s4, "M=D"@);
    let s5 = s4.push("M=D"@);
    lemma_good_push(s5, "@SP"@);
    let s6 = s5.push("@SP"@);
    lemma_good_push(s6, "M=M+1"@);
    let s7 = s6.push("M=M+1"@);
    lemma_good_push(s7, "@LCL"@);
    let s8 = s7.push("@LCL"@);
    lemma_good_push(s8, "D=M"@);
    let s9 = s8.push("D=M"@);
    lemma_good_push(s9, "@SP"@);
    let s10 = s9.push("@SP"@);
    lemma_good_push(s10, "A=M"@);
    let s11 = s10.push("A=M"@);
    lemma_good_push(s11, "M=D"@);
    let s12 = s11.push("M=D"@);
    lemma_good_push(s12, "@SP"@);
    let s13 = s12.push("@SP"@);
    lemma_good_push(s13, "M=M+1"@);
    let s14 = s13.push("M=M+1"@);
    lemma_good_push(s14, "@ARG"@);
    let s15 = s14.push("@ARG"@);
    lemma_good_push(s15, "D=M"@);
    let s16 = s15.push("D=M"@);
    lemma_good_push(s16, "@SP"@);
    let s17 = s16.push("@SP"@);
    lemma_good_push(s17, "A=M"@);
    let s18 = s17.push("A=M"@);
    lemma_good_push(s18, "M=D"@);
    let s19 = s18.push("M=D"@);
    lemma_good_push(s19, "@SP"@);
    let s20 = s19.push("@SP"@);
    lemma_good_push(s20, "M=M+1"@);
    let s21 = s20.push("M=M+1"@);
    lemma_good_push(s21, "@THIS"@);
    let s22 = s21.push("@THIS"@);
    lemma_good_push(s22, "D=M"@);
    let s23 = s22.push("D=M"@);
    lemma_good_push(s23, "@SP"@);
    let s24 = s23.push("@SP"@);
    lemma_good_push(s24, "A=M"@);
    let s25 = s24.push("A=M"@);
    lemma_good_push(s25, "M=D"@);
    let s26 = s25.push("M=D"@);
    lemma_good_push(s26, "@SP"@);
    let s27 = s26.push("@SP"@);
    lemma_good_push(s27, "M=M+1"@);
    let s28 = s27.push("M=M+1"@);
    lemma_good_push(s28, "@THAT"@);
    let s29 = s28.push("@THAT"@);
    lemma_good_push(s29, "D=M"@);
    let s30 = s29.push("D=M"@);
    lemma_good_push(s30, "@SP"@);
    let s31 = s30.push("@SP"@);
    lemma_good_push(s31, "A=M"@);
    let s32 = s31.push("A=M"@);
    lemma_good_push(s32, "M=D"@);
    let s33 = s32.push("M=D"@);
    lemma_good_push(s33, "@SP"@);
    let s34 = s33.push("@SP"@);
    lemma_good_push(s34, "M=M+1"@);
    let s35 = s34.push("M=M+1"@);
    lemma_good_push(s35, "@SP"@);
    let s36 = s35.push("@SP"@);
    lemma_good_push(s36, "D=M"@);
    let s37 = s36.push("D=M"@);
    lemma_good_push(s37, "@5"@);
    let s38 = s37.push("@5"@);
    lemma_good_push(s38, "D=D-A"@);
    let s39 = s38.push("D=D-A"@);
    lemma_good_push(s39, "@"@ + n_args);
    let s40 = s39.push("@"@ + n_args);
    lemma_good_push(s40, "D=D-A"@);
    let s41 = s40.push("D=D-A"@);
    lemma_good_push(s41, "@ARG"@);
    let s42 = s41.push("@ARG"@);
    lemma_good_push(s42, "M=D"@);
    let s43 = s42.push("M=D"@);
    lemma_good_push(s43, "@SP"@);
    let s44 = s43.push("@SP"@);
    lemma_good_push(s44, "D=M"@);
    let s45 = s44.push("D=M"@);
    lemma_good_push(s45, "@LCL"@);
    let s46 = s45.push("@LCL"@);
    lemma_good_push(s46, "M=D"@);
    let s47 = s46.push("M=D"@);
    lemma_good_push(s47, "@"@ + function);
    let s48 = s47.push("@"@ + function);
    lemma_good_push(s48, "0;JMP"@);
    let s49 = s48.push("0;JMP"@);
    lemma_good_push(s49, "("@ + function + "_RETURN_"@ + decimal(k) + ")"@);
    let s50 = s49.push("("@ + function + "_RETURN_"@ + decimal(k) + ")"@);
    assert(s50 =~= call_lines(function, n_args, k));
}

proof fn lemma_good_function(function: Seq<char>, n_locals: nat)
    requires
        no_newline(function),
    ensures
        good_lines(function_lines(function, n_locals)),
{
    lemma_fixed_lines();
    lemma_label_pieces();
    lemma_no_newline_concat(function, ")"@);
    lemma_marked("("@, function + ")"@);
    assert("("@ + function + ")"@ =~= "("@ + (function + ")"@));
    let s0 = Seq::<Seq<char>>::empty();
    lemma_good_push(s0, "("@ + function + ")"@);
    assert(seq!["("@ + function + ")"@] =~= s0.push("("@ + function + ")"@));
    lemma_good_push_zero();
    lemma_good_repeat(push_zero_lines(), n_locals);
    lemma_good_concat(seq!["("@ + function + ")"@], repeat_lines(push_zero_lines(), n_locals));
}

/// The lines of an accepted `push` command are good lines.
proof fn lemma_good_push_command(l: Seq<char>)
    requires
        segment_command_ok(words(l), true),
    ensures
        good_lines(push_lines(words(l))),
{
    let w = words(l);
    lemma_word_no_newline(l, 2);
    let i = parse_u16(w[2]).unwrap();
    if w[1] == "constant"@ {
        lemma_good_push_constant(i as nat);
    } else if is_pointer_segment(w[1]) {
        lemma_good_push_segment(w[1], w[2]);
    } else {
        lemma_good_push_fixed((fixed_base(w[1]).unwrap() + i) as nat);
    }
}

/// The lines of an accepted `pop` command are good lines.
proof fn lemma_good_pop_command(l: Seq<char>)
    requires
        segment_command_ok(words(l), false),
    ensures
        good_lines(pop_lines(words(l))),
{
    let w = words(l);
    lemma_word_no_newline(l, 2);
    let i = parse_u16(w[2]).unwrap();
    if is_pointer_segment(w[1]) {
        lemma_good_pop_segment(w[1], w[2]);
    } else {
        lemma_good_pop_fixed((fixed_base(w[1]).unwrap() + i) as nat);
    }
}

/// The lines of an accepted command are good lines.
proof fn lemma_good_step(l: Seq<char>, k: nat)
    requires
        vm_command_ok(l),
    ensures
        good_lines(vm_step(l, k).0),
{
    if l == "add"@ {
        lemma_good_add();
    } else if l == "sub"@ {
        lemma_good_sub();
    } else if l == "neg"@ {
        lemma_good_neg();
    } else if l == "eq"@ || l == "lt"@ || l == "gt"@ {
        lemma_good_comparison(l, k);
    } else if l == "and"@ {
        lemma_good_and();
    } else if l == "or"@ {
        lemma_good_or();
    } else if l == "not"@ {
        lemma_good_not();
    } else if starts_with(l, "push"@) {
        lemma_good_push_command(l);
    } else if starts_with(l, "pop"@) {
        lemma_good_pop_command(l);
    } else if starts_with(l, "call"@) {
        lemma_word_no_newline(l, 1);
        lemma_word_no_newline(l, 2);
        lemma_good_call(words(l)[1], words(l)[2], k);
    } else if starts_with(l, "function"@) {
        lemma_word_no_newline(l, 1);
        lemma_good_function(words(l)[1], parse_u16(words(l)[2]).unwrap() as nat);
    } else if l == "return"@ {
        lemma_good_return();
    }
}

/// The lines the translator writes for accepted command lines are good lines.
proof fn lemma_good_pass(lines: Seq<Seq<char>>)
    requires
        forall|i: int|
            0 <= i < lines.len() && !is_blank_or_comment(#[trigger] lines[i]) ==> vm_command_ok(lines[i]),
    ensures
        good_lines(vm_pass(lines).0),
    decreases lines.len(),
{
    if lines.len() == 0 {
        lemma_good_bootstrap();
    } else {
        let p = lines.drop_last();
        assert forall|i: int| 0 <= i < p.len() && !is_blank_or_comment(#[trigger] p[i]) implies
            vm_command_ok(p[i]) by {
            assert(p[i] == lines[i]);
        }
        lemma_good_pass(p);
        let l = lines.last();
        if !is_blank_or_comment(l) {
            assert(lines[lines.len() - 1] == l);
            lemma_good_step(l, vm_pass(p).1);
            lemma_good_concat(vm_pass(p).0, vm_step(l, vm_pass(p).1).0);
        }
    }
}

/// Every line of the translator's output that the assembler reads as a
/// C-instruction spells known computation, destination and jump mnemonics:
/// translated programs never hit the assembler's mnemonic errors.
pub proof fn lemma_translation_mnemonics_known(source: Seq<char>)
    requires
        translatable(source),
    ensures
        forall|i: int|
            0 <= i < trimmed_lines(translated(source)).len() && is_c_line(
                #[trigger] trimmed_lines(translated(source))[i],
            ) ==> c_instruction_ok(trimmed_lines(translated(source))[i]),
{
    let ls = vm_pass(trimmed_lines(source)).0;
    lemma_good_pass(trimmed_lines(source));
    assert forall|i: int| 0 <= i < ls.len() implies no_newline(#[trigger] ls[i]) by {
        assert(good_line(ls[i]));
    }
    lemma_split_join(ls);
    let t = trimmed_lines(translated(source));
    let sp = ls.push(Seq::<char>::empty());
    assert(split_lines(translated(source)) == sp);
    assert forall|i: int| 0 <= i < t.len() && is_c_line(#[trigger] t[i]) implies c_instruction_ok(
        t[i],
    ) by {
        assert(t[i] == trim(sp[i]));
        if i < ls.len() {
            assert(sp[i] == ls[i]);
            assert(good_line(ls[i]));
        } else {
            assert(sp[i] == Seq::<char>::empty());
            assert(trim(Seq::<char>::empty()) =~= Seq::<char>::empty());
        }
    }
}

/// The output of the translator is a program the assembler accepts,
/// wherever its label and variable counts stay within the assembler's
/// 16-bit address range.
pub proof fn lemma_translation_assemblable(source: Seq<char>)
    requires
        translatable(source),
        first_pass(trimmed_lines(translated(source))).1 <= 0xffff,
        second_pass(
            trimmed_lines(translated(source)),
            first_pass(trimmed_lines(translated(source))).0,
        ).1 <= 0xffff,
    ensures
        assemblable(translated(source)),
{
    lemma_translation_mnemonics_known(source);
}

} // verus!
