//! Character-level text handling shared by the assembler and the VM translator:
//! line splitting, whitespace trimming, word splitting, prefix tests, and
//! decimal numbers (reading and writing).
use vstd::prelude::*;

verus! {

// ---------------------------------------------------------------------------
// Whitespace
// ---------------------------------------------------------------------------

/// The Unicode `White_Space` characters: the characters that `str::trim` and
/// `str::split_whitespace` treat as whitespace.
pub open spec fn is_ws(c: char) -> bool {
    let n = c as u32;
    ||| 0x09 <= n <= 0x0d
    ||| n == 0x20
    ||| n == 0x85
    ||| n == 0xa0
    ||| n == 0x1680
    ||| 0x2000 <= n <= 0x200a
    ||| n == 0x2028
    ||| n == 0x2029
    ||| n == 0x202f
    ||| n == 0x205f
    ||| n == 0x3000
}

/// Tells whether `c` is a Unicode whitespace character.
pub fn is_whitespace(c: char) -> (b: bool)
    ensures
        b == is_ws(c),
{
    let n = c as u32;
    (0x09 <= n && n <= 0x0d) || n == 0x20 || n == 0x85 || n == 0xa0 || n == 0x1680 || (0x2000
        <= n && n <= 0x200a) || n == 0x2028 || n == 0x2029 || n == 0x202f || n == 0x205f || n
        == 0x3000
}

/// `s` without its leading whitespace.
pub open spec fn trim_start(s: Seq<char>) -> Seq<char>
    decreases s.len(),
{
    if s.len() > 0 && is_ws(s[0]) {
        trim_start(s.drop_first())
    } else {
        s
    }
}

/// `s` without its trailing whitespace.
pub open spec fn trim_end(s: Seq<char>) -> Seq<char>
    decreases s.len(),
{
    if s.len() > 0 && is_ws(s.last()) {
        trim_end(s.drop_last())
    } else {
        s
    }
}

/// `s` without leading and trailing whitespace (as `str::trim`).
pub open spec fn trim(s: Seq<char>) -> Seq<char> {
    trim_end(trim_start(s))
}

// ---------------------------------------------------------------------------
// Lines and words
// ---------------------------------------------------------------------------

/// The pieces of `s` between newline characters, in order; there is always
/// at least one piece (the text after the last newline, possibly empty).
pub open spec fn split_lines(s: Seq<char>) -> Seq<Seq<char>>
    decreases s.len(),
{
    if s.len() == 0 {
        seq![Seq::<char>::empty()]
    } else {
        let prev = split_lines(s.drop_last());
        if s.last() == '\n' {
            prev.push(Seq::<char>::empty())
        } else {
            prev.update(prev.len() - 1, prev.last().push(s.last()))
        }
    }
}

/// The lines of a source text, each trimmed of surrounding whitespace.
pub open spec fn trimmed_lines(s: Seq<char>) -> Seq<Seq<char>> {
    split_lines(s).map_values(|l: Seq<char>| trim(l))
}

/// The maximal runs of non-whitespace characters of `s`, in order
/// (as `str::split_whitespace`).
pub open spec fn words(s: Seq<char>) -> Seq<Seq<char>>
    decreases s.len(),
{
    if s.len() == 0 {
        Seq::<Seq<char>>::empty()
    } else {
        let prev = words(s.drop_last());
        let c = s.last();
        if is_ws(c) {
            prev
        } else if s.len() >= 2 && !is_ws(s[s.len() - 2]) {
            prev.update(prev.len() - 1, prev.last().push(c))
        } else {
            prev.push(seq![c])
        }
    }
}

/// The character sequences of a list of character vectors.
pub open spec fn view_lines(v: Seq<Vec<char>>) -> Seq<Seq<char>> {
    v.map_values(|l: Vec<char>| l@)
}

/// Each line followed by a newline, in order.
pub open spec fn join_lines(ls: Seq<Seq<char>>) -> Seq<char>
    decreases ls.len(),
{
    if ls.len() == 0 {
        Seq::<char>::empty()
    } else {
        join_lines(ls.drop_last()) + ls.last() + seq!['\n']
    }
}

/// `s` holds no newline character.
pub open spec fn no_newline(s: Seq<char>) -> bool {
    forall|i: int| 0 <= i < s.len() ==> s[i] != '\n'
}

/// `p` is a prefix of `s`.
pub open spec fn starts_with(s: Seq<char>, p: Seq<char>) -> bool {
    p.len() <= s.len() && s.subrange(0, p.len() as int) == p
}

/// A line that carries nothing: empty, or a `//` comment.
pub open spec fn is_blank_or_comment(l: Seq<char>) -> bool {
    l.len() == 0 || starts_with(l, "//"@)
}

/// The position of the first `c` in `s`, or `s.len()` when there is none.
pub open spec fn first_index(s: Seq<char>, c: char) -> int
    decreases s.len(),
{
    if s.len() == 0 {
        0
    } else if s[0] == c {
        0
    } else {
        1 + first_index(s.drop_first(), c)
    }
}

// ---------------------------------------------------------------------------
// Decimal numbers
// ---------------------------------------------------------------------------

/// `c` is one of the ASCII digits `0`..`9`.
pub open spec fn is_digit(c: char) -> bool {
    '0' <= c <= '9'
}

/// The value of an ASCII digit.
pub open spec fn digit_value(c: char) -> nat {
    (c as nat - '0' as nat) as nat
}

/// The ASCII digit of a value below ten.
pub open spec fn digit_char(d: nat) -> char {
    (d + '0' as nat) as char
}

/// Every character of `s` is an ASCII digit.
pub open spec fn all_digits(s: Seq<char>) -> bool {
    forall|i: int| 0 <= i < s.len() ==> is_digit(#[trigger] s[i])
}

/// The number that the digit string `s` denotes in base ten (0 when empty).
pub open spec fn digits_value(s: Seq<char>) -> nat
    decreases s.len(),
{
    if s.len() == 0 {
        0
    } else {
        digits_value(s.drop_last()) * 10 + digit_value(s.last())
    }
}

/// `s` without one leading `+` sign, if it has one.
pub open spec fn unsigned_digits(s: Seq<char>) -> Seq<char> {
    if s.len() > 0 && s[0] == '+' {
        s.drop_first()
    } else {
        s
    }
}

/// What `str::parse::<u16>` gives: an optional `+` followed by at least one
/// ASCII digit, whose value fits in 16 bits; `None` for anything else.
pub open spec fn parse_u16(s: Seq<char>) -> Option<u16> {
    let d = unsigned_digits(s);
    if d.len() > 0 && all_digits(d) && digits_value(d) < 0x10000 {
        Some(digits_value(d) as u16)
    } else {
        None
    }
}

/// The shortest decimal writing of `n` (as `Display` writes an unsigned number).
pub open spec fn decimal(n: nat) -> Seq<char>
    decreases n,
{
    if n < 10 {
        seq![digit_char(n)]
    } else {
        decimal(n / 10).push(digit_char(n % 10))
    }
}

// ---------------------------------------------------------------------------
// Lemmas
// ---------------------------------------------------------------------------

/// Any text splits into at least one line.
pub proof fn lemma_split_lines_nonempty(s: Seq<char>)
    ensures
        split_lines(s).len() >= 1,
    decreases s.len(),
{
    if s.len() > 0 {
        lemma_split_lines_nonempty(s.drop_last());
    }
}

/// Joining one more line appends that line and a newline.
pub proof fn lemma_join_push(ls: Seq<Seq<char>>, x: Seq<char>)
    ensures
        join_lines(ls.push(x)) == join_lines(ls) + x + seq!['\n'],
{
    assert(ls.push(x).drop_last() =~= ls);
}

/// Joining two lists of lines is joining each and concatenating.
pub proof fn lemma_join_concat(a: Seq<Seq<char>>, b: Seq<Seq<char>>)
    ensures
        join_lines(a + b) == join_lines(a) + join_lines(b),
    decreases b.len(),
{
    if b.len() == 0 {
        assert(a + b =~= a);
        assert(join_lines(a) + join_lines(b) =~= join_lines(a));
    } else {
        lemma_join_concat(a, b.drop_last());
        assert((a + b).drop_last() =~= a + b.drop_last());
        assert((a + b).last() == b.last());
        assert(join_lines(a + b) =~= join_lines(a) + join_lines(b));
    }
}

/// Appending text without a newline extends the last line.
pub proof fn lemma_split_append(s: Seq<char>, t: Seq<char>)
    requires
        no_newline(t),
    ensures
        split_lines(s).len() >= 1,
        split_lines(s + t) == split_lines(s).update(
            split_lines(s).len() - 1,
            split_lines(s).last() + t,
        ),
    decreases t.len(),
{
    lemma_split_lines_nonempty(s);
    let ls = split_lines(s);
    if t.len() == 0 {
        assert(s + t =~= s);
        assert(ls.last() + t =~= ls.last());
        assert(ls.update(ls.len() - 1, ls.last() + t) =~= ls);
    } else {
        let u = t.drop_last();
        assert forall|i: int| 0 <= i < u.len() implies u[i] != '\n' by {
            assert(u[i] == t[i]);
        }
        lemma_split_append(s, u);
        assert((s + t).drop_last() =~= s + u);
        assert((s + t).last() == t.last());
        assert(t.last() != '\n');
        let prev = split_lines(s + u);
        assert(prev =~= ls.update(ls.len() - 1, ls.last() + u));
        assert(split_lines(s + t) == prev.update(prev.len() - 1, prev.last().push(t.last())));
        assert((ls.last() + u).push(t.last()) =~= ls.last() + t);
        assert(split_lines(s + t) =~= ls.update(ls.len() - 1, ls.last() + t));
    }
}

/// The lines of joined lines are those lines, then the empty text after
/// the last newline.
pub proof fn lemma_split_join(ls: Seq<Seq<char>>)
    requires
        forall|i: int| 0 <= i < ls.len() ==> no_newline(#[trigger] ls[i]),
    ensures
        split_lines(join_lines(ls)) == ls.push(Seq::<char>::empty()),
    decreases ls.len(),
{
    if ls.len() == 0 {
        assert(split_lines(Seq::<char>::empty()) =~= ls.push(Seq::<char>::empty()));
    } else {
        let p = ls.drop_last();
        let x = ls.last();
        assert forall|i: int| 0 <= i < p.len() implies no_newline(#[trigger] p[i]) by {
            assert(p[i] == ls[i]);
        }
        lemma_split_join(p);
        assert(no_newline(ls[ls.len() - 1]));
        let j = join_lines(p) + x;
        lemma_split_append(join_lines(p), x);
        assert(join_lines(ls) == j + seq!['\n']);
        assert((j + seq!['\n']).drop_last() =~= j);
        assert((j + seq!['\n']).last() == '\n');
        assert(Seq::<char>::empty() + x =~= x);
        assert(split_lines(j) =~= p.push(x));
        assert(split_lines(join_lines(ls)) =~= ls.push(Seq::<char>::empty()));
    }
}

/// A text that ends in a non-whitespace character has at least one word.
pub proof fn lemma_words_nonempty(s: Seq<char>)
    requires
        s.len() > 0,
        !is_ws(s.last()),
    ensures
        words(s).len() >= 1,
    decreases s.len(),
{
    if s.len() >= 2 && !is_ws(s[s.len() - 2]) {
        lemma_words_nonempty(s.drop_last());
    }
}

/// The first occurrence of `c` in `s` is at `i` when `s[i]` is `c` and none
/// comes before it (or at the end, when `c` does not occur).
pub proof fn lemma_first_index_at(s: Seq<char>, c: char, i: int)
    requires
        0 <= i <= s.len(),
        forall|j: int| 0 <= j < i ==> s[j] != c,
        i == s.len() || s[i] == c,
    ensures
        first_index(s, c) == i,
    decreases i,
{
    if i > 0 {
        let t = s.drop_first();
        assert forall|j: int| 0 <= j < i - 1 implies t[j] != c by {
            assert(t[j] == s[j + 1]);
        }
        if i < s.len() {
            assert(t[i - 1] == s[i]);
        }
        lemma_first_index_at(t, c, i - 1);
    }
}

proof fn lemma_digits_value_monotone(s: Seq<char>, k: int)
    requires
        0 <= k <= s.len(),
        all_digits(s),
    ensures
        digits_value(s.subrange(0, k)) <= digits_value(s),
    decreases s.len() - k,
{
    if k < s.len() {
        lemma_digits_value_monotone(s, k + 1);
        let t = s.subrange(0, k + 1);
        assert(t.drop_last() =~= s.subrange(0, k));
    } else {
        assert(s.subrange(0, k) =~= s);
    }
}

/// Writing a number in decimal and reading it back gives the number again.
pub proof fn lemma_parse_decimal(n: u16)
    ensures
        parse_u16(decimal(n as nat)) == Some(n),
{
    lemma_decimal_digits(n as nat);
}

proof fn lemma_digit_char(d: nat)
    requires
        d < 10,
    ensures
        is_digit(digit_char(d)),
        digit_value(digit_char(d)) == d,
        digit_char(d) != '+',
{
}

/// The decimal form of a number is a non-empty run of digits whose value
/// is the number.
pub proof fn lemma_decimal_digits(n: nat)
    ensures
        decimal(n).len() > 0,
        decimal(n)[0] != '+',
        all_digits(decimal(n)),
        digits_value(decimal(n)) == n,
    decreases n,
{
    if n < 10 {
        lemma_digit_char(n);
        assert(decimal(n).drop_last() =~= Seq::<char>::empty());
        assert(digits_value(Seq::<char>::empty()) == 0);
    } else {
        lemma_decimal_digits(n / 10);
        let d = decimal(n);
        assert(d.drop_last() =~= decimal(n / 10));
        assert(d[0] == decimal(n / 10)[0]);
        lemma_digit_char(n % 10);
        assert(d.last() == digit_char(n % 10));
        assert((n / 10) * 10 + n % 10 == n) by (nonlinear_arith);
        assert forall|i: int| 0 <= i < d.len() implies is_digit(#[trigger] d[i]) by {
            if i < d.len() - 1 {
                assert(d[i] == decimal(n / 10)[i]);
            }
        }
    }
}

// ---------------------------------------------------------------------------
// Executable helpers
// ---------------------------------------------------------------------------

/// `String::push`: the string afterwards is the string before, followed by `c`.
#[verifier::external_body]
pub(crate) fn push_char(s: &mut String, c: char)
    ensures
        final(s)@ == old(s)@.push(c),
{
    s.push(c)
}

/// The characters of `s`, in order.
pub fn chars_of(s: &str) -> (v: Vec<char>)
    ensures
        v@ == s@,
{
    let mut v: Vec<char> = Vec::new();
    for c in it: s.chars()
        invariant
            v@ == it.seq().take(it.index() as int),
            it.seq() == s@,
    {
        v.push(c);
    }
    v
}

/// Appends the characters of `v` to `out`.
pub fn push_chars(out: &mut String, v: &Vec<char>)
    ensures
        final(out)@ == old(out)@ + v@,
{
    let ghost start = out@;
    let mut i: usize = 0;
    while i < v.len()
        invariant
            i <= v.len(),
            out@ == start + v@.subrange(0, i as int),
        decreases v.len() - i,
    {
        push_char(out, v[i]);
        i = i + 1;
        assert(v@.subrange(0, i as int) =~= v@.subrange(0, i - 1).push(v@[i - 1]));
    }
    assert(v@.subrange(0, v.len() as int) =~= v@);
}

/// The characters of `a` and `b` are the same.
pub fn str_eq(a: &str, b: &str) -> (r: bool)
    ensures
        r == (a@ == b@),
{
    let n = a.unicode_len();
    if n != b.unicode_len() {
        return false;
    }
    let mut i: usize = 0;
    while i < n
        invariant
            n == a@.len(),
            n == b@.len(),
            i <= n,
            forall|j: int| 0 <= j < i ==> a@[j] == b@[j],
        decreases n - i,
    {
        if a.get_char(i) != b.get_char(i) {
            return false;
        }
        i = i + 1;
    }
    assert(a@ =~= b@);
    true
}

/// Appends the decimal writing of `n` to `out`.
pub fn push_decimal(out: &mut String, n: u16)
    ensures
        final(out)@ == old(out)@ + decimal(n as nat),
    decreases n,
{
    if n >= 10 {
        push_decimal(out, n / 10);
    }
    let d = (n % 10) as u8;
    let c = (d + 48u8) as char;
    assert(c == digit_char((n % 10) as nat));
    push_char(out, c);
    assert(decimal(n as nat) == if n < 10 {
        seq![digit_char(n as nat)]
    } else {
        decimal((n / 10) as nat).push(digit_char((n % 10) as nat))
    });
}

/// A copy of `v[lo..hi]`.
pub fn sub_vec(v: &Vec<char>, lo: usize, hi: usize) -> (r: Vec<char>)
    requires
        lo <= hi <= v.len(),
    ensures
        r@ == v@.subrange(lo as int, hi as int),
{
    let mut r: Vec<char> = Vec::new();
    let mut i: usize = lo;
    while i < hi
        invariant
            lo <= i <= hi <= v.len(),
            r@ == v@.subrange(lo as int, i as int),
        decreases hi - i,
    {
        r.push(v[i]);
        i = i + 1;
        assert(r@ =~= v@.subrange(lo as int, i as int));
    }
    r
}

/// `v` has exactly the characters of the literal `s`.
pub fn eq_lit(v: &Vec<char>, s: &str) -> (b: bool)
    ensures
        b == (v@ == s@),
{
    let n = s.unicode_len();
    if n != v.len() {
        return false;
    }
    let mut i: usize = 0;
    while i < n
        invariant
            n == v.len(),
            n == s@.len(),
            i <= n,
            forall|j: int| 0 <= j < i ==> v@[j] == s@[j],
        decreases n - i,
    {
        if v[i] != s.get_char(i) {
            return false;
        }
        i = i + 1;
    }
    assert(v@ =~= s@);
    true
}

/// The literal `p` is a prefix of `v`.
pub fn starts_with_lit(v: &Vec<char>, p: &str) -> (b: bool)
    ensures
        b == starts_with(v@, p@),
{
    let n = p.unicode_len();
    if n > v.len() {
        return false;
    }
    let mut i: usize = 0;
    while i < n
        invariant
            n <= v.len(),
            n == p@.len(),
            i <= n,
            forall|j: int| 0 <= j < i ==> v@[j] == p@[j],
        decreases n - i,
    {
        if v[i] != p.get_char(i) {
            assert(v@.subrange(0, n as int)[i as int] != p@[i as int]);
            return false;
        }
        i = i + 1;
    }
    assert(v@.subrange(0, n as int) =~= p@);
    true
}

/// The position of the first `c` in `v`, or `v.len()` when there is none.
pub fn find_char(v: &Vec<char>, c: char) -> (i: usize)
    ensures
        i == first_index(v@, c),
        i <= v.len(),
{
    let mut i: usize = 0;
    while i < v.len() && v[i] != c
        invariant
            i <= v.len(),
            forall|j: int| 0 <= j < i ==> v@[j] != c,
        decreases v.len() - i,
    {
        i = i + 1;
    }
    proof {
        lemma_first_index_at(v@, c, i as int);
    }
    i
}

/// `v` without leading and trailing whitespace.
pub fn trim_vec(v: &Vec<char>) -> (r: Vec<char>)
    ensures
        r@ == trim(v@),
{
    let len = v.len();
    let mut lo: usize = 0;
    assert(v@.subrange(0, len as int) =~= v@);
    while lo < len && is_whitespace(v[lo])
        invariant
            lo <= len == v.len(),
            trim_start(v@) == trim_start(v@.subrange(lo as int, len as int)),
        decreases len - lo,
    {
        let ghost t = v@.subrange(lo as int, len as int);
        assert(t.drop_first() =~= v@.subrange(lo + 1, len as int));
        lo = lo + 1;
    }
    assert(v@.subrange(0, len as int) =~= v@);
    assert(trim_start(v@) == v@.subrange(lo as int, len as int)) by {
        if lo == len {
            assert(v@.subrange(lo as int, len as int).len() == 0);
        }
    }
    let mut hi: usize = len;
    while hi > lo && is_whitespace(v[hi - 1])
        invariant
            lo <= hi <= len == v.len(),
            trim_end(v@.subrange(lo as int, len as int)) == trim_end(
                v@.subrange(lo as int, hi as int),
            ),
        decreases hi - lo,
    {
        let ghost t = v@.subrange(lo as int, hi as int);
        assert(t.drop_last() =~= v@.subrange(lo as int, hi - 1));
        assert(t.last() == v@[hi - 1]);
        hi = hi - 1;
    }
    proof {
        let t = v@.subrange(lo as int, hi as int);
        if hi > lo {
            assert(t.last() == v@[hi - 1]);
        }
    }
    sub_vec(v, lo, hi)
}

/// The whitespace-separated words of `v`.
pub fn split_words(v: &Vec<char>) -> (r: Vec<Vec<char>>)
    ensures
        view_lines(r@) == words(v@),
{
    let mut done: Vec<Vec<char>> = Vec::new();
    let mut cur: Vec<char> = Vec::new();
    let mut in_word = false;
    let mut i: usize = 0;
    while i < v.len()
        invariant
            i <= v.len(),
            in_word == (i > 0 && !is_ws(v@[i - 1])),
            in_word ==> view_lines(done@).push(cur@) == words(v@.subrange(0, i as int)),
            !in_word ==> view_lines(done@) == words(v@.subrange(0, i as int)) && cur@.len() == 0,
        decreases v.len() - i,
    {
        let c = v[i];
        let ghost p = v@.subrange(0, i + 1);
        let ghost prev = words(v@.subrange(0, i as int));
        let ghost dv0 = view_lines(done@);
        let ghost cur0 = cur@;
        assert(p.drop_last() =~= v@.subrange(0, i as int));
        assert(p.last() == c);
        if is_whitespace(c) {
            assert(words(p) == prev);
            if in_word {
                done.push(cur);
                cur = Vec::new();
                assert(view_lines(done@) =~= dv0.push(cur0));
            }
            in_word = false;
        } else {
            if in_word {
                assert(p[p.len() - 2] == v@[i - 1]);
                proof {
                    lemma_words_nonempty(v@.subrange(0, i as int));
                }
                cur.push(c);
                assert(words(p) == prev.update(prev.len() - 1, prev.last().push(c)));
                assert(view_lines(done@).push(cur@) =~= prev.update(
                    prev.len() - 1,
                    prev.last().push(c),
                ));
            } else {
                if i > 0 {
                    assert(p[p.len() - 2] == v@[i - 1]);
                }
                cur.push(c);
                assert(cur@ =~= seq![c]);
                assert(words(p) == prev.push(seq![c]));
            }
            in_word = true;
        }
        i = i + 1;
    }
    let ghost dv0 = view_lines(done@);
    let ghost cur0 = cur@;
    if in_word {
        done.push(cur);
        assert(view_lines(done@) =~= dv0.push(cur0));
    }
    assert(v@.subrange(0, v.len() as int) =~= v@);
    done
}

/// The lines of `src`, each trimmed of surrounding whitespace.
pub fn source_lines(src: &str) -> (r: Vec<Vec<char>>)
    ensures
        view_lines(r@) == trimmed_lines(src@),
{
    let chars = chars_of(src);
    let mut done: Vec<Vec<char>> = Vec::new();
    let mut cur: Vec<char> = Vec::new();
    let mut i: usize = 0;
    assert(chars@.subrange(0, 0) =~= Seq::<char>::empty());
    assert(view_lines(done@).push(cur@) =~= seq![Seq::<char>::empty()]);
    while i < chars.len()
        invariant
            i <= chars.len(),
            view_lines(done@).push(cur@) == split_lines(chars@.subrange(0, i as int)),
        decreases chars.len() - i,
    {
        let c = chars[i];
        let ghost p = chars@.subrange(0, i + 1);
        let ghost prev = split_lines(chars@.subrange(0, i as int));
        let ghost dv0 = view_lines(done@);
        let ghost cur0 = cur@;
        assert(p.drop_last() =~= chars@.subrange(0, i as int));
        assert(p.last() == c);
        if c == '\n' {
            done.push(cur);
            cur = Vec::new();
            assert(view_lines(done@) =~= dv0.push(cur0));
            assert(split_lines(p) == prev.push(Seq::<char>::empty()));
            assert(view_lines(done@).push(cur@) =~= split_lines(p));
        } else {
            cur.push(c);
            assert(split_lines(p) == prev.update(prev.len() - 1, prev.last().push(c)));
            assert(view_lines(done@).push(cur@) =~= split_lines(p));
        }
        i = i + 1;
    }
    let ghost dv0 = view_lines(done@);
    let ghost cur0 = cur@;
    done.push(cur);
    assert(view_lines(done@) =~= dv0.push(cur0));
    assert(chars@.subrange(0, chars.len() as int) =~= chars@);
    let ghost raw = view_lines(done@);
    assert(raw == split_lines(src@));
    let mut r: Vec<Vec<char>> = Vec::new();
    let mut k: usize = 0;
    while k < done.len()
        invariant
            k <= done.len(),
            raw == view_lines(done@),
            view_lines(r@) == raw.subrange(0, k as int).map_values(|l: Seq<char>| trim(l)),
        decreases done.len() - k,
    {
        let ghost r0 = view_lines(r@);
        let t = trim_vec(&done[k]);
        assert(done[k as int]@ == raw[k as int]);
        r.push(t);
        assert(view_lines(r@) =~= r0.push(trim(raw[k as int])));
        k = k + 1;
        assert(view_lines(r@) =~= raw.subrange(0, k as int).map_values(|l: Seq<char>| trim(l)));
    }
    assert(raw.subrange(0, done.len() as int) =~= raw);
    r
}

/// Reads `v[lo..hi]` as `str::parse::<u16>` does.
pub fn parse_u16_range(v: &Vec<char>, lo: usize, hi: usize) -> (r: Option<u16>)
    requires
        lo <= hi <= v.len(),
    ensures
        r == parse_u16(v@.subrange(lo as int, hi as int)),
{
    let ghost s = v@.subrange(lo as int, hi as int);
    let mut start = lo;
    if lo < hi && v[lo] == '+' {
        start = lo + 1;
    }
    let ghost d = v@.subrange(start as int, hi as int);
    assert(d =~= unsigned_digits(s));
    if start == hi {
        return None;
    }
    let mut acc: u32 = 0;
    let mut i: usize = start;
    while i < hi
        invariant
            lo <= start < hi <= v.len(),
            start <= i <= hi,
            s == v@.subrange(lo as int, hi as int),
            d == v@.subrange(start as int, hi as int),
            d == unsigned_digits(s),
            all_digits(v@.subrange(start as int, i as int)),
            acc == digits_value(v@.subrange(start as int, i as int)),
            acc < 0x10000,
        decreases hi - i,
    {
        let c = v[i];
        let ghost p = v@.subrange(start as int, i + 1);
        assert(p.drop_last() =~= v@.subrange(start as int, i as int));
        assert(p.last() == c);
        if !('0' <= c && c <= '9') {
            assert(d[i - start] == c);
            assert(!is_digit(d[i - start]));
            return None;
        }
        let dv = (c as u32) - ('0' as u32);
        assert(dv == digit_value(c));
        acc = acc * 10 + dv;
        i = i + 1;
        assert(all_digits(p)) by {
            assert forall|j: int| 0 <= j < p.len() implies is_digit(#[trigger] p[j]) by {
                if j < p.len() - 1 {
                    assert(p[j] == p.drop_last()[j]);
                }
            }
        }
        if acc >= 0x10000 {
            proof {
                if all_digits(d) {
                    lemma_digits_value_monotone(d, i - start);
                    assert(d.subrange(0, i - start) =~= p);
                }
            }
            return None;
        }
    }
    assert(v@.subrange(start as int, hi as int) =~= d);
    Some(acc as u16)
}

} // verus!
