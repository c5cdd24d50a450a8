//! Character sequences: decimal numerals, prefixes, removal of a pattern,
//! lines and trimming.

use vstd::prelude::*;

verus! {

/// The numeral of a single decimal digit.
pub open spec fn digit(d: nat) -> char {
    if d == 0 {
        '0'
    } else if d == 1 {
        '1'
    } else if d == 2 {
        '2'
    } else if d == 3 {
        '3'
    } else if d == 4 {
        '4'
    } else if d == 5 {
        '5'
    } else if d == 6 {
        '6'
    } else if d == 7 {
        '7'
    } else if d == 8 {
        '8'
    } else {
        '9'
    }
}

/// The decimal numeral of `n`, without leading zeros.
pub open spec fn decimal(n: nat) -> Seq<char>
    decreases n,
{
    if n < 10 {
        seq![digit(n)]
    } else {
        decimal(n / 10).push(digit(n % 10))
    }
}

fn digit_char(d: usize) -> (c: char)
    requires
        d < 10,
    ensures
        c == digit(d as nat),
{
    if d == 0 {
        '0'
    } else if d == 1 {
        '1'
    } else if d == 2 {
        '2'
    } else if d == 3 {
        '3'
    } else if d == 4 {
        '4'
    } else if d == 5 {
        '5'
    } else if d == 6 {
        '6'
    } else if d == 7 {
        '7'
    } else if d == 8 {
        '8'
    } else {
        '9'
    }
}

/// The characters of the decimal numeral of `n`.
pub fn decimal_chars(n: usize) -> (v: Vec<char>)
    ensures
        v@ == decimal(n as nat),
    decreases n,
{
    if n < 10 {
        let mut v: Vec<char> = Vec::new();
        v.push(digit_char(n));
        v
    } else {
        let mut v = decimal_chars(n / 10);
        v.push(digit_char(n % 10));
        v
    }
}

/// The characters of a string, in order.
pub fn chars_of(s: &str) -> (v: Vec<char>)
    ensures
        v@ == s@,
{
    let mut v: Vec<char> = Vec::new();
    for c in it: s.chars()
        invariant
            it.seq() == s@,
            v@ == it.seq().subrange(0, it.index() as int),
    {
        v.push(c);
        assert(v@ =~= it.seq().subrange(0, it.index() + 1));
    }
    assert(s@.subrange(0, s@.len() as int) =~= s@);
    v
}

/// Calls `String::push`. Taken on trust: afterwards the string holds what
/// it held before, followed by `c`.
#[verifier::external_body]
pub(crate) fn push_char(text: &mut String, c: char)
    ensures
        final(text)@ == old(text)@.push(c),
{
    text.push(c)
}

/// The string made of the given characters, in order.
pub fn string_of(chars: &Vec<char>) -> (s: String)
    ensures
        s@ == chars@,
{
    let mut s = String::new();
    let mut i: usize = 0;
    while i < chars.len()
        invariant
            i <= chars.len(),
            s@ == chars@.subrange(0, i as int),
        decreases chars.len() - i,
    {
        push_char(&mut s, chars[i]);
        i += 1;
        assert(s@ =~= chars@.subrange(0, i as int));
    }
    assert(chars@.subrange(0, chars@.len() as int) =~= chars@);
    s
}

/// A copy of the items of `s` from `from` up to `to`.
pub fn slice_of(s: &Vec<char>, from: usize, to: usize) -> (v: Vec<char>)
    requires
        from <= to <= s.len(),
    ensures
        v@ == s@.subrange(from as int, to as int),
{
    let mut v: Vec<char> = Vec::new();
    let mut i: usize = from;
    while i < to
        invariant
            from <= i <= to <= s.len(),
            v@ == s@.subrange(from as int, i as int),
        decreases to - i,
    {
        v.push(s[i]);
        i += 1;
        assert(v@ =~= s@.subrange(from as int, i as int));
    }
    v
}

/// Whether `pat` stands in `s` at position `at`.
pub fn has_prefix_at(s: &Vec<char>, at: usize, pat: &Vec<char>) -> (r: bool)
    requires
        at <= s.len(),
    ensures
        r == pat@.is_prefix_of(s@.subrange(at as int, s.len() as int)),
{
    let ghost rest = s@.subrange(at as int, s.len() as int);
    if pat.len() > s.len() - at {
        return false;
    }
    let mut k: usize = 0;
    while k < pat.len()
        invariant
            k <= pat.len(),
            at <= s.len(),
            pat.len() <= s.len() - at,
            rest == s@.subrange(at as int, s.len() as int),
            forall|j: int| 0 <= j < k ==> pat@[j] == rest[j],
        decreases pat.len() - k,
    {
        if pat[k] != s[at + k] {
            assert(rest.subrange(0, pat@.len() as int)[k as int] != pat@[k as int]);
            return false;
        }
        k += 1;
    }
    assert(pat@ =~= rest.subrange(0, pat@.len() as int));
    true
}

/// `s` with every occurrence of `pat` taken out, found from left to right
/// and never overlapping. An empty `pat` takes nothing out.
pub open spec fn removed(s: Seq<char>, pat: Seq<char>) -> Seq<char>
    decreases s.len(),
{
    if s.len() == 0 {
        s
    } else if pat.len() > 0 && pat.is_prefix_of(s) {
        removed(s.subrange(pat.len() as int, s.len() as int), pat)
    } else {
        seq![s[0]] + removed(s.drop_first(), pat)
    }
}

/// Takes every occurrence of `pat` out of `s`.
pub fn without(s: &Vec<char>, pat: &Vec<char>) -> (r: Vec<char>)
    ensures
        r@ == removed(s@, pat@),
{
    let n: usize = s.len();
    let mut out: Vec<char> = Vec::new();
    let mut i: usize = 0;
    assert(s@.subrange(0, n as int) =~= s@);
    while i < n
        invariant
            i <= n,
            n == s.len(),
            out@ + removed(s@.subrange(i as int, n as int), pat@) == removed(s@, pat@),
        decreases n - i,
    {
        let ghost rest = s@.subrange(i as int, n as int);
        if pat.len() > 0 && has_prefix_at(s, i, pat) {
            assert(rest.subrange(pat@.len() as int, rest.len() as int) =~= s@.subrange(
                i + pat@.len(),
                n as int,
            ));
            i += pat.len();
        } else {
            assert(rest.drop_first() =~= s@.subrange(i + 1, n as int));
            assert(out@.push(s@[i as int]) + removed(rest.drop_first(), pat@) =~= out@ + (seq![
                rest[0],
            ] + removed(rest.drop_first(), pat@)));
            out.push(s[i]);
            i += 1;
        }
    }
    assert(out@ + Seq::<char>::empty() =~= out@);
    out
}

/// Whether `pat` stands somewhere in `s`.
pub open spec fn occurs_in(pat: Seq<char>, s: Seq<char>) -> bool {
    exists|i: int| 0 <= i <= s.len() && #[trigger] pat.is_prefix_of(s.subrange(i, s.len() as int))
}

/// Taking out a pattern that stands nowhere changes nothing.
pub proof fn lemma_removed_absent(s: Seq<char>, pat: Seq<char>)
    requires
        !occurs_in(pat, s),
    ensures
        removed(s, pat) == s,
    decreases s.len(),
{
    if s.len() > 0 {
        assert(s.subrange(0, s.len() as int) =~= s);
        assert(!pat.is_prefix_of(s.subrange(0, s.len() as int)));
        let rest = s.drop_first();
        assert forall|i: int| 0 <= i <= rest.len() implies !#[trigger] pat.is_prefix_of(
            rest.subrange(i, rest.len() as int),
        ) by {
            assert(rest.subrange(i, rest.len() as int) =~= s.subrange(i + 1, s.len() as int));
        }
        lemma_removed_absent(rest, pat);
        assert(seq![s[0]] + rest =~= s);
    }
}

/// Taking a character out of a text that holds it at the end only leaves
/// the text before it.
pub proof fn lemma_removed_closing(s: Seq<char>, c: char)
    requires
        !s.contains(c),
    ensures
        removed(s.push(c), seq![c]) == s,
    decreases s.len(),
{
    let whole = s.push(c);
    let pat = seq![c];
    if s.len() == 0 {
        assert(pat =~= whole.subrange(0, 1));
        assert(whole.subrange(1, 1) =~= Seq::<char>::empty());
        assert(removed(whole.subrange(1, 1), pat) =~= Seq::<char>::empty());
        assert(s =~= Seq::<char>::empty());
    } else {
        assert(s[0] != c);
        assert(whole.subrange(0, 1)[0] == s[0]);
        assert(!pat.is_prefix_of(whole));
        let rest = s.drop_first();
        assert forall|i: int| 0 <= i < rest.len() implies rest[i] != c by {
            assert(rest[i] == s[i + 1]);
        }
        lemma_removed_closing(rest, c);
        assert(whole.drop_first() =~= rest.push(c));
        assert(seq![whole[0]] + rest =~= s);
    }
}

/// A stretch without a line feed that ends at a line feed, or at the end of
/// the text, is the rest of a line.
pub proof fn lemma_line_len(s: Seq<char>, from: int, to: int)
    requires
        0 <= from <= to <= s.len(),
        forall|k: int| from <= k < to ==> s[k] != '\n',
        to == s.len() || s[to] == '\n',
    ensures
        line_len(s, from) == to - from,
    decreases to - from,
{
    if from < to {
        lemma_line_len(s, from + 1, to);
    }
}

/// The number of characters from position `from` up to the next line feed,
/// or up to the end where none follows.
pub open spec fn line_len(s: Seq<char>, from: int) -> nat
    decreases s.len() - from,
{
    if from < 0 || from >= s.len() || s[from] == '\n' {
        0
    } else {
        1 + line_len(s, from + 1)
    }
}

/// The line that begins at `from`, without its line ending: a line feed, or
/// a carriage return and a line feed.
pub open spec fn line_at(s: Seq<char>, from: int) -> Seq<char> {
    let end = from + line_len(s, from);
    let raw = s.subrange(from, end);
    if end < s.len() && raw.len() > 0 && raw.last() == '\r' {
        raw.drop_last()
    } else {
        raw
    }
}

/// Where the line after the one at `from` begins: behind its line feed, or
/// at the end where it has none.
pub open spec fn next_line(s: Seq<char>, from: int) -> int {
    let next = from + line_len(s, from) + 1;
    if next > s.len() {
        s.len() as int
    } else {
        next
    }
}

/// The lines of `s` from position `from` on. A line feed at the very end
/// opens no further line.
pub open spec fn lines_from(s: Seq<char>, from: int) -> Seq<Seq<char>>
    decreases s.len() - from,
{
    if from < 0 || from >= s.len() {
        Seq::empty()
    } else {
        seq![line_at(s, from)] + lines_from(s, next_line(s, from))
    }
}

/// The lines of `s`.
pub open spec fn lines(s: Seq<char>) -> Seq<Seq<char>> {
    lines_from(s, 0)
}

/// A line ends within its text.
pub proof fn lemma_line_len_bound(s: Seq<char>, from: int)
    requires
        0 <= from <= s.len(),
    ensures
        from + line_len(s, from) <= s.len(),
    decreases s.len() - from,
{
    if from < s.len() && s[from] != '\n' {
        lemma_line_len_bound(s, from + 1);
    }
}

/// A line is as long behind another text as it is alone.
pub proof fn lemma_line_len_shift(a: Seq<char>, b: Seq<char>, j: int)
    requires
        0 <= j <= b.len(),
    ensures
        line_len(a + b, a.len() + j) == line_len(b, j),
    decreases b.len() - j,
{
    if j < b.len() {
        assert((a + b)[a.len() + j] == b[j]);
        if b[j] != '\n' {
            lemma_line_len_shift(a, b, j + 1);
        }
    }
}

/// Behind a text that ends where a line ends, the lines are those of what
/// follows.
pub proof fn lemma_lines_shift(a: Seq<char>, b: Seq<char>, j: int)
    requires
        0 <= j <= b.len(),
    ensures
        lines_from(a + b, a.len() + j) == lines_from(b, j),
    decreases b.len() - j,
{
    let s = a + b;
    if j < b.len() {
        lemma_line_len_shift(a, b, j);
        lemma_line_len_bound(b, j);
        let end = j + line_len(b, j);
        assert(s.subrange(a.len() + j, a.len() + end) =~= b.subrange(j, end));
        assert(line_at(s, a.len() + j) == line_at(b, j));
        assert(next_line(s, a.len() + j) == a.len() + next_line(b, j));
        lemma_lines_shift(a, b, next_line(b, j));
    }
}

/// What a list of character vectors holds.
pub open spec fn rows(v: Seq<Vec<char>>) -> Seq<Seq<char>> {
    v.map_values(|row: Vec<char>| row@)
}

/// Splits `s` into its lines.
pub fn split_lines(s: &Vec<char>) -> (r: Vec<Vec<char>>)
    ensures
        rows(r@) == lines(s@),
{
    let n: usize = s.len();
    let mut out: Vec<Vec<char>> = Vec::new();
    let mut start: usize = 0;
    assert(rows(out@) =~= Seq::<Seq<char>>::empty());
    while start < n
        invariant
            start <= n,
            n == s.len(),
            rows(out@) + lines_from(s@, start as int) == lines(s@),
        decreases n - start,
    {
        let mut end: usize = start;
        while end < n && s[end] != '\n'
            invariant
                start <= end <= n,
                n == s.len(),
                end - start + line_len(s@, end as int) == line_len(s@, start as int),
            decreases n - end,
        {
            end += 1;
        }
        assert(end - start == line_len(s@, start as int));
        let stop: usize = if end < n && end > start && s[end - 1] == '\r' {
            end - 1
        } else {
            end
        };
        let line = slice_of(s, start, stop);
        proof {
            let raw = s@.subrange(start as int, end as int);
            if end < n && end > start && s[end - 1] == '\r' {
                assert(raw.drop_last() =~= s@.subrange(start as int, stop as int));
            }
            assert(line@ == line_at(s@, start as int));
            assert(rows(out@.push(line)) =~= rows(out@).push(line@));
            let next = next_line(s@, start as int);
            assert(rows(out@).push(line@) + lines_from(s@, next) =~= rows(out@) + (seq![line@]
                + lines_from(s@, next)));
        }
        out.push(line);
        start = if end < n {
            end + 1
        } else {
            n
        };
    }
    assert(rows(out@) + Seq::<Seq<char>>::empty() =~= rows(out@));
    out
}

/// Whether a character has the Unicode property White_Space: the
/// controls from tab to carriage return, the space, next line, the
/// no-break spaces, the Ogham space mark, the spaces of fixed width, the
/// line and paragraph separators, the medium mathematical space and the
/// ideographic space.
pub open spec fn white_space(c: char) -> bool {
    let code = c as u32;
    ||| 0x09 <= code <= 0x0D
    ||| code == 0x20
    ||| code == 0x85
    ||| code == 0xA0
    ||| code == 0x1680
    ||| 0x2000 <= code <= 0x200A
    ||| code == 0x2028
    ||| code == 0x2029
    ||| code == 0x202F
    ||| code == 0x205F
    ||| code == 0x3000
}

/// Tells whether a character is white space.
pub fn is_white_space(c: char) -> (r: bool)
    ensures
        r == white_space(c),
{
    let code: u32 = c as u32;
    (0x09 <= code && code <= 0x0D) || code == 0x20 || code == 0x85 || code == 0xA0 || code
        == 0x1680 || (0x2000 <= code && code <= 0x200A) || code == 0x2028 || code == 0x2029
        || code == 0x202F || code == 0x205F || code == 0x3000
}

/// The first position at or after `from` whose flag is clear, or the length.
pub open spec fn first_clear(flags: Seq<bool>, from: int) -> int
    decreases flags.len() - from,
{
    if from < 0 || from >= flags.len() {
        flags.len() as int
    } else if !flags[from] {
        from
    } else {
        first_clear(flags, from + 1)
    }
}

/// The end of the last clear flag in `low..to`, or `low` where all are set.
pub open spec fn last_clear_end(flags: Seq<bool>, low: int, to: int) -> int
    decreases to - low,
{
    if to <= low || to > flags.len() {
        low
    } else if !flags[to - 1] {
        to
    } else {
        last_clear_end(flags, low, to - 1)
    }
}

/// Where the part begins that is left when the leading set flags go.
pub open spec fn kept_start(flags: Seq<bool>) -> int {
    first_clear(flags, 0)
}

/// Where the part ends that is left when the leading and the trailing set
/// flags go.
pub open spec fn kept_end(flags: Seq<bool>) -> int {
    last_clear_end(flags, kept_start(flags), flags.len() as int)
}

/// The bounds of what is left of a sequence when its leading and trailing
/// flagged items are dropped.
pub fn kept_range(flags: &Vec<bool>) -> (r: (usize, usize))
    ensures
        r.0 == kept_start(flags@),
        r.1 == kept_end(flags@),
        r.0 <= r.1 <= flags.len(),
{
    let n: usize = flags.len();
    let mut a: usize = 0;
    while a < n && flags[a]
        invariant
            a <= n,
            n == flags.len(),
            first_clear(flags@, a as int) == first_clear(flags@, 0),
        decreases n - a,
    {
        a += 1;
    }
    let mut b: usize = n;
    while b > a && flags[b - 1]
        invariant
            a <= b <= n,
            n == flags.len(),
            last_clear_end(flags@, a as int, b as int) == last_clear_end(
                flags@,
                a as int,
                n as int,
            ),
        decreases b - a,
    {
        b -= 1;
    }
    (a, b)
}

/// The white-space flag of each character of `s`.
pub open spec fn space_flags(s: Seq<char>) -> Seq<bool> {
    s.map_values(|c: char| white_space(c))
}

/// `s` without its leading and trailing white space.
pub open spec fn trimmed(s: Seq<char>) -> Seq<char> {
    s.subrange(kept_start(space_flags(s)), kept_end(space_flags(s)))
}

/// Drops the leading and trailing white space of `s`.
pub fn trim(s: &Vec<char>) -> (r: Vec<char>)
    ensures
        r@ == trimmed(s@),
{
    let n: usize = s.len();
    let mut flags: Vec<bool> = Vec::new();
    let mut i: usize = 0;
    while i < n
        invariant
            i <= n,
            n == s.len(),
            flags@ == space_flags(s@.subrange(0, i as int)),
        decreases n - i,
    {
        flags.push(is_white_space(s[i]));
        i += 1;
        assert(flags@ =~= space_flags(s@.subrange(0, i as int)));
    }
    assert(s@.subrange(0, n as int) =~= s@);
    let (a, b) = kept_range(&flags);
    slice_of(s, a, b)
}

/// A text that neither begins nor ends with white space is its own
/// trimmed form.
pub proof fn lemma_trimmed_bare(s: Seq<char>)
    requires
        s.len() > 0 ==> !white_space(s[0]) && !white_space(s.last()),
    ensures
        trimmed(s) == s,
{
    if s.len() > 0 {
        assert(!space_flags(s)[0]);
        assert(!space_flags(s)[s.len() - 1]);
    }
    assert(s.subrange(0, s.len() as int) =~= s);
}

} // verus!
