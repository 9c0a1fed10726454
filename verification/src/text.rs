//! Line-wise clean-up of embedded script texts.
//!
//! Script templates are written indented inside the source. Before they are
//! handed to the task runner every line loses its surrounding white space and
//! lines that are left empty disappear.

use vstd::prelude::*;

verus! {

/// `String::push` appends one character.
pub assume_specification[ String::push ](s: &mut String, c: char)
    ensures
        final(s)@ == old(s)@.push(c),
;

/// White space in the sense of Unicode's `White_Space` property.
pub open spec fn is_space(c: char) -> bool {
    let n = c as u32;
    ||| 0x09 <= n <= 0x0d
    ||| n == 0x20
    ||| n == 0x85
    ||| n == 0xa0
    ||| n == 0x1680
    ||| 0x2000 <= n <= 0x200a
    ||| n == 0x2028
    ||| n == 0x2029
    ||| n == 0x202f
    ||| n == 0x205f
    ||| n == 0x3000
}

/// The pieces of `s` between its newline characters, in order. A text without
/// a newline is a single line, and a trailing newline ends in an empty line.
pub open spec fn split_lines(s: Seq<char>) -> Seq<Seq<char>>
    decreases s.len(),
{
    if s.len() == 0 {
        seq![Seq::<char>::empty()]
    } else {
        let before = split_lines(s.drop_last());
        if s.last() == '\n' {
            before.push(Seq::<char>::empty())
        } else {
            before.drop_last().push(before.last().push(s.last()))
        }
    }
}

/// `s` without its leading white space.
pub open spec fn trim_start(s: Seq<char>) -> Seq<char>
    decreases s.len(),
{
    if s.len() > 0 && is_space(s.first()) {
        trim_start(s.drop_first())
    } else {
        s
    }
}

/// `s` without its trailing white space.
pub open spec fn trim_end(s: Seq<char>) -> Seq<char>
    decreases s.len(),
{
    if s.len() > 0 && is_space(s.last()) {
        trim_end(s.drop_last())
    } else {
        s
    }
}

/// `s` without white space at either end.
pub open spec fn trim(s: Seq<char>) -> Seq<char> {
    trim_end(trim_start(s))
}

/// The trimmed lines of a list of lines, without those that are empty after
/// trimming.
pub open spec fn kept_lines(lines: Seq<Seq<char>>) -> Seq<Seq<char>> {
    lines.map_values(|l: Seq<char>| trim(l)).filter(|l: Seq<char>| l.len() > 0)
}

/// The trimmed, non-empty lines of a text.
pub open spec fn trimmed_lines(s: Seq<char>) -> Seq<Seq<char>> {
    kept_lines(split_lines(s))
}

/// The lines joined by single newline characters.
pub open spec fn join_lines(lines: Seq<Seq<char>>) -> Seq<char>
    decreases lines.len(),
{
    if lines.len() == 0 {
        Seq::<char>::empty()
    } else if lines.len() == 1 {
        lines[0]
    } else {
        join_lines(lines.drop_last()).push('\n') + lines.last()
    }
}

/// The contents of a list of strings.
pub open spec fn views(lines: Seq<String>) -> Seq<Seq<char>> {
    lines.map_values(|l: String| l@)
}

/// Splitting loses nothing: there is at least one line, no line holds a
/// newline, and the lines joined by newlines are the text again.
pub proof fn lemma_split_lines_joins_back(s: Seq<char>)
    ensures
        split_lines(s).len() >= 1,
        forall|i: int, j: int|
            0 <= i < split_lines(s).len() && 0 <= j < split_lines(s)[i].len() ==> (
            #[trigger] split_lines(s)[i][j]) != '\n',
        join_lines(split_lines(s)) == s,
    decreases s.len(),
{
    if s.len() > 0 {
        let before = split_lines(s.drop_last());
        let c = s.last();
        lemma_split_lines_joins_back(s.drop_last());
        assert(s.drop_last().push(c) =~= s);
        if c == '\n' {
            let lines = before.push(Seq::<char>::empty());
            assert(lines.drop_last() =~= before);
            assert(join_lines(lines) =~= join_lines(before).push('\n'));
        } else {
            let grown = before.last().push(c);
            let lines = before.drop_last().push(grown);
            assert(lines.drop_last() =~= before.drop_last());
            assert(lines.last() == grown);
            if before.len() == 1 {
                assert(join_lines(before) == before[0]);
                assert(join_lines(lines) == grown);
            } else {
                assert(join_lines(lines) =~= join_lines(before).push(c));
            }
        }
    } else {
        assert(join_lines(split_lines(s)) =~= s);
    }
}

/// What is left after trimming starts where the text has its first
/// character that is no white space.
pub proof fn lemma_trim_start(s: Seq<char>)
    ensures
        trim_start(s).len() <= s.len(),
        trim_start(s) == s.skip(s.len() - trim_start(s).len()),
        trim_start(s).len() > 0 ==> !is_space(trim_start(s).first()),
        forall|i: int| 0 <= i < s.len() - trim_start(s).len() ==> is_space(#[trigger] s[i]),
    decreases s.len(),
{
    if s.len() > 0 && is_space(s.first()) {
        let rest = s.drop_first();
        lemma_trim_start(rest);
        let cut = rest.len() - trim_start(rest).len();
        assert(rest.skip(cut) =~= s.skip(cut + 1));
        assert forall|i: int| 0 <= i < s.len() - trim_start(s).len() implies is_space(
            #[trigger] s[i],
        ) by {
            if i > 0 {
                assert(s[i] == rest[i - 1]);
            }
        }
    } else {
        assert(s.skip(0) =~= s);
    }
}

/// What is left after trimming ends where the text has its last character
/// that is no white space.
pub proof fn lemma_trim_end(s: Seq<char>)
    ensures
        trim_end(s).len() <= s.len(),
        trim_end(s) == s.take(trim_end(s).len() as int),
        trim_end(s).len() > 0 ==> !is_space(trim_end(s).last()),
        forall|i: int| trim_end(s).len() <= i < s.len() ==> is_space(#[trigger] s[i]),
    decreases s.len(),
{
    if s.len() > 0 && is_space(s.last()) {
        let rest = s.drop_last();
        lemma_trim_end(rest);
        assert(rest.take(trim_end(rest).len() as int) =~= s.take(trim_end(rest).len() as int));
        assert forall|i: int| trim_end(s).len() <= i < s.len() implies is_space(
            #[trigger] s[i],
        ) by {
            if i < rest.len() {
                assert(s[i] == rest[i]);
            }
        }
    } else {
        assert(s.take(s.len() as int) =~= s);
    }
}

/// A trimmed text is a stretch of the text that neither starts nor ends with
/// white space, and everything outside the stretch is white space.
pub proof fn lemma_trim(s: Seq<char>)
    ensures
        trim(s).len() > 0 ==> !is_space(trim(s).first()) && !is_space(trim(s).last()),
        exists|from: int, to: int|
            0 <= from <= to <= s.len() && trim(s) == #[trigger] s.subrange(from, to) && (forall|
                i: int,
            |
                0 <= i < from || to <= i < s.len() ==> is_space(#[trigger] s[i])),
        trim(trim(s)) == trim(s),
{
    lemma_trim_start(s);
    let started = trim_start(s);
    lemma_trim_end(started);
    let from = s.len() - started.len();
    let to = from + trim(s).len();
    assert(trim(s) =~= s.subrange(from, to));
    assert forall|i: int| 0 <= i < from || to <= i < s.len() implies is_space(#[trigger] s[i]) by {
        if to <= i {
            assert(s[i] == started[i - from]);
        }
    }
    if trim(s).len() > 0 {
        assert(trim(s).first() == started.first());
        assert(trim_start(trim(s)) == trim(s));
        assert(trim_end(trim(s)) == trim(s));
    } else {
        assert(trim_start(trim(s)) == trim(s));
        assert(trim_end(trim(s)) == trim(s));
    }
}

/// Every kept line is what trimming leaves of one line of the text: it is
/// not empty and neither starts nor ends with white space.
pub proof fn lemma_trimmed_lines(s: Seq<char>, i: int)
    requires
        0 <= i < trimmed_lines(s).len(),
    ensures
        trimmed_lines(s)[i].len() > 0,
        !is_space(trimmed_lines(s)[i].first()),
        !is_space(trimmed_lines(s)[i].last()),
        exists|k: int|
            0 <= k < split_lines(s).len() && trimmed_lines(s)[i] == trim(
                #[trigger] split_lines(s)[k],
            ),
{
    let lines = split_lines(s);
    let trimmed = lines.map_values(|l: Seq<char>| trim(l));
    let kept = |l: Seq<char>| l.len() > 0;
    let line = trimmed_lines(s)[i];
    trimmed.lemma_filter_pred(kept, i);
    assert(trimmed.filter(kept).contains(line));
    trimmed.lemma_filter_contains_rev(kept, line);
    let k = choose|k: int| 0 <= k < trimmed.len() && trimmed[k] == line;
    assert(line == trim(lines[k]));
    lemma_trim(lines[k]);
}

/// Whether `c` is white space.
pub fn is_whitespace(c: char) -> (b: bool)
    ensures
        b == is_space(c),
{
    let n: u32 = c as u32;
    (0x09 <= n && n <= 0x0d) || n == 0x20 || n == 0x85 || n == 0xa0 || n == 0x1680 || (0x2000 <= n
        && n <= 0x200a) || n == 0x2028 || n == 0x2029 || n == 0x202f || n == 0x205f || n == 0x3000
}

/// The characters of a text.
pub fn chars_of(text: &str) -> (chars: Vec<char>)
    ensures
        chars@ == text@,
{
    let mut chars: Vec<char> = Vec::new();
    for c in it: text.chars()
        invariant
            it.seq() == text@,
            chars@ == text@.take(it.index() as int),
    {
        chars.push(c);
    }
    assert(text@.take(text@.len() as int) =~= text@);
    chars
}

/// The characters `from..to` of `chars` without white space at either end.
fn trimmed_range(chars: &Vec<char>, from: usize, to: usize) -> (out: String)
    requires
        from <= to <= chars.len(),
    ensures
        out@ == trim(chars@.subrange(from as int, to as int)),
{
    let mut a: usize = from;
    while a < to && is_whitespace(chars[a])
        invariant
            from <= a <= to <= chars.len(),
            trim_start(chars@.subrange(from as int, to as int)) == trim_start(
                chars@.subrange(a as int, to as int),
            ),
        decreases to - a,
    {
        proof {
            let rest = chars@.subrange(a as int, to as int);
            assert(rest.first() == chars@[a as int]);
            assert(rest.drop_first() =~= chars@.subrange(a + 1, to as int));
        }
        a += 1;
    }
    let mut b: usize = to;
    while b > a && is_whitespace(chars[b - 1])
        invariant
            a <= b <= to <= chars.len(),
            trim_end(chars@.subrange(a as int, to as int)) == trim_end(
                chars@.subrange(a as int, b as int),
            ),
        decreases b - a,
    {
        proof {
            let rest = chars@.subrange(a as int, b as int);
            assert(rest.last() == chars@[b - 1]);
            assert(rest.drop_last() =~= chars@.subrange(a as int, b - 1));
        }
        b -= 1;
    }
    let mut out = String::new();
    let mut k: usize = a;
    while k < b
        invariant
            a <= k <= b <= chars.len(),
            out@ == chars@.subrange(a as int, k as int),
        decreases b - k,
    {
        out.push(chars[k]);
        assert(chars@.subrange(a as int, k + 1) =~= chars@.subrange(a as int, k as int).push(
            chars@[k as int],
        ));
        k += 1;
    }
    out
}

/// `text` without white space at either end.
pub fn trim_text(text: &str) -> (out: String)
    ensures
        out@ == trim(text@),
{
    let chars = chars_of(text);
    assert(chars@.subrange(0, chars@.len() as int) =~= chars@);
    trimmed_range(&chars, 0, chars.len())
}

/// Adding a line to a list adds its trimmed form to the kept lines, unless
/// nothing is left of it.
proof fn lemma_kept_lines_push(lines: Seq<Seq<char>>, line: Seq<char>)
    ensures
        kept_lines(lines.push(line)) == if trim(line).len() > 0 {
            kept_lines(lines).push(trim(line))
        } else {
            kept_lines(lines)
        },
{
    let t = |l: Seq<char>| trim(l);
    let p = |l: Seq<char>| l.len() > 0;
    lines.lemma_push_map_commute(t, line);
    lines.map_values(t).lemma_filter_push(t(line), p);
}

/// The trimmed, non-empty lines of `text`.
pub fn trim_lines_vec(text: &str) -> (lines: Vec<String>)
    ensures
        views(lines@) == trimmed_lines(text@),
{
    let chars = chars_of(text);
    let n: usize = chars.len();
    let mut lines: Vec<String> = Vec::new();
    let ghost mut done: Seq<Seq<char>> = Seq::empty();
    let mut start: usize = 0;
    let mut i: usize = 0;
    assert(views(lines@) =~= kept_lines(done));
    assert(chars@.take(0) =~= Seq::<char>::empty());
    assert(split_lines(chars@.take(0)) =~= done.push(chars@.subrange(0, 0)));
    while i < n
        invariant
            n == chars.len(),
            start <= i <= n,
            split_lines(chars@.take(i as int)) == done.push(
                chars@.subrange(start as int, i as int),
            ),
            views(lines@) == kept_lines(done),
        decreases n - i,
    {
        let ghost line = chars@.subrange(start as int, i as int);
        proof {
            let upto = chars@.take(i + 1);
            assert(upto.drop_last() =~= chars@.take(i as int));
            assert(upto.last() == chars@[i as int]);
            assert(done.push(line).drop_last() =~= done);
            assert(done.push(line).last() == line);
        }
        if chars[i] == '\n' {
            let kept = trimmed_range(&chars, start, i);
            proof {
                lemma_kept_lines_push(done, line);
            }
            if kept.as_str().unicode_len() > 0 {
                proof {
                    lines@.lemma_push_map_commute(|l: String| l@, kept);
                }
                lines.push(kept);
            }
            proof {
                done = done.push(line);
                assert(chars@.subrange(i + 1, i + 1) =~= Seq::<char>::empty());
            }
            start = i + 1;
        } else {
            assert(chars@.subrange(start as int, i + 1) =~= line.push(chars@[i as int]));
        }
        i += 1;
    }
    let ghost line = chars@.subrange(start as int, n as int);
    let kept = trimmed_range(&chars, start, n);
    proof {
        assert(chars@.take(n as int) =~= chars@);
        lemma_kept_lines_push(done, line);
    }
    if kept.as_str().unicode_len() > 0 {
        proof {
            lines@.lemma_push_map_commute(|l: String| l@, kept);
        }
        lines.push(kept);
    }
    lines
}

/// The trimmed, non-empty lines of `text`, joined by newlines.
pub fn trim_lines(text: &str) -> (out: String)
    ensures
        out@ == join_lines(trimmed_lines(text@)),
{
    let lines = trim_lines_vec(text);
    let mut out = String::new();
    let mut i: usize = 0;
    while i < lines.len()
        invariant
            i <= lines.len(),
            out@ == join_lines(views(lines@).take(i as int)),
        decreases lines.len() - i,
    {
        proof {
            let upto = views(lines@).take(i + 1);
            assert(upto.drop_last() =~= views(lines@).take(i as int));
            assert(upto.last() == lines@[i as int]@);
        }
        if i > 0 {
            out.push('\n');
        }
        out.append(lines[i].as_str());
        i += 1;
    }
    assert(views(lines@).take(lines.len() as int) =~= views(lines@));
    out
}

} // verus!
