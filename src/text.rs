use vstd::prelude::*;
use crate::chars::{chars_of, is_space, is_whitespace, string_of};

verus! {

/// `s` cut at every `sep`: always at least one (possibly empty) piece.
pub open spec fn split_on(s: Seq<char>, sep: char) -> Seq<Seq<char>>
    decreases s.len(),
{
    if s.len() == 0 {
        seq![Seq::empty()]
    } else {
        let rest = split_on(s.drop_last(), sep);
        if s.last() == sep {
            rest.push(Seq::empty())
        } else {
            rest.update(rest.len() - 1, rest.last().push(s.last()))
        }
    }
}

/// `s` without its leading white space.
pub open spec fn trim_start(s: Seq<char>) -> Seq<char>
    decreases s.len(),
{
    if s.len() > 0 && is_space(s[0]) {
        trim_start(s.drop_first())
    } else {
        s
    }
}

/// `s` without its trailing white space.
pub open spec fn trim_end(s: Seq<char>) -> Seq<char>
    decreases s.len(),
{
    if s.len() > 0 && is_space(s.last()) {
        trim_end(s.drop_last())
    } else {
        s
    }
}

/// `s` without leading and trailing white space.
pub open spec fn trim(s: Seq<char>) -> Seq<char> {
    trim_end(trim_start(s))
}

/// The trimmed non-blank lines of `lines`, joined by single spaces.
pub open spec fn joined_nonblank(lines: Seq<Seq<char>>) -> Seq<char>
    decreases lines.len(),
{
    if lines.len() == 0 {
        Seq::empty()
    } else {
        let prev = joined_nonblank(lines.drop_last());
        let t = trim(lines.last());
        if t.len() == 0 {
            prev
        } else if prev.len() == 0 {
            t
        } else {
            prev + seq![' '] + t
        }
    }
}

/// The first `n` elements of `s` (all of `s` when it is shorter).
pub open spec fn prefix(s: Seq<char>, n: nat) -> Seq<char> {
    if s.len() <= n {
        s
    } else {
        s.take(n as int)
    }
}

/// Preview of a message body: blank lines dropped, the other lines trimmed
/// and joined by single spaces, cut to `max_chars` characters.
pub open spec fn snippet_of(s: Seq<char>, max_chars: nat) -> Seq<char> {
    prefix(joined_nonblank(split_on(s, '\n')), max_chars)
}

proof fn lemma_split_step(s: Seq<char>, i: int, sep: char)
    requires
        0 <= i < s.len(),
    ensures
        s[i] == sep ==> split_on(s.take(i + 1), sep) == split_on(s.take(i), sep).push(Seq::empty()),
        s[i] != sep ==> split_on(s.take(i + 1), sep) == split_on(s.take(i), sep).update(
            split_on(s.take(i), sep).len() - 1,
            split_on(s.take(i), sep).last().push(s[i]),
        ),
        split_on(s.take(i), sep).len() >= 1,
{
    assert(s.take(i + 1).drop_last() =~= s.take(i));
    lemma_split_nonempty(s.take(i), sep);
}

proof fn lemma_split_nonempty(s: Seq<char>, sep: char)
    ensures
        split_on(s, sep).len() >= 1,
    decreases s.len(),
{
    if s.len() > 0 {
        lemma_split_nonempty(s.drop_last(), sep);
    }
}

/// The characters of `v` without leading and trailing white space.
pub fn trim_chars(v: &Vec<char>) -> (r: Vec<char>)
    ensures
        r@ == trim(v@),
{
    let n = v.len();
    let mut a: usize = 0;
    assert(v@.subrange(0, n as int) =~= v@);
    while a < n && is_whitespace(v[a])
        invariant
            0 <= a <= n == v@.len(),
            trim_start(v@) == trim_start(v@.subrange(a as int, n as int)),
        decreases n - a,
    {
        assert(v@.subrange(a as int, n as int).drop_first() =~= v@.subrange(a + 1, n as int));
        a = a + 1;
    }
    assert(trim_start(v@.subrange(a as int, n as int)) == v@.subrange(a as int, n as int));
    let mut b: usize = n;
    while b > a && is_whitespace(v[b - 1])
        invariant
            0 <= a <= b <= n == v@.len(),
            trim_end(v@.subrange(a as int, n as int)) == trim_end(v@.subrange(a as int, b as int)),
        decreases b,
    {
        assert(v@.subrange(a as int, b as int).drop_last() =~= v@.subrange(a as int, b - 1));
        b = b - 1;
    }
    assert(trim_end(v@.subrange(a as int, b as int)) == v@.subrange(a as int, b as int));
    let mut r: Vec<char> = Vec::new();
    let mut k: usize = a;
    while k < b
        invariant
            a <= k <= b <= n == v@.len(),
            r@ == v@.subrange(a as int, k as int),
        decreases b - k,
    {
        r.push(v[k]);
        assert(v@.subrange(a as int, k + 1) =~= v@.subrange(a as int, k as int).push(v@[k as int]));
        k = k + 1;
    }
    r
}

/// Appends the characters of `t` to `out`.
fn append_chars(out: &mut Vec<char>, t: &Vec<char>)
    ensures
        final(out)@ == old(out)@ + t@,
{
    let mut i: usize = 0;
    while i < t.len()
        invariant
            0 <= i <= t@.len(),
            out@ == old(out)@ + t@.subrange(0, i as int),
        decreases t.len() - i,
    {
        out.push(t[i]);
        assert(t@.subrange(0, i + 1) =~= t@.subrange(0, i as int).push(t@[i as int]));
        i = i + 1;
    }
    assert(t@.subrange(0, t@.len() as int) =~= t@);
}

/// Adds one line to a space-joined preview, skipping it when blank.
fn add_line(out: &mut Vec<char>, line: &Vec<char>)
    ensures
        ({
            let t = trim(line@);
            final(out)@ == if t.len() == 0 {
                old(out)@
            } else if old(out)@.len() == 0 {
                t
            } else {
                old(out)@ + seq![' '] + t
            }
        }),
{
    let t = trim_chars(line);
    if t.len() > 0 {
        if out.len() > 0 {
            out.push(' ');
        }
        append_chars(out, &t);
    }
}

/// The first `n` characters of `v` (all of `v` when it is shorter).
fn prefix_chars(v: &Vec<char>, n: usize) -> (r: Vec<char>)
    ensures
        r@ == prefix(v@, n as nat),
{
    let mut r: Vec<char> = Vec::new();
    let mut i: usize = 0;
    while i < v.len() && i < n
        invariant
            0 <= i <= v@.len(),
            i <= n,
            r@ == v@.subrange(0, i as int),
        decreases v.len() - i,
    {
        r.push(v[i]);
        assert(v@.subrange(0, i + 1) =~= v@.subrange(0, i as int).push(v@[i as int]));
        i = i + 1;
    }
    assert(r@ =~= prefix(v@, n as nat));
    r
}

/// Preview of a message body: blank lines dropped, the remaining lines
/// trimmed and joined by single spaces, at most `max_chars` characters.
pub fn normalize_snippet(s: &str, max_chars: usize) -> (r: String)
    ensures
        r@ == snippet_of(s@, max_chars as nat),
{
    let cs = chars_of(s);
    let mut out: Vec<char> = Vec::new();
    let mut line: Vec<char> = Vec::new();
    let mut i: usize = 0;
    assert(cs@.take(0) =~= Seq::<char>::empty());
    while i < cs.len()
        invariant
            0 <= i <= cs@.len(),
            split_on(cs@.take(i as int), '\n').len() >= 1,
            out@ == joined_nonblank(split_on(cs@.take(i as int), '\n').drop_last()),
            line@ == split_on(cs@.take(i as int), '\n').last(),
        decreases cs.len() - i,
    {
        let c = cs[i];
        proof {
            lemma_split_step(cs@, i as int, '\n');
        }
        let ghost parts = split_on(cs@.take(i as int), '\n');
        if c == '\n' {
            add_line(&mut out, &line);
            line = Vec::new();
            proof {
                assert(parts.push(Seq::empty()).drop_last() =~= parts);
                assert(parts.drop_last().push(parts.last()) =~= parts);
            }
        } else {
            line.push(c);
            proof {
                let next = parts.update(parts.len() - 1, parts.last().push(c));
                assert(next.drop_last() =~= parts.drop_last());
            }
        }
        i = i + 1;
    }
    let ghost parts = split_on(cs@, '\n');
    assert(cs@.take(cs@.len() as int) =~= cs@);
    add_line(&mut out, &line);
    assert(parts.drop_last().push(parts.last()) =~= parts);
    let cut = prefix_chars(&out, max_chars);
    string_of(&cut)
}

/// Text of an HTML fragment with everything between `<` and `>` removed;
/// the second component tells whether the scan ends inside a tag.
pub open spec fn strip_scan(s: Seq<char>) -> (Seq<char>, bool)
    decreases s.len(),
{
    if s.len() == 0 {
        (Seq::empty(), false)
    } else {
        let (out, in_tag) = strip_scan(s.drop_last());
        let c = s.last();
        if c == '<' {
            (out, true)
        } else if c == '>' {
            (out, false)
        } else if !in_tag {
            (out.push(c), in_tag)
        } else {
            (out, in_tag)
        }
    }
}

/// Best-effort plain text of an HTML part: the characters outside tags.
pub fn strip_html_minimal(html: &str) -> (r: String)
    ensures
        r@ == strip_scan(html@).0,
{
    let cs = chars_of(html);
    let mut out: Vec<char> = Vec::new();
    let mut in_tag = false;
    let mut i: usize = 0;
    while i < cs.len()
        invariant
            0 <= i <= cs@.len(),
            (out@, in_tag) == strip_scan(cs@.take(i as int)),
        decreases cs.len() - i,
    {
        let c = cs[i];
        assert(cs@.take(i + 1).drop_last() =~= cs@.take(i as int));
        if c == '<' {
            in_tag = true;
        } else if c == '>' {
            in_tag = false;
        } else if !in_tag {
            out.push(c);
        }
        i = i + 1;
    }
    assert(cs@.take(cs@.len() as int) =~= cs@);
    string_of(&out)
}

/// The lines of `s` as `str::lines` yields them, before any `\r` is removed:
/// the pieces between `\n`s, without an empty piece after a final `\n`.
pub open spec fn lines_of(s: Seq<char>) -> Seq<Seq<char>> {
    let parts = split_on(s, '\n');
    if parts.last().len() == 0 {
        parts.drop_last()
    } else {
        parts
    }
}

/// `s` without its trailing `\r` characters.
pub open spec fn trim_end_cr(s: Seq<char>) -> Seq<char>
    decreases s.len(),
{
    if s.len() > 0 && s.last() == '\r' {
        trim_end_cr(s.drop_last())
    } else {
        s
    }
}

/// `s` holds the text `http` somewhere.
pub open spec fn mentions_http(s: Seq<char>) -> bool {
    exists|i: int|
        #![trigger s[i]]
        0 <= i && i + 4 <= s.len() && s[i] == 'h' && s[i + 1] == 't' && s[i + 2] == 't' && s[i
            + 3] == 'p'
}

/// One display line: trailing `\r`s dropped, and a line that mentions `http`
/// and runs over `max_chars` characters cut there and ended with `…`.
pub open spec fn shorten_link_line(line: Seq<char>, max_chars: nat) -> Seq<char> {
    let l = trim_end_cr(line);
    if mentions_http(l) && l.len() > max_chars {
        l.take(max_chars as int).push('…')
    } else {
        l
    }
}

/// Every line of `lines` shortened by [`shorten_link_line`].
pub open spec fn shorten_all(lines: Seq<Seq<char>>, max_chars: nat) -> Seq<Seq<char>>
    decreases lines.len(),
{
    if lines.len() == 0 {
        Seq::empty()
    } else {
        shorten_all(lines.drop_last(), max_chars).push(shorten_link_line(lines.last(), max_chars))
    }
}

/// `lines` joined by `\n`.
pub open spec fn join_lines(lines: Seq<Seq<char>>) -> Seq<char>
    decreases lines.len(),
{
    if lines.len() == 0 {
        Seq::empty()
    } else if lines.len() == 1 {
        lines[0]
    } else {
        join_lines(lines.drop_last()) + seq!['\n'] + lines.last()
    }
}

/// The text with each line shortened by [`shorten_link_line`], rejoined by `\n`.
pub open spec fn trimmed_links(s: Seq<char>, max_chars: nat) -> Seq<char> {
    join_lines(shorten_all(lines_of(s), max_chars))
}

fn has_http(l: &Vec<char>) -> (r: bool)
    ensures
        r == mentions_http(l@),
{
    let mut i: usize = 0;
    while l.len() >= 4 && i <= l.len() - 4
        invariant
            0 <= i <= l@.len(),
            forall|k: int|
                #![trigger l@[k]]
                0 <= k < i && k + 4 <= l@.len() ==> !(l@[k] == 'h' && l@[k + 1] == 't' && l@[k + 2]
                    == 't' && l@[k + 3] == 'p'),
        decreases l.len() - i,
    {
        if l[i] == 'h' && l[i + 1] == 't' && l[i + 2] == 't' && l[i + 3] == 'p' {
            return true;
        }
        i = i + 1;
    }
    false
}

fn shorten_line(line: &Vec<char>, max_chars: usize) -> (r: Vec<char>)
    ensures
        r@ == shorten_link_line(line@, max_chars as nat),
{
    let mut end: usize = line.len();
    assert(line@.subrange(0, end as int) =~= line@);
    while end > 0 && line[end - 1] == '\r'
        invariant
            0 <= end <= line@.len(),
            trim_end_cr(line@) == trim_end_cr(line@.subrange(0, end as int)),
        decreases end,
    {
        assert(line@.subrange(0, end as int).drop_last() =~= line@.subrange(0, end - 1));
        end = end - 1;
    }
    let mut l: Vec<char> = Vec::new();
    let mut k: usize = 0;
    while k < end
        invariant
            0 <= k <= end <= line@.len(),
            l@ == line@.subrange(0, k as int),
        decreases end - k,
    {
        l.push(line[k]);
        assert(line@.subrange(0, k + 1) =~= line@.subrange(0, k as int).push(line@[k as int]));
        k = k + 1;
    }
    assert(trim_end_cr(l@) == l@);
    if has_http(&l) && l.len() > max_chars {
        let mut cut = prefix_chars(&l, max_chars);
        cut.push('…');
        cut
    } else {
        l
    }
}

/// Adds one line to a `\n`-joined text; `first` tells that none came before.
fn add_joined_line(out: &mut Vec<char>, line: &Vec<char>, first: bool)
    requires
        first ==> old(out)@.len() == 0,
    ensures
        final(out)@ == if first {
            line@
        } else {
            old(out)@ + seq!['\n'] + line@
        },
{
    if !first {
        out.push('\n');
    }
    append_chars(out, line);
    assert(first ==> old(out)@ + line@ =~= line@);
}

proof fn lemma_join_push(lines: Seq<Seq<char>>, x: Seq<char>)
    ensures
        join_lines(lines.push(x)) == if lines.len() == 0 {
            x
        } else {
            join_lines(lines) + seq!['\n'] + x
        },
{
    assert(lines.push(x).drop_last() =~= lines);
    if lines.len() == 0 {
        assert(lines.push(x)[0] == x);
    }
}

/// Cuts lines that mention `http` to `max_chars` characters (ended with `…`),
/// so that long links do not swamp the reading pane; drops `\r` at line ends.
pub fn trim_long_link_lines(input: &str, max_chars: usize) -> (r: String)
    ensures
        r@ == trimmed_links(input@, max_chars as nat),
{
    let cs = chars_of(input);
    let mut out: Vec<char> = Vec::new();
    let mut line: Vec<char> = Vec::new();
    let mut first = true;
    let mut i: usize = 0;
    assert(cs@.take(0) =~= Seq::<char>::empty());
    while i < cs.len()
        invariant
            0 <= i <= cs@.len(),
            split_on(cs@.take(i as int), '\n').len() >= 1,
            out@ == join_lines(
                shorten_all(split_on(cs@.take(i as int), '\n').drop_last(), max_chars as nat),
            ),
            first <==> split_on(cs@.take(i as int), '\n').len() == 1,
            first ==> out@.len() == 0,
            line@ == split_on(cs@.take(i as int), '\n').last(),
        decreases cs.len() - i,
    {
        let c = cs[i];
        proof {
            lemma_split_step(cs@, i as int, '\n');
        }
        let ghost parts = split_on(cs@.take(i as int), '\n');
        if c == '\n' {
            let sl = shorten_line(&line, max_chars);
            add_joined_line(&mut out, &sl, first);
            first = false;
            line = Vec::new();
            proof {
                assert(parts.push(Seq::empty()).drop_last() =~= parts);
                assert(parts.drop_last().push(parts.last()) =~= parts);
                lemma_join_push(shorten_all(parts.drop_last(), max_chars as nat), sl@);
                assert(shorten_all(parts, max_chars as nat).drop_last() =~= shorten_all(
                    parts.drop_last(),
                    max_chars as nat,
                ));
            }
        } else {
            line.push(c);
            proof {
                let next = parts.update(parts.len() - 1, parts.last().push(c));
                assert(next.drop_last() =~= parts.drop_last());
            }
        }
        i = i + 1;
    }
    let ghost parts = split_on(cs@, '\n');
    assert(cs@.take(cs@.len() as int) =~= cs@);
    if line.len() > 0 {
        let sl = shorten_line(&line, max_chars);
        add_joined_line(&mut out, &sl, first);
        proof {
            assert(parts.drop_last().push(parts.last()) =~= parts);
            lemma_join_push(shorten_all(parts.drop_last(), max_chars as nat), sl@);
            assert(shorten_all(parts, max_chars as nat).drop_last() =~= shorten_all(
                parts.drop_last(),
                max_chars as nat,
            ));
        }
    }
    string_of(&out)
}

/// Text with a space inserted after every run of `max_token_len` characters
/// that holds no white space; the second component is the length of the run
/// that is still open at the end.
pub open spec fn break_scan(s: Seq<char>, max_token_len: nat) -> (Seq<char>, nat)
    decreases s.len(),
{
    if s.len() == 0 {
        (Seq::empty(), 0)
    } else {
        let (out, run) = break_scan(s.drop_last(), max_token_len);
        let c = s.last();
        if is_space(c) {
            (out.push(c), 0)
        } else if run + 1 >= max_token_len {
            (out.push(c).push(' '), 0)
        } else {
            (out.push(c), run + 1)
        }
    }
}

/// Breaks runs of more than `max_token_len` non-space characters with a space,
/// so that the reading pane can wrap them.
pub fn break_long_tokens(input: &str, max_token_len: usize) -> (r: String)
    ensures
        r@ == break_scan(input@, max_token_len as nat).0,
{
    let cs = chars_of(input);
    let mut out: Vec<char> = Vec::new();
    let mut run: usize = 0;
    let mut i: usize = 0;
    while i < cs.len()
        invariant
            0 <= i <= cs@.len(),
            run <= i,
            (out@, run as nat) == break_scan(cs@.take(i as int), max_token_len as nat),
        decreases cs.len() - i,
    {
        let c = cs[i];
        assert(cs@.take(i + 1).drop_last() =~= cs@.take(i as int));
        if is_whitespace(c) {
            run = 0;
            out.push(c);
        } else {
            run = run + 1;
            out.push(c);
            if run >= max_token_len {
                out.push(' ');
                run = 0;
            }
        }
        i = i + 1;
    }
    assert(cs@.take(cs@.len() as int) =~= cs@);
    string_of(&out)
}

/// Body text prepared for the reading pane: long link lines cut at 220
/// characters, then runs of 70 non-space characters broken.
pub fn format_body_for_tui(input: &str) -> (r: String)
    ensures
        r@ == break_scan(trimmed_links(input@, 220), 70).0,
{
    let trimmed = trim_long_link_lines(input, 220);
    break_long_tokens(trimmed.as_str(), 70)
}

} // verus!
