//! Line layout of generated Rust source: splitting into lines and spacing
//! items apart.

use vstd::prelude::*;
use crate::text::{chars_of, string_from_chars};

verus! {

// ── Lines ───────────────────────────────────────────────────────────────────

/// A line as `str::lines` yields it: a `\r` right before the `\n` is dropped.
pub open spec fn strip_cr(l: Seq<char>) -> Seq<char> {
    if l.len() > 0 && l.last() == '\r' {
        l.drop_last()
    } else {
        l
    }
}

/// The lines finished so far and the line being read, after reading `s`.
pub open spec fn split_state(s: Seq<char>) -> (Seq<Seq<char>>, Seq<char>)
    decreases s.len(),
{
    if s.len() == 0 {
        (Seq::empty(), Seq::empty())
    } else {
        let (done, cur) = split_state(s.drop_last());
        if s.last() == '\n' {
            (done.push(strip_cr(cur)), Seq::empty())
        } else {
            (done, cur.push(s.last()))
        }
    }
}

/// The lines of `s`, as `str::lines` gives them: split at `\n` (and `\r\n`),
/// with no empty line after a final line ending.
pub open spec fn lines_of(s: Seq<char>) -> Seq<Seq<char>> {
    let (done, cur) = split_state(s);
    if cur.len() > 0 {
        done.push(cur)
    } else {
        done
    }
}

pub open spec fn lines_view(v: Seq<Vec<char>>) -> Seq<Seq<char>> {
    v.map_values(|l: Vec<char>| l@)
}

fn split_lines(s: &Vec<char>) -> (r: Vec<Vec<char>>)
    ensures
        lines_view(r@) == lines_of(s@),
{
    let mut done: Vec<Vec<char>> = Vec::new();
    let mut cur: Vec<char> = Vec::new();
    let mut i: usize = 0;
    while i < s.len()
        invariant
            i <= s@.len(),
            split_state(s@.take(i as int)) == (lines_view(done@), cur@),
        decreases s@.len() - i,
    {
        assert(s@.take(i + 1).drop_last() =~= s@.take(i as int));
        let c = s[i];
        if c == '\n' {
            let ghost before = lines_view(done@);
            let ghost line = cur@;
            let len = cur.len();
            if len > 0 && cur[len - 1] == '\r' {
                cur.pop();
            }
            assert(cur@ == strip_cr(line));
            done.push(cur);
            cur = Vec::new();
            assert(lines_view(done@) =~= before.push(strip_cr(line)));
            assert(cur@ =~= Seq::<char>::empty());
        } else {
            cur.push(c);
        }
        i = i + 1;
    }
    assert(s@.take(s@.len() as int) =~= s@);
    if cur.len() > 0 {
        let ghost before = lines_view(done@);
        let ghost last = cur@;
        done.push(cur);
        assert(lines_view(done@) =~= before.push(last));
    }
    done
}

// ── Whitespace ──────────────────────────────────────────────────────────────

/// The characters with the Unicode `White_Space` property.
pub open spec fn is_white_space(c: char) -> bool {
    let n = c as u32;
    ||| 0x09 <= n <= 0x0d
    ||| n == 0x20
    ||| n == 0x85
    ||| n == 0xa0
    ||| n == 0x1680
    ||| 0x2000 <= n <= 0x200a
    ||| n == 0x2028
    ||| n == 0x2029
    ||| n == 0x202f
    ||| n == 0x205f
    ||| n == 0x3000
}

/// Whether the character has the Unicode `White_Space` property, as
/// `char::is_whitespace` documents it.
fn char_is_whitespace(c: char) -> (b: bool)
    ensures
        b == is_white_space(c),
{
    let n = c as u32;
    (0x09 <= n && n <= 0x0d) || n == 0x20 || n == 0x85 || n == 0xa0 || n == 0x1680 || (0x2000
        <= n && n <= 0x200a) || n == 0x2028 || n == 0x2029 || n == 0x202f || n == 0x205f || n
        == 0x3000
}

/// The line without its leading whitespace (`str::trim_start`).
pub open spec fn trim_start(l: Seq<char>) -> Seq<char>
    decreases l.len(),
{
    if l.len() > 0 && is_white_space(l[0]) {
        trim_start(l.skip(1))
    } else {
        l
    }
}

fn first_non_white(l: &Vec<char>) -> (k: usize)
    ensures
        k <= l@.len(),
        l@.skip(k as int) == trim_start(l@),
{
    let mut k: usize = 0;
    assert(l@.skip(0) =~= l@);
    while k < l.len() && char_is_whitespace(l[k])
        invariant
            k <= l@.len(),
            trim_start(l@.skip(k as int)) == trim_start(l@),
        decreases l@.len() - k,
    {
        assert(l@.skip(k as int).skip(1) =~= l@.skip(k + 1));
        k = k + 1;
    }
    assert(l@.skip(k as int).len() > 0 ==> l@.skip(k as int)[0] == l@[k as int]);
    k
}

// ── Item spacing ────────────────────────────────────────────────────────────

pub open spec fn starts(l: Seq<char>, p: Seq<char>) -> bool {
    p.len() <= l.len() && l.take(p.len() as int) == p
}

/// The number of times `c` occurs in `l`.
pub open spec fn count_char(l: Seq<char>, c: char) -> int
    decreases l.len(),
{
    if l.len() == 0 {
        0
    } else {
        count_char(l.drop_last(), c) + if l.last() == c { 1int } else { 0int }
    }
}

/// A line that opens an item at the top level.
pub open spec fn opens_top_item(t: Seq<char>) -> bool {
    ||| starts(t, "pub "@)
    ||| starts(t, "struct "@)
    ||| starts(t, "enum "@)
    ||| starts(t, "impl "@)
    ||| starts(t, "fn "@)
    ||| starts(t, "#["@)
}

/// A line that opens a function one level down.
pub open spec fn opens_nested_fn(t: Seq<char>) -> bool {
    ||| starts(t, "fn "@)
    ||| starts(t, "async fn "@)
    ||| starts(t, "pub fn "@)
    ||| starts(t, "pub async fn "@)
}

/// The state after laying out some lines: the text so far, the brace depth,
/// and whether the last line was blank, an attribute, or opened a block.
pub struct SpacingState {
    pub out: Seq<char>,
    pub depth: int,
    pub prev_blank: bool,
    pub prev_attribute: bool,
    pub prev_opened_block: bool,
}

/// Whether a blank line goes before `line`: it starts an item, does not follow
/// an attribute or an opening brace, and no blank line is there already.
pub open spec fn needs_gap(st: SpacingState, line: Seq<char>) -> bool {
    let t = trim_start(line);
    let top = st.depth == 0 && opens_top_item(t);
    let nested = st.depth == 1 && opens_nested_fn(t);
    let starts_item = (top || nested) && !st.prev_attribute && !st.prev_opened_block;
    starts_item && !st.prev_blank
}

pub open spec fn spacing_step(st: SpacingState, line: Seq<char>) -> SpacingState {
    let t = trim_start(line);
    let gap: Seq<char> = if needs_gap(st, line) { seq!['\n'] } else { Seq::empty() };
    SpacingState {
        out: st.out + gap + line + seq!['\n'],
        depth: st.depth + count_char(line, '{') - count_char(line, '}'),
        prev_blank: t.len() == 0,
        prev_attribute: starts(t, "#["@),
        prev_opened_block: t.len() > 0 && t.last() == '{',
    }
}

pub open spec fn spacing_state(lines: Seq<Seq<char>>) -> SpacingState
    decreases lines.len(),
{
    if lines.len() == 0 {
        SpacingState {
            out: Seq::empty(),
            depth: 0,
            prev_blank: true,
            prev_attribute: false,
            prev_opened_block: false,
        }
    } else {
        spacing_step(spacing_state(lines.drop_last()), lines.last())
    }
}

/// The code with a blank line put before every item that starts at the top
/// level (or one level down, for functions), unless one is there already or
/// the item follows an attribute or an opening brace; every line ends with a
/// line break.
pub open spec fn spaced(code: Seq<char>) -> Seq<char> {
    spacing_state(lines_of(code)).out
}

fn starts_at(l: &Vec<char>, k: usize, p: &str) -> (b: bool)
    requires
        k <= l@.len(),
    ensures
        b == starts(l@.skip(k as int), p@),
{
    let pv = chars_of(p);
    let n = l.len();
    if pv.len() > n - k {
        return false;
    }
    let mut j: usize = 0;
    while j < pv.len()
        invariant
            n == l@.len(),
            pv@ == p@,
            k <= l@.len(),
            k + pv@.len() <= l@.len(),
            j <= pv@.len(),
            forall|m: int| 0 <= m < j ==> l@[k + m] == pv@[m],
        decreases pv@.len() - j,
    {
        if l[k + j] != pv[j] {
            assert(l@.skip(k as int).take(pv@.len() as int)[j as int] != pv@[j as int]);
            return false;
        }
        j = j + 1;
    }
    assert(l@.skip(k as int).take(pv@.len() as int) =~= pv@);
    true
}

fn count_in(l: &Vec<char>, c: char) -> (n: usize)
    ensures
        n == count_char(l@, c),
{
    let mut n: usize = 0;
    let mut i: usize = 0;
    while i < l.len()
        invariant
            i <= l@.len(),
            n == count_char(l@.take(i as int), c),
            n <= i,
        decreases l@.len() - i,
    {
        assert(l@.take(i + 1).drop_last() =~= l@.take(i as int));
        assert(l@.take(i + 1).last() == l@[i as int]);
        if l[i] == c {
            assert(n < l@.len());
            n = n + 1;
        }
        i = i + 1;
    }
    assert(l@.take(l@.len() as int) =~= l@);
    n
}

proof fn lemma_count_bounds(l: Seq<char>, c: char)
    ensures
        0 <= count_char(l, c) <= l.len(),
    decreases l.len(),
{
    if l.len() > 0 {
        lemma_count_bounds(l.drop_last(), c);
    }
}

pub open spec fn total_len(lines: Seq<Seq<char>>) -> int
    decreases lines.len(),
{
    if lines.len() == 0 {
        0
    } else {
        total_len(lines.drop_last()) + lines.last().len()
    }
}

proof fn lemma_depth_bound(lines: Seq<Seq<char>>)
    ensures
        -total_len(lines) <= spacing_state(lines).depth <= total_len(lines),
        total_len(lines) >= 0,
    decreases lines.len(),
{
    if lines.len() > 0 {
        lemma_depth_bound(lines.drop_last());
        lemma_count_bounds(lines.last(), '{');
        lemma_count_bounds(lines.last(), '}');
    }
}

proof fn lemma_lines_total(s: Seq<char>)
    ensures
        total_len(split_state(s).0) + split_state(s).1.len() <= s.len(),
    decreases s.len(),
{
    if s.len() > 0 {
        lemma_lines_total(s.drop_last());
        let (done, cur) = split_state(s.drop_last());
        if s.last() == '\n' {
            assert(done.push(strip_cr(cur)).drop_last() =~= done);
        }
    }
}

/// Inserts a blank line before every top-level item (or its leading
/// attribute), without separating stacked attributes from the item they
/// annotate. One level down only function definitions are spaced, so the
/// methods of an `impl` are separated and the fields of a struct are not.
pub fn insert_blank_lines_between_items(code: &str) -> (r: String)
    ensures
        r@ == spaced(code@),
{
    let chars = chars_of(code);
    let lines = split_lines(&chars);
    let ghost ls = lines_of(code@);
    assert(code@.len() == chars.len());
    proof {
        lemma_lines_total(code@);
        assert(total_len(ls) <= code@.len()) by {
            let (done, cur) = split_state(code@);
            if cur.len() > 0 {
                assert(done.push(cur).drop_last() =~= done);
            }
        }
    }
    let mut out: Vec<char> = Vec::new();
    let mut depth: i128 = 0;
    let mut prev_was_blank = true;
    let mut prev_was_attribute = false;
    let mut prev_opened_block = false;
    let mut i: usize = 0;
    while i < lines.len()
        invariant
            i <= lines@.len(),
            lines_view(lines@) == ls,
            total_len(ls) <= usize::MAX,
            spacing_state(ls.take(i as int)) == (SpacingState {
                out: out@,
                depth: depth as int,
                prev_blank: prev_was_blank,
                prev_attribute: prev_was_attribute,
                prev_opened_block: prev_opened_block,
            }),
        decreases lines@.len() - i,
    {
        let line = &lines[i];
        assert(ls[i as int] == line@);
        assert(ls.take(i + 1).drop_last() =~= ls.take(i as int));
        let k = first_non_white(line);
        let ghost t = line@.skip(k as int);
        let top = depth == 0 && (starts_at(line, k, "pub ") || starts_at(line, k, "struct ")
            || starts_at(line, k, "enum ") || starts_at(line, k, "impl ")
            || starts_at(line, k, "fn ") || starts_at(line, k, "#["));
        let nested = depth == 1 && (starts_at(line, k, "fn ") || starts_at(line, k, "async fn ")
            || starts_at(line, k, "pub fn ") || starts_at(line, k, "pub async fn "));
        let starts_item = (top || nested) && !prev_was_attribute && !prev_opened_block;
        let ghost before = out@;
        if starts_item && !prev_was_blank {
            out.push('\n');
        }
        let mut copy = line.clone();
        out.append(&mut copy);
        out.push('\n');
        let opens = count_in(line, '{');
        let closes = count_in(line, '}');
        proof {
            lemma_depth_bound(ls.take(i + 1));
            lemma_count_bounds(line@, '{');
            lemma_count_bounds(line@, '}');
            assert(total_len(ls.take(i + 1)) <= total_len(ls)) by {
                lemma_total_prefix(ls, i + 1);
            }
            assert(total_len(ls.take(i + 1)) == total_len(ls.take(i as int)) + line@.len());
            lemma_depth_bound(ls.take(i as int));
        }
        depth = depth + opens as i128;
        depth = depth - closes as i128;
        prev_was_blank = k == line.len();
        prev_was_attribute = starts_at(line, k, "#[");
        prev_opened_block = k < line.len() && line[line.len() - 1] == '{';
        assert(t.len() > 0 ==> t.last() == line@.last());
        let ghost gap: Seq<char> = if starts_item && !spacing_state(ls.take(i as int)).prev_blank {
            seq!['\n']
        } else {
            Seq::empty()
        };
        assert(out@ =~= before + gap + line@ + seq!['\n']);
        i = i + 1;
    }
    assert(ls.take(lines@.len() as int) =~= ls);
    string_from_chars(&out)
}

proof fn lemma_total_prefix(ls: Seq<Seq<char>>, n: int)
    requires
        0 <= n <= ls.len(),
    ensures
        total_len(ls.take(n)) <= total_len(ls),
    decreases ls.len(),
{
    if n < ls.len() {
        assert(ls.drop_last().take(n) =~= ls.take(n));
        lemma_total_prefix(ls.drop_last(), n);
        lemma_depth_bound(ls.drop_last());
    } else {
        assert(ls.take(n) =~= ls);
    }
}

// ── Spacing twice ───────────────────────────────────────────────────────────

/// A line that `str::lines` gives back unchanged once it is followed by a
/// line break: no line break in it and no carriage return at its end.
pub open spec fn plain_line(l: Seq<char>) -> bool {
    &&& forall|j: int| 0 <= j < l.len() ==> l[j] != '\n'
    &&& !(l.len() > 0 && l.last() == '\r')
}

/// The lines of the spaced text: each line, with an empty line before it
/// where a blank line is put.
spec fn spaced_lines(lines: Seq<Seq<char>>) -> Seq<Seq<char>>
    decreases lines.len(),
{
    if lines.len() == 0 {
        Seq::empty()
    } else {
        let prev = lines.drop_last();
        if needs_gap(spacing_state(prev), lines.last()) {
            spaced_lines(prev).push(Seq::empty()).push(lines.last())
        } else {
            spaced_lines(prev).push(lines.last())
        }
    }
}

proof fn lemma_split_no_newline(s: Seq<char>, w: Seq<char>)
    requires
        forall|j: int| 0 <= j < w.len() ==> w[j] != '\n',
    ensures
        split_state(s + w) == (split_state(s).0, split_state(s).1 + w),
    decreases w.len(),
{
    if w.len() == 0 {
        assert(s + w =~= s);
        assert(split_state(s).1 + w =~= split_state(s).1);
    } else {
        let v = w.drop_last();
        assert forall|j: int| 0 <= j < v.len() implies v[j] != '\n' by {
            assert(v[j] == w[j]);
        }
        lemma_split_no_newline(s, v);
        assert((s + w).drop_last() =~= s + v);
        assert((s + w).last() == w.last());
        assert(split_state(s).1 + v.push(w.last()) =~= split_state(s).1 + w);
    }
}

/// Reading a plain line and its line break after a finished line adds that
/// line and leaves nothing pending.
proof fn lemma_split_line(s: Seq<char>, l: Seq<char>)
    requires
        split_state(s).1 == Seq::<char>::empty(),
        plain_line(l),
    ensures
        split_state(s + l + seq!['\n']) == (split_state(s).0.push(l), Seq::<char>::empty()),
{
    lemma_split_no_newline(s, l);
    assert((s + l + seq!['\n']).drop_last() =~= s + l);
    assert(Seq::<char>::empty() + l =~= l);
}

proof fn lemma_lines_plain(s: Seq<char>)
    ensures
        forall|i: int| 0 <= i < split_state(s).0.len() ==> forall|j: int| 0 <= j < (
        #[trigger] split_state(s).0[i]).len() ==> split_state(s).0[i][j] != '\n',
        forall|j: int| 0 <= j < split_state(s).1.len() ==> split_state(s).1[j] != '\n',
    decreases s.len(),
{
    if s.len() > 0 {
        lemma_lines_plain(s.drop_last());
        let (done, cur) = split_state(s.drop_last());
        if s.last() == '\n' {
            let d = done.push(strip_cr(cur));
            assert forall|i: int| 0 <= i < d.len() implies forall|j: int| 0 <= j < (
            #[trigger] d[i]).len() ==> d[i][j] != '\n' by {
                if i == done.len() {
                    assert forall|j: int| 0 <= j < d[i].len() implies d[i][j] != '\n' by {
                        assert(d[i][j] == cur[j]);
                    }
                }
            }
        } else {
            let c = cur.push(s.last());
            assert forall|j: int| 0 <= j < c.len() implies c[j] != '\n' by {
                if j < cur.len() {
                    assert(c[j] == cur[j]);
                }
            }
        }
    }
}

/// The spaced text splits back into its spaced lines, and laying those out
/// again reaches the same state: no further blank line is put anywhere.
proof fn lemma_respace(lines: Seq<Seq<char>>)
    requires
        forall|i: int| 0 <= i < lines.len() ==> plain_line(#[trigger] lines[i]),
    ensures
        split_state(spacing_state(lines).out) == (spaced_lines(lines), Seq::<char>::empty()),
        spacing_state(spaced_lines(lines)) == spacing_state(lines),
    decreases lines.len(),
{
    if lines.len() > 0 {
        let prev = lines.drop_last();
        assert forall|i: int| 0 <= i < prev.len() implies plain_line(#[trigger] prev[i]) by {
            assert(prev[i] == lines[i]);
        }
        lemma_respace(prev);
        let st = spacing_state(prev);
        let l = lines.last();
        assert(plain_line(lines[lines.len() - 1]));
        let sl = spaced_lines(prev);
        let e = Seq::<char>::empty();
        assert(trim_start(e) == e);
        assert(count_char(e, '{') == 0);
        assert(count_char(e, '}') == 0);
        reveal_strlit("pub ");
        reveal_strlit("struct ");
        reveal_strlit("enum ");
        reveal_strlit("impl ");
        reveal_strlit("fn ");
        reveal_strlit("#[");
        reveal_strlit("async fn ");
        reveal_strlit("pub fn ");
        reveal_strlit("pub async fn ");
        assert(!opens_top_item(e) && !opens_nested_fn(e));
        if needs_gap(st, l) {
            let mid = spacing_step(st, e);
            assert(!needs_gap(st, e));
            assert(mid.out =~= st.out + e + seq!['\n']);
            assert(plain_line(e));
            lemma_split_line(st.out, e);
            lemma_split_line(st.out + e + seq!['\n'], l);
            assert(spacing_step(st, l).out =~= st.out + e + seq!['\n'] + l + seq!['\n']);
            assert(!needs_gap(mid, l));
            assert(spacing_step(mid, l).out =~= spacing_step(st, l).out);
            assert(sl.push(e).push(l).drop_last() =~= sl.push(e));
            assert(sl.push(e).drop_last() =~= sl);
            assert(spacing_state(sl.push(e)) == mid);
            assert(spacing_state(sl.push(e).push(l)) == spacing_step(mid, l));
            assert(spacing_step(mid, l) == spacing_step(st, l));
        } else {
            lemma_split_line(st.out, l);
            assert(spacing_step(st, l).out =~= st.out + l + seq!['\n']);
            assert(sl.push(l).drop_last() =~= sl);
            assert(spacing_state(sl.push(l)) == spacing_step(st, l));
        }
    }
}

/// Spacing text that is already spaced changes nothing, for text none of
/// whose lines ends in a carriage return that `str::lines` leaves in it.
pub proof fn lemma_spaced_idempotent(code: Seq<char>)
    requires
        forall|i: int| 0 <= i < lines_of(code).len() ==> !(#[trigger] lines_of(code)[i].len() > 0
            && lines_of(code)[i].last() == '\r'),
    ensures
        spaced(spaced(code)) == spaced(code),
{
    let ls = lines_of(code);
    lemma_lines_plain(code);
    let (done, cur) = split_state(code);
    assert forall|i: int| 0 <= i < ls.len() implies plain_line(#[trigger] ls[i]) by {
        assert(!(ls[i].len() > 0 && ls[i].last() == '\r'));
        if i < done.len() {
            assert(ls[i] == done[i]);
        } else {
            assert(ls[i] == cur);
        }
    }
    lemma_respace(ls);
}

} // verus!
