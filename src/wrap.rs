use vstd::prelude::*;
use vstd::string::*;

use crate::stream::{Emit, OutputStream};
use crate::text::{chars_of, is_space, is_space_char};

verus! {

/// Length of the run of non-space characters that starts `s`.
pub open spec fn word_len(s: Seq<char>) -> nat
    decreases s.len(),
{
    if s.len() == 0 || is_space(s[0]) {
        0
    } else {
        1 + word_len(s.drop_first())
    }
}

proof fn lemma_word_len_bound(s: Seq<char>)
    ensures
        word_len(s) <= s.len(),
        s.len() > 0 && !is_space(s[0]) ==> word_len(s) >= 1,
    decreases s.len(),
{
    if s.len() > 0 && !is_space(s[0]) {
        lemma_word_len_bound(s.drop_first());
    }
}

/// The white-space separated words of `s`, in order.
pub open spec fn words(s: Seq<char>) -> Seq<Seq<char>>
    decreases s.len(),
    via words_decreases
{
    if s.len() == 0 {
        seq![]
    } else if is_space(s[0]) {
        words(s.drop_first())
    } else {
        seq![s.take(word_len(s) as int)] + words(s.skip(word_len(s) as int))
    }
}

#[via_fn]
proof fn words_decreases(s: Seq<char>) {
    lemma_word_len_bound(s);
}

/// Where the paragraph that starts at `i` ends: at the next blank-line
/// marker (two consecutive line breaks), or at the end of `s`.
pub open spec fn para_end(s: Seq<char>, i: nat) -> nat
    decreases s.len() - i,
{
    if i + 1 >= s.len() {
        s.len()
    } else if s[i as int] == '\n' && s[i + 1int] == '\n' {
        i
    } else {
        para_end(s, i + 1)
    }
}

proof fn lemma_para_end_bound(s: Seq<char>, i: nat)
    requires
        i + 1 < s.len(),
    ensures
        i <= para_end(s, i),
    decreases s.len() - i,
{
    if !(s[i as int] == '\n' && s[i + 1int] == '\n') {
        if i + 2 < s.len() {
            lemma_para_end_bound(s, (i + 1) as nat);
        } else {
            assert(para_end(s, (i + 1) as nat) == s.len());
        }
    }
}

/// The paragraphs of `s` from position `i` on, split at blank-line markers.
pub open spec fn paras_from(s: Seq<char>, i: nat) -> Seq<Seq<char>>
    decreases s.len() - i,
    via paras_decreases
{
    let e = para_end(s, i);
    if e + 1 >= s.len() {
        seq![s.subrange(i as int, s.len() as int)]
    } else {
        seq![s.subrange(i as int, e as int)] + paras_from(s, e + 2)
    }
}

#[via_fn]
proof fn paras_decreases(s: Seq<char>, i: nat) {
    if i + 1 < s.len() {
        lemma_para_end_bound(s, i);
    }
}

/// The paragraphs of `s`.
pub open spec fn paragraphs(s: Seq<char>) -> Seq<Seq<char>> {
    paras_from(s, 0)
}

/// Greedy packing of `ws` into lines of at most `avail` characters, each
/// word followed by one space, continuing the partial line `cur`. A word
/// that does not fit starts a new line, unless the line is still empty.
pub open spec fn pack(ws: Seq<Seq<char>>, avail: nat, cur: Seq<char>) -> Seq<Seq<char>>
    decreases ws.len(),
{
    if ws.len() == 0 {
        if cur.len() == 0 {
            seq![]
        } else {
            seq![cur]
        }
    } else if cur.len() > 0 && cur.len() + ws[0].len() + 1 > avail {
        seq![cur] + pack(ws.drop_first(), avail, ws[0] + seq![' '])
    } else {
        pack(ws.drop_first(), avail, cur + ws[0] + seq![' '])
    }
}

/// The lines that one paragraph becomes.
pub open spec fn para_lines(p: Seq<char>, avail: nat) -> Seq<Seq<char>> {
    pack(words(p), avail, seq![])
}

pub open spec fn spaces(n: nat) -> Seq<char> {
    Seq::new(n, |i: int| ' ')
}

/// One emitted line: the indent, the packed words, a line break.
pub open spec fn line_text(l: Seq<char>, indent: nat) -> Seq<char> {
    spaces(indent) + l + "\n"@
}

pub open spec fn lines_emits(ls: Seq<Seq<char>>, indent: nat) -> Seq<Emit>
    decreases ls.len(),
{
    if ls.len() == 0 {
        seq![]
    } else {
        lines_emits(ls.drop_last(), indent).push(Emit::Write(line_text(ls.last(), indent)))
    }
}

/// The writes for one paragraph: its lines, then a blank line.
pub open spec fn para_emits(p: Seq<char>, avail: nat, indent: nat) -> Seq<Emit> {
    lines_emits(para_lines(p, avail), indent).push(Emit::Write("\n"@))
}

pub open spec fn paras_emits(ps: Seq<Seq<char>>, avail: nat, indent: nat) -> Seq<Emit>
    decreases ps.len(),
{
    if ps.len() == 0 {
        seq![]
    } else {
        paras_emits(ps.drop_last(), avail, indent) + para_emits(ps.last(), avail, indent)
    }
}

/// Everything `print_wrapped` issues.
pub open spec fn wrap_emits(text: Seq<char>, width: nat, indent: nat) -> Seq<Emit> {
    paras_emits(paragraphs(text), (width - indent) as nat, indent).push(Emit::Flush)
}

fn spaces_string(n: usize) -> (r: String)
    ensures
        r@ == spaces(n as nat),
{
    let mut r = String::new();
    let mut i: usize = 0;
    while i < n
        invariant
            i <= n,
            r@ == spaces(i as nat),
        decreases n - i,
    {
        r.append(" ");
        proof {
            reveal_strlit(" ");
        }
        i = i + 1;
        assert(r@ =~= spaces(i as nat));
    }
    r
}

/// Writes `pad`, `cur` and a line break as one line.
fn emit_line(stream: &mut OutputStream, pad: &str, cur: &str, Ghost(indent): Ghost<nat>)
    requires
        pad@ == spaces(indent),
    ensures
        final(stream).emitted() == old(stream).emitted().push(Emit::Write(line_text(cur@, indent))),
        final(stream).kind() == old(stream).kind(),
        final(stream).choice() == old(stream).choice(),
        final(stream).terminal() == old(stream).terminal(),
{
    let mut line = String::from_str(pad);
    line.append(cur);
    line.append("\n");
    stream.write_all(line.as_str());
}

proof fn lemma_words_skip_space(s: Seq<char>, a: int, pe: int)
    requires
        0 <= a < pe <= s.len(),
        is_space(s[a]),
    ensures
        words(s.subrange(a, pe)) == words(s.subrange(a + 1, pe)),
{
    assert(s.subrange(a, pe).drop_first() =~= s.subrange(a + 1, pe));
}

proof fn lemma_words_take_word(s: Seq<char>, a: int, b: int, pe: int)
    requires
        0 <= a < b <= pe <= s.len(),
        !is_space(s[a]),
        word_len(s.subrange(a, pe)) == b - a,
    ensures
        words(s.subrange(a, pe)) == seq![s.subrange(a, b)] + words(s.subrange(b, pe)),
{
    assert(s.subrange(a, pe).take(b - a) =~= s.subrange(a, b));
    assert(s.subrange(a, pe).skip(b - a) =~= s.subrange(b, pe));
}

/// Writes the lines of the paragraph `text[ps..pe]`, then a blank line.
fn emit_paragraph(
    stream: &mut OutputStream,
    text: &str,
    cs: &Vec<char>,
    ps: usize,
    pe: usize,
    avail: usize,
    pad: &str,
    Ghost(indent): Ghost<nat>,
)
    requires
        cs@ == text@,
        ps <= pe <= cs@.len(),
        cs@.len() < isize::MAX,
        pad@ == spaces(indent),
    ensures
        final(stream).emitted() == old(stream).emitted() + para_emits(
            text@.subrange(ps as int, pe as int),
            avail as nat,
            indent,
        ),
        final(stream).kind() == old(stream).kind(),
        final(stream).choice() == old(stream).choice(),
        final(stream).terminal() == old(stream).terminal(),
{
    let ghost s = text@;
    let ghost e0 = stream.emitted();
    let ghost ws = words(s.subrange(ps as int, pe as int));
    let ghost mut lines: Seq<Seq<char>> = seq![];
    let mut cur = String::new();
    let mut cur_len: usize = 0;
    let mut a: usize = ps;
    assert(lines + pack(ws, avail as nat, cur@) =~= pack(ws, avail as nat, seq![]));
    while a < pe
        invariant
            cs@ == s,
            s == text@,
            ps <= a <= pe <= s.len(),
            s.len() < isize::MAX,
            pad@ == spaces(indent),
            cur_len == cur@.len(),
            cur_len <= 2 * (a - ps),
            ws == words(s.subrange(ps as int, pe as int)),
            lines + pack(words(s.subrange(a as int, pe as int)), avail as nat, cur@) == pack(
                ws,
                avail as nat,
                seq![],
            ),
            stream.emitted() == e0 + lines_emits(lines, indent),
            stream.kind() == old(stream).kind(),
            stream.choice() == old(stream).choice(),
            stream.terminal() == old(stream).terminal(),
        decreases pe - a,
    {
        if is_space_char(cs[a]) {
            proof {
                lemma_words_skip_space(s, a as int, pe as int);
            }
            a = a + 1;
        } else {
            let mut b: usize = a;
            assert(s.subrange(a as int, pe as int) =~= s.subrange(b as int, pe as int));
            while b < pe && !is_space_char(cs[b])
                invariant
                    cs@ == s,
                    a <= b <= pe <= s.len(),
                    word_len(s.subrange(a as int, pe as int)) == (b - a) + word_len(
                        s.subrange(b as int, pe as int),
                    ),
                decreases pe - b,
            {
                assert(s.subrange(b as int, pe as int).drop_first() =~= s.subrange(
                    b + 1,
                    pe as int,
                ));
                b = b + 1;
            }
            assert(word_len(s.subrange(b as int, pe as int)) == 0);
            proof {
                lemma_words_take_word(s, a as int, b as int, pe as int);
            }
            let word = text.substring_char(a, b);
            let wl = b - a;
            let ghost rest = words(s.subrange(b as int, pe as int));
            let ghost ws_here = words(s.subrange(a as int, pe as int));
            assert(ws_here[0] == word@);
            assert(ws_here.drop_first() =~= rest);
            if cur_len > 0 && (cur_len > avail || wl >= avail - cur_len) {
                emit_line(stream, pad, cur.as_str(), Ghost(indent));
                proof {
                    assert(lines.push(cur@).drop_last() =~= lines);
                    assert(lines + pack(ws_here, avail as nat, cur@) =~= lines.push(cur@) + pack(
                        rest,
                        avail as nat,
                        word@ + seq![' '],
                    ));
                    lines = lines.push(cur@);
                }
                cur = String::from_str(word);
                cur.append(" ");
                proof {
                    reveal_strlit(" ");
                    assert(cur@ =~= word@ + seq![' ']);
                }
                cur_len = wl + 1;
            } else {
                let ghost old_cur = cur@;
                assert(pack(ws_here, avail as nat, old_cur) == pack(
                    rest,
                    avail as nat,
                    old_cur + word@ + seq![' '],
                ));
                cur.append(word);
                cur.append(" ");
                proof {
                    reveal_strlit(" ");
                    assert(cur@ =~= old_cur + word@ + seq![' ']);
                }
                cur_len = cur_len + wl + 1;
            }
            a = b;
        }
    }
    assert(s.subrange(a as int, pe as int).len() == 0);
    if cur_len > 0 {
        emit_line(stream, pad, cur.as_str(), Ghost(indent));
        proof {
            assert(lines.push(cur@).drop_last() =~= lines);
            assert(lines + seq![cur@] =~= lines.push(cur@));
            lines = lines.push(cur@);
        }
    } else {
        assert(lines + seq![] =~= lines);
    }
    stream.write_all("\n");
}

/// Reflows `text` into lines of at most `wrap_width` characters, each
/// prefixed with `left_indent` spaces. Paragraphs are separated by blank
/// lines in the input; each is followed by a blank line in the output.
pub fn print_wrapped(stream: &mut OutputStream, text: &str, wrap_width: usize, left_indent: usize)
    requires
        left_indent <= wrap_width,
        text@.len() < isize::MAX,
    ensures
        final(stream).emitted() == old(stream).emitted() + wrap_emits(
            text@,
            wrap_width as nat,
            left_indent as nat,
        ),
        final(stream).kind() == old(stream).kind(),
        final(stream).choice() == old(stream).choice(),
        final(stream).terminal() == old(stream).terminal(),
{
    let ghost s = text@;
    let ghost e0 = stream.emitted();
    let ghost indent = left_indent as nat;
    let avail = wrap_width - left_indent;
    let cs = chars_of(text);
    let n = cs.len();
    let pad = spaces_string(left_indent);
    let ghost mut done: Seq<Seq<char>> = seq![];
    let mut ps: usize = 0;
    let mut more = true;
    assert(done + paras_from(s, 0) =~= paras_from(s, 0));
    while more
        invariant
            cs@ == s,
            s == text@,
            n == s.len(),
            n < isize::MAX,
            ps <= n,
            pad@ == spaces(indent),
            more ==> done + paras_from(s, ps as nat) == paragraphs(s),
            !more ==> done == paragraphs(s),
            stream.emitted() == e0 + paras_emits(done, avail as nat, indent),
            stream.kind() == old(stream).kind(),
            stream.choice() == old(stream).choice(),
            stream.terminal() == old(stream).terminal(),
        decreases (if more { n + 2 - ps } else { 0 }),
    {
        let mut k: usize = ps;
        while k + 1 < n && !(cs[k] == '\n' && cs[k + 1] == '\n')
            invariant
                cs@ == s,
                n == s.len(),
                n < isize::MAX,
                ps <= k <= n,
                para_end(s, ps as nat) == para_end(s, k as nat),
            decreases n - k,
        {
            k = k + 1;
        }
        let e: usize = if k + 1 < n {
            k
        } else {
            n
        };
        assert(para_end(s, ps as nat) == e);
        emit_paragraph(stream, text, &cs, ps, e, avail, pad.as_str(), Ghost(indent));
        proof {
            let p = s.subrange(ps as int, e as int);
            assert(done.push(p).drop_last() =~= done);
            assert(done + paras_from(s, ps as nat) =~= done.push(p) + (if e + 1 >= n {
                seq![]
            } else {
                paras_from(s, (e + 2) as nat)
            }));
            done = done.push(p);
        }
        if e + 1 >= n {
            more = false;
            assert(done =~= done + seq![]);
        } else {
            ps = e + 2;
        }
    }
    stream.flush();
}

proof fn lemma_pack_fits(ws: Seq<Seq<char>>, avail: nat, cur: Seq<char>)
    requires
        cur.len() <= avail,
        forall|i: int| 0 <= i < ws.len() ==> #[trigger] ws[i].len() + 1 <= avail,
    ensures
        forall|j: int|
            0 <= j < pack(ws, avail, cur).len() ==> #[trigger] pack(ws, avail, cur)[j].len()
                <= avail,
    decreases ws.len(),
{
    if ws.len() > 0 {
        let rest = ws.drop_first();
        assert forall|i: int| 0 <= i < rest.len() implies #[trigger] rest[i].len() + 1 <= avail by {
            assert(rest[i] == ws[i + 1]);
        }
        assert(ws[0].len() + 1 <= avail);
        if cur.len() > 0 && cur.len() + ws[0].len() + 1 > avail {
            lemma_pack_fits(rest, avail, ws[0] + seq![' ']);
            let tail = pack(rest, avail, ws[0] + seq![' ']);
            assert forall|j: int|
                0 <= j < pack(ws, avail, cur).len() implies #[trigger] pack(ws, avail, cur)[j].len()
                <= avail by {
                assert(pack(ws, avail, cur) == seq![cur] + tail);
                if j > 0 {
                    assert(pack(ws, avail, cur)[j] == tail[j - 1]);
                }
            }
        } else {
            assert((cur + ws[0] + seq![' ']).len() <= avail);
            lemma_pack_fits(rest, avail, cur + ws[0] + seq![' ']);
            assert(pack(ws, avail, cur) == pack(rest, avail, cur + ws[0] + seq![' ']));
        }
    } else {
        if cur.len() > 0 {
            assert(pack(ws, avail, cur) == seq![cur]);
        }
    }
}

/// When every word of a paragraph fits on a line by itself, no emitted line
/// is wider than `width`: the indent plus the packed words stay within it.
pub proof fn wrapped_lines_fit(p: Seq<char>, width: nat, indent: nat)
    requires
        indent <= width,
        forall|i: int|
            0 <= i < words(p).len() ==> #[trigger] words(p)[i].len() + 1 <= width - indent,
    ensures
        forall|j: int|
            0 <= j < para_lines(p, (width - indent) as nat).len() ==> indent + (#[trigger] para_lines(
                p,
                (width - indent) as nat,
            )[j]).len() <= width,
{
    lemma_pack_fits(words(p), (width - indent) as nat, seq![]);
}

/// Each paragraph's lines are followed by a blank line.
pub proof fn paragraph_ends_with_blank_line(p: Seq<char>, avail: nat, indent: nat)
    ensures
        para_emits(p, avail, indent).last() == Emit::Write("\n"@),
{
}

} // verus!
