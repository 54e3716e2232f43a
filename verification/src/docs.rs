//! Documentation blocks: every line of the text, trimmed and indented by two
//! spaces.

use vstd::prelude::*;
use vstd::string::*;
use crate::model::Docs;

verus! {

/// Whether a character has the Unicode property `White_Space`.
pub uninterp spec fn is_white_space(c: char) -> bool;

/// `char::is_whitespace` tells whether the character has the property
/// `White_Space`.
pub assume_specification[ char::is_whitespace ](c: char) -> (b: bool)
    ensures
        b == is_white_space(c),
;

/// `s` without the white space it begins with.
pub open spec fn trim_start(s: Seq<char>) -> Seq<char>
    decreases s.len(),
{
    if s.len() > 0 && is_white_space(s.first()) {
        trim_start(s.drop_first())
    } else {
        s
    }
}

/// `s` without the white space it ends with.
pub open spec fn trim_end(s: Seq<char>) -> Seq<char>
    decreases s.len(),
{
    if s.len() > 0 && is_white_space(s.last()) {
        trim_end(s.drop_last())
    } else {
        s
    }
}

/// `s` without the white space around it.
pub open spec fn trim(s: Seq<char>) -> Seq<char> {
    trim_end(trim_start(s))
}

/// How many characters stand before the first line feed of `s`; its length
/// if it has none.
pub open spec fn line_end(s: Seq<char>) -> nat
    decreases s.len(),
{
    if s.len() == 0 || s.first() == '\n' {
        0
    } else {
        1 + line_end(s.drop_first())
    }
}

/// One line of a documentation block.
pub open spec fn doc_line(line: Seq<char>) -> Seq<char> {
    "  "@ + trim(line) + "\n"@
}

/// The lines of `s`, each as a line of a documentation block. A line ends
/// at a line feed or at the end of the text; nothing follows a final line
/// feed.
pub open spec fn doc_lines(s: Seq<char>) -> Seq<char>
    decreases s.len(),
{
    if s.len() == 0 {
        Seq::empty()
    } else {
        let n = line_end(s);
        let rest = if n < s.len() {
            s.skip(n as int + 1)
        } else {
            Seq::empty()
        };
        doc_line(s.take(n as int)) + doc_lines(rest)
    }
}

/// The block that documentation is rendered as: nothing where there is none.
pub open spec fn docs_text(docs: Option<Seq<char>>) -> Seq<char> {
    match docs {
        Some(s) => doc_lines(s),
        None => Seq::empty(),
    }
}

/// A line that holds no line feed ends where the text after it does.
proof fn lemma_line_end_append(line: Seq<char>, rest: Seq<char>)
    requires
        forall|k: int| 0 <= k < line.len() ==> line[k] != '\n',
    ensures
        line_end(line + rest) == line.len() + line_end(rest),
    decreases line.len(),
{
    if line.len() == 0 {
        assert(line + rest =~= rest);
    } else {
        let tail = line.drop_first();
        assert((line + rest).drop_first() =~= tail + rest);
        assert((line + rest).first() == line[0]);
        lemma_line_end_append(tail, rest);
    }
}

fn trim_bounds(line: &Vec<char>) -> (bounds: (usize, usize))
    ensures
        bounds.0 <= bounds.1 <= line.len(),
        line@.subrange(bounds.0 as int, bounds.1 as int) == trim(line@),
{
    let n = line.len();
    let mut a: usize = 0;
    assert(line@.skip(0) =~= line@);
    while a < n && line[a].is_whitespace()
        invariant
            a <= n == line.len(),
            trim_start(line@) == trim_start(line@.skip(a as int)),
        decreases n - a,
    {
        assert(line@.skip(a as int).drop_first() =~= line@.skip(a as int + 1));
        a = a + 1;
    }
    assert(trim_start(line@) == line@.skip(a as int));
    assert(line@.skip(a as int) =~= line@.subrange(a as int, n as int));
    let mut b: usize = n;
    while b > a && line[b - 1].is_whitespace()
        invariant
            a <= b <= n == line.len(),
            trim(line@) == trim_end(line@.subrange(a as int, b as int)),
        decreases b,
    {
        assert(line@.subrange(a as int, b as int).drop_last() =~= line@.subrange(
            a as int,
            b as int - 1,
        ));
        b = b - 1;
    }
    (a, b)
}

/// Appends one line of a documentation block.
fn push_doc_line(out: &mut String, line: &Vec<char>)
    ensures
        final(out)@ == old(out)@ + doc_line(line@),
{
    let (a, b) = trim_bounds(line);
    out.append("  ");
    let mut k: usize = a;
    while k < b
        invariant
            a <= k <= b <= line.len(),
            out@ == old(out)@ + "  "@ + line@.subrange(a as int, k as int),
        decreases b - k,
    {
        out.push(line[k]);
        assert(line@.subrange(a as int, k as int).push(line@[k as int]) =~= line@.subrange(
            a as int,
            k as int + 1,
        ));
        k = k + 1;
    }
    out.append("\n");
}

/// Appends the documentation block of `docs`.
pub fn push_docs(out: &mut String, docs: &Docs)
    ensures
        final(out)@ == old(out)@ + docs_text(docs@),
{
    match &docs.contents {
        None => {
            assert(out@ =~= old(out)@ + docs_text(docs@));
        },
        Some(text) => {
            let mut line: Vec<char> = Vec::new();
            assert(line@ + text@.skip(0) =~= text@);
            for c in it: text.as_str().chars()
                invariant
                    it.seq() == text@,
                    forall|k: int| 0 <= k < line@.len() ==> line@[k] != '\n',
                    old(out)@ + doc_lines(text@) == out@ + doc_lines(
                        line@ + text@.skip(it.index()),
                    ),
            {
                let ghost rest = text@.skip(it.index());
                let ghost before = out@;
                let ghost begun = line@;
                assert(rest.first() == c);
                assert(rest.drop_first() =~= text@.skip(it.index() + 1));
                if c == '\n' {
                    proof {
                        lemma_line_end_append(begun, rest);
                        assert((begun + rest).take(begun.len() as int) =~= begun);
                        assert((begun + rest).skip(begun.len() as int + 1) =~= rest.drop_first());
                        assert(doc_lines(begun + rest) == doc_line(begun) + doc_lines(
                            rest.drop_first(),
                        ));
                    }
                    push_doc_line(out, &line);
                    line = Vec::new();
                    assert(line@ + rest.drop_first() =~= rest.drop_first());
                    assert(out@ + doc_lines(rest.drop_first()) =~= before + doc_lines(
                        begun + rest,
                    ));
                } else {
                    line.push(c);
                    assert(line@ + rest.drop_first() =~= begun + rest);
                }
            }
            assert(text@.skip(text@.len() as int) =~= Seq::<char>::empty());
            assert(line@ + Seq::<char>::empty() =~= line@);
            if line.len() > 0 {
                proof {
                    lemma_line_end_append(line@, Seq::empty());
                    assert(line_end(line@) == line@.len());
                    assert(line@.take(line@.len() as int) =~= line@);
                    assert(doc_lines(Seq::<char>::empty()) =~= Seq::<char>::empty());
                    assert(doc_lines(line@) =~= doc_line(line@));
                }
                push_doc_line(out, &line);
            }
        },
    }
}

} // verus!
