//! Text as lines: what the lines of a text are, how lines make up a text, and
//! which of them are section headers.

use vstd::prelude::*;

verus! {

/// The line break.
pub open spec fn newline() -> Seq<char> {
    seq!['\n']
}

/// The text holds no line break.
pub open spec fn newline_free(l: Seq<char>) -> bool {
    forall|i: int| 0 <= i < l.len() ==> l[i] != '\n'
}

/// None of the lines holds a line break.
pub open spec fn all_newline_free(ls: Seq<Seq<char>>) -> bool {
    forall|i: int| 0 <= i < ls.len() ==> newline_free(#[trigger] ls[i])
}

/// The text made of the lines, each followed by a line break.
pub open spec fn join_lines(ls: Seq<Seq<char>>) -> Seq<char>
    decreases ls.len(),
{
    if ls.len() == 0 {
        Seq::empty()
    } else {
        join_lines(ls.drop_last()) + ls.last() + newline()
    }
}

/// Where the first line of a text ends: the place of its first line break,
/// or its length where it has none.
pub open spec fn line_end(t: Seq<char>) -> nat
    decreases t.len(),
{
    if t.len() == 0 || t[0] == '\n' {
        0
    } else {
        1 + line_end(t.skip(1))
    }
}

/// The lines of a text: what stands before each line break, and what is left
/// after the last one if anything is.
pub open spec fn lines_of(t: Seq<char>) -> Seq<Seq<char>>
    decreases t.len(),
{
    if t.len() == 0 {
        Seq::empty()
    } else {
        let n = line_end(t) as int;
        if n >= t.len() {
            seq![t]
        } else {
            seq![t.take(n)] + lines_of(t.skip(n + 1))
        }
    }
}

/// The line opens a section: it starts with a square bracket.
pub open spec fn is_header(l: Seq<char>) -> bool {
    l.len() > 0 && l[0] == '['
}

/// The lines that open a section, in their order.
pub open spec fn headers(ls: Seq<Seq<char>>) -> Seq<Seq<char>>
    decreases ls.len(),
{
    if ls.len() == 0 {
        Seq::empty()
    } else if is_header(ls.last()) {
        headers(ls.drop_last()).push(ls.last())
    } else {
        headers(ls.drop_last())
    }
}

/// The line begins with `prefix`.
pub open spec fn starts_with(l: Seq<char>, prefix: Seq<char>) -> bool {
    l.len() >= prefix.len() && l.take(prefix.len() as int) == prefix
}

/// None of the lines begins with `prefix`.
pub open spec fn none_starts_with(ls: Seq<Seq<char>>, prefix: Seq<char>) -> bool {
    forall|i: int| 0 <= i < ls.len() ==> !starts_with(#[trigger] ls[i], prefix)
}

/// A line without a line break, followed by one, ends where the break stands.
pub proof fn lemma_line_end(l: Seq<char>, rest: Seq<char>)
    requires
        newline_free(l),
    ensures
        line_end(l + newline() + rest) == l.len(),
    decreases l.len(),
{
    let t = l + newline() + rest;
    if l.len() == 0 {
        assert(t[0] == '\n');
    } else {
        assert(t[0] == l[0]);
        assert(t.skip(1) =~= l.skip(1) + newline() + rest);
        assert(newline_free(l.skip(1))) by {
            assert forall|i: int| 0 <= i < l.skip(1).len() implies l.skip(1)[i] != '\n' by {
                assert(l.skip(1)[i] == l[i + 1]);
            }
        }
        lemma_line_end(l.skip(1), rest);
    }
}

/// The text of some lines begins with the first line and its break.
pub proof fn lemma_join_front(ls: Seq<Seq<char>>)
    requires
        ls.len() > 0,
    ensures
        join_lines(ls) == ls[0] + newline() + join_lines(ls.skip(1)),
    decreases ls.len(),
{
    if ls.len() == 1 {
        assert(ls.drop_last() =~= Seq::<Seq<char>>::empty());
        assert(ls.skip(1) =~= Seq::<Seq<char>>::empty());
        assert(join_lines(ls) =~= ls[0] + newline() + join_lines(ls.skip(1)));
    } else {
        lemma_join_front(ls.drop_last());
        assert(ls.skip(1).drop_last() =~= ls.drop_last().skip(1));
        assert(ls.skip(1).last() == ls.last());
        assert(ls.drop_last()[0] == ls[0]);
        assert(join_lines(ls) =~= ls[0] + newline() + join_lines(ls.skip(1)));
    }
}

/// Lines without line breaks are the lines of the text that they make up.
pub proof fn lemma_lines_of_join(ls: Seq<Seq<char>>)
    requires
        all_newline_free(ls),
    ensures
        lines_of(join_lines(ls)) == ls,
    decreases ls.len(),
{
    if ls.len() == 0 {
    } else {
        let t = join_lines(ls);
        let rest = join_lines(ls.skip(1));
        lemma_join_front(ls);
        assert(newline_free(ls[0]));
        lemma_line_end(ls[0], rest);
        let n = ls[0].len() as int;
        assert(t.len() == n + 1 + rest.len());
        assert(t.take(n) =~= ls[0]);
        assert(t.skip(n + 1) =~= rest);
        assert(all_newline_free(ls.skip(1))) by {
            assert forall|i: int| 0 <= i < ls.skip(1).len() implies newline_free(
                #[trigger] ls.skip(1)[i],
            ) by {
                assert(ls.skip(1)[i] == ls[i + 1]);
            }
        }
        lemma_lines_of_join(ls.skip(1));
        assert(seq![ls[0]] + ls.skip(1) =~= ls);
    }
}

/// The text of two runs of lines is the text of the first, then the text of
/// the second.
pub proof fn lemma_join_add(a: Seq<Seq<char>>, b: Seq<Seq<char>>)
    ensures
        join_lines(a + b) == join_lines(a) + join_lines(b),
    decreases b.len(),
{
    if b.len() == 0 {
        assert(a + b =~= a);
        assert(join_lines(a) + join_lines(b) =~= join_lines(a));
    } else {
        lemma_join_add(a, b.drop_last());
        assert((a + b).drop_last() =~= a + b.drop_last());
        assert((a + b).last() == b.last());
        assert(join_lines(a + b) =~= join_lines(a) + join_lines(b));
    }
}

/// The headers of two runs of lines are the headers of the first, then those
/// of the second.
pub proof fn lemma_headers_add(a: Seq<Seq<char>>, b: Seq<Seq<char>>)
    ensures
        headers(a + b) == headers(a) + headers(b),
    decreases b.len(),
{
    if b.len() == 0 {
        assert(a + b =~= a);
        assert(headers(a) + headers(b) =~= headers(a));
    } else {
        lemma_headers_add(a, b.drop_last());
        assert((a + b).drop_last() =~= a + b.drop_last());
        assert((a + b).last() == b.last());
        assert(headers(a + b) =~= headers(a) + headers(b));
    }
}

/// What one more line adds to a run of lines.
pub proof fn lemma_push_line(a: Seq<Seq<char>>, l: Seq<char>)
    ensures
        join_lines(a.push(l)) == join_lines(a) + l + newline(),
        headers(a.push(l)) == if is_header(l) {
            headers(a).push(l)
        } else {
            headers(a)
        },
        all_newline_free(a) && newline_free(l) ==> all_newline_free(a.push(l)),
{
    assert(a.push(l).drop_last() =~= a);
    assert(a.push(l).last() == l);
}

/// What a second run of lines adds to a first.
pub proof fn lemma_add_lines(a: Seq<Seq<char>>, b: Seq<Seq<char>>)
    ensures
        join_lines(a + b) == join_lines(a) + join_lines(b),
        headers(a + b) == headers(a) + headers(b),
        all_newline_free(a) && all_newline_free(b) ==> all_newline_free(a + b),
{
    lemma_join_add(a, b);
    lemma_headers_add(a, b);
}

/// A line that opens a section is among the headers.
pub proof fn lemma_header_is_listed(ls: Seq<Seq<char>>, i: int)
    requires
        0 <= i < ls.len(),
        is_header(ls[i]),
    ensures
        headers(ls).contains(ls[i]),
    decreases ls.len(),
{
    if i == ls.len() - 1 {
        assert(headers(ls) == headers(ls.drop_last()).push(ls.last()));
        assert(headers(ls)[headers(ls).len() - 1] == ls[i]);
    } else {
        lemma_header_is_listed(ls.drop_last(), i);
        let j = choose|j: int| 0 <= j < headers(ls.drop_last()).len() && headers(ls.drop_last())[j] == ls[i];
        assert(headers(ls)[j] == ls[i]);
    }
}

} // verus!
