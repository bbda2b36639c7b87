//! Splitting text into lines at newline characters.

use vstd::prelude::*;

verus! {

/// The position of the first newline in `text`, or the length of `text`
/// where it holds none.
pub open spec fn first_newline(text: Seq<char>) -> int
    decreases text.len(),
{
    if text.len() == 0 || text.first() == '\n' {
        0
    } else {
        1 + first_newline(text.drop_first())
    }
}

/// The lines of `text`: what stands in front of its first newline, then
/// the lines of what follows that newline. A text without a newline is
/// one line, so the empty text is one empty line, and a newline at the
/// very end is followed by an empty last line.
pub open spec fn lines_of(text: Seq<char>) -> Seq<Seq<char>>
    decreases text.len(),
{
    let at = first_newline(text);
    if 0 <= at < text.len() {
        seq![text.subrange(0, at)] + lines_of(text.subrange(at + 1, text.len() as int))
    } else {
        seq![text]
    }
}

/// The text whose lines are `lines`: the lines in order, with one newline
/// between each two neighbours.
pub open spec fn join_lines(lines: Seq<Seq<char>>) -> Seq<char>
    decreases lines.len(),
{
    if lines.len() == 0 {
        Seq::empty()
    } else if lines.len() == 1 {
        lines[0]
    } else {
        join_lines(lines.drop_last()) + seq!['\n'] + lines.last()
    }
}

/// How many newlines `text` holds.
pub open spec fn newline_count(text: Seq<char>) -> nat
    decreases text.len(),
{
    if text.len() == 0 {
        0
    } else {
        newline_count(text.drop_last()) + if text.last() == '\n' { 1nat } else { 0nat }
    }
}

/// Whether `line` holds no newline.
pub open spec fn newline_free(line: Seq<char>) -> bool {
    forall|i: int| 0 <= i < line.len() ==> line[i] != '\n'
}

/// What lies in front of the first newline is free of newlines, and
/// the position found is a newline unless it is the end of the text.
pub proof fn lemma_first_newline(text: Seq<char>)
    ensures
        0 <= first_newline(text) <= text.len(),
        newline_free(text.subrange(0, first_newline(text))),
        first_newline(text) < text.len() ==> text[first_newline(text)] == '\n',
    decreases text.len(),
{
    if text.len() == 0 || text.first() == '\n' {
    } else {
        let rest = text.drop_first();
        lemma_first_newline(rest);
        let head = text.subrange(0, first_newline(text));
        assert forall|i: int| 0 <= i < head.len() implies head[i] != '\n' by {
            if i > 0 {
                assert(head[i] == rest.subrange(0, first_newline(rest))[i - 1]);
            }
        }
    }
}

/// A newline-free text has its first newline at its end.
pub proof fn lemma_first_newline_of_free(text: Seq<char>)
    requires
        newline_free(text),
    ensures
        first_newline(text) == text.len(),
    decreases text.len(),
{
    if text.len() > 0 {
        lemma_first_newline_of_free(text.drop_first());
    }
}

/// Where the first newline moves when one character is added at the end.
proof fn lemma_first_newline_push(text: Seq<char>, c: char)
    ensures
        first_newline(text.push(c)) == if first_newline(text) < text.len() {
            first_newline(text)
        } else if c == '\n' {
            text.len() as int
        } else {
            text.len() as int + 1
        },
    decreases text.len(),
{
    lemma_first_newline(text);
    let longer = text.push(c);
    if text.len() == 0 {
        assert(longer.drop_first() =~= Seq::<char>::empty());
        assert(first_newline(Seq::<char>::empty()) == 0);
    } else if text.first() == '\n' {
    } else {
        let rest = text.drop_first();
        assert(longer.drop_first() =~= rest.push(c));
        lemma_first_newline_push(rest, c);
        lemma_first_newline(rest);
    }
}

/// Every text has at least one line.
pub proof fn lemma_lines_of_nonempty(text: Seq<char>)
    ensures
        lines_of(text).len() >= 1,
{
}

/// How the lines change when one character is added at the end: a
/// newline opens a new, empty line; any other character joins the last
/// line.
pub proof fn lemma_lines_of_push(text: Seq<char>, c: char)
    ensures
        lines_of(text.push(c)) == if c == '\n' {
            lines_of(text).push(Seq::empty())
        } else {
            lines_of(text).drop_last().push(lines_of(text).last().push(c))
        },
    decreases text.len(),
{
    let longer = text.push(c);
    let at = first_newline(text);
    let len = text.len() as int;
    lemma_first_newline(text);
    lemma_first_newline_push(text, c);
    if at < len {
        let head = text.subrange(0, at);
        let tail = text.subrange(at + 1, len);
        assert(longer.subrange(0, at) =~= head);
        assert(longer.subrange(at + 1, len + 1) =~= tail.push(c));
        lemma_lines_of_push(tail, c);
        lemma_lines_of_nonempty(tail);
    } else if c == '\n' {
        assert(longer.subrange(0, len) =~= text);
        assert(longer.subrange(len + 1, len + 1) =~= Seq::<char>::empty());
        assert(lines_of(Seq::<char>::empty()) == seq![Seq::<char>::empty()]);
    }
}

/// A text has one line more than it has newlines.
pub proof fn lemma_lines_of_count(text: Seq<char>)
    ensures
        lines_of(text).len() == newline_count(text) + 1,
    decreases text.len(),
{
    if text.len() > 0 {
        let front = text.drop_last();
        assert(front.push(text.last()) =~= text);
        lemma_lines_of_push(front, text.last());
        lemma_lines_of_count(front);
    }
}

/// No line holds a newline.
pub proof fn lemma_lines_of_newline_free(text: Seq<char>)
    ensures
        forall|i: int| 0 <= i < lines_of(text).len() ==> newline_free(#[trigger] lines_of(text)[i]),
    decreases text.len(),
{
    let at = first_newline(text);
    lemma_first_newline(text);
    if at < text.len() {
        let tail = text.subrange(at + 1, text.len() as int);
        lemma_lines_of_newline_free(tail);
        assert forall|i: int| 0 <= i < lines_of(text).len() implies newline_free(
            #[trigger] lines_of(text)[i],
        ) by {
            if i > 0 {
                assert(lines_of(text)[i] == lines_of(tail)[i - 1]);
            }
        }
    } else {
        assert(text.subrange(0, at) =~= text);
    }
}

/// Joining the lines of a text gives the text back.
pub proof fn lemma_join_lines_of(text: Seq<char>)
    ensures
        join_lines(lines_of(text)) == text,
    decreases text.len(),
{
    if text.len() > 0 {
        let front = text.drop_last();
        let c = text.last();
        assert(front.push(c) =~= text);
        lemma_lines_of_push(front, c);
        lemma_join_lines_of(front);
        let before = lines_of(front);
        let after = lines_of(text);
        if c == '\n' {
            assert(after.drop_last() =~= before);
        } else if before.len() > 1 {
            assert(after.drop_last() =~= before.drop_last());
        }
    }
}

/// Adding a newline-free text at the end lengthens the last line by it.
proof fn lemma_lines_of_append_free(text: Seq<char>, more: Seq<char>)
    requires
        newline_free(more),
    ensures
        lines_of(text + more) == lines_of(text).drop_last().push(lines_of(text).last() + more),
    decreases more.len(),
{
    let lines = lines_of(text);
    if more.len() > 0 {
        let front = more.drop_last();
        let c = more.last();
        lemma_lines_of_append_free(text, front);
        assert(text + more =~= (text + front).push(c));
        lemma_lines_of_push(text + front, c);
        assert(lines_of(text + front).last().push(c) =~= lines.last() + more);
    }
}

/// Lines without a newline in them, at least one, are the lines of the
/// text that joins them: no other lines join to that text.
pub proof fn lemma_lines_of_join(lines: Seq<Seq<char>>)
    requires
        lines.len() >= 1,
        forall|i: int| 0 <= i < lines.len() ==> newline_free(#[trigger] lines[i]),
    ensures
        lines_of(join_lines(lines)) == lines,
    decreases lines.len(),
{
    let last = lines.last();
    if lines.len() == 1 {
        lemma_first_newline_of_free(last);
    } else {
        let front = lines.drop_last();
        lemma_lines_of_join(front);
        let opened = join_lines(front).push('\n');
        lemma_lines_of_push(join_lines(front), '\n');
        lemma_lines_of_append_free(opened, last);
        assert(join_lines(lines) =~= opened + last);
    }
}

/// Splits `text` at its newlines. The pieces come in the order of the
/// text, without the newlines, and empty pieces are kept.
pub fn split_lines(text: &str) -> (lines: Vec<String>)
    ensures
        lines.deep_view() == lines_of(text@),
{
    let mut lines: Vec<String> = Vec::new();
    let mut current = String::new();
    proof {
        assert(text@.take(0) =~= Seq::<char>::empty());
    }
    for c in chars: text.chars()
        invariant
            chars.seq() == text@,
            lines.deep_view().push(current@) == lines_of(text@.take(chars.index())),
    {
        proof {
            let seen = text@.take(chars.index());
            assert(text@.take(chars.index() + 1) =~= seen.push(c));
            lemma_lines_of_push(seen, c);
        }
        if c == '\n' {
            lines.push(current);
            current = String::new();
        } else {
            current.push(c);
        }
    }
    proof {
        assert(text@.take(text@.len() as int) =~= text@);
    }
    lines.push(current);
    lines
}

} // verus!
