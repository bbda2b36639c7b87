//! Lines of input as the shell takes them: without the white space at
//! either end.

use vstd::prelude::*;
use crate::std_text::white_space;

verus! {

/// Whether every character of `text` is white space.
pub open spec fn all_white_space(text: Seq<char>) -> bool {
    forall|i: int| 0 <= i < text.len() ==> white_space(#[trigger] text[i])
}

/// `text` without the white space in front.
pub open spec fn trim_start(text: Seq<char>) -> Seq<char>
    decreases text.len(),
{
    if text.len() > 0 && white_space(text.first()) {
        trim_start(text.drop_first())
    } else {
        text
    }
}

/// `text` without the white space at the end.
pub open spec fn trim_end(text: Seq<char>) -> Seq<char>
    decreases text.len(),
{
    if text.len() > 0 && white_space(text.last()) {
        trim_end(text.drop_last())
    } else {
        text
    }
}

/// `text` without the white space at either end.
pub open spec fn trimmed(text: Seq<char>) -> Seq<char> {
    trim_end(trim_start(text))
}

/// What is left when the white space in front is gone begins with
/// another character, or is empty.
pub proof fn lemma_trim_start_first(text: Seq<char>)
    ensures
        trim_start(text).len() > 0 ==> !white_space(trim_start(text).first()),
        trim_start(text).len() == 0 <==> all_white_space(text),
    decreases text.len(),
{
    if text.len() > 0 && white_space(text.first()) {
        let rest = text.drop_first();
        lemma_trim_start_first(rest);
        if all_white_space(rest) {
            assert forall|i: int| 0 <= i < text.len() implies white_space(#[trigger] text[i]) by {
                if i > 0 {
                    assert(text[i] == rest[i - 1]);
                }
            }
        }
        if all_white_space(text) {
            assert forall|i: int| 0 <= i < rest.len() implies white_space(#[trigger] rest[i]) by {
                assert(rest[i] == text[i + 1]);
            }
        }
    }
}

/// How the text without its leading white space changes when one
/// character is added at the end.
proof fn lemma_trim_start_push(text: Seq<char>, c: char)
    ensures
        trim_start(text.push(c)) == if trim_start(text).len() > 0 {
            trim_start(text).push(c)
        } else if white_space(c) {
            Seq::empty()
        } else {
            seq![c]
        },
    decreases text.len(),
{
    let longer = text.push(c);
    if text.len() == 0 {
        assert(longer.drop_first() =~= Seq::<char>::empty());
        assert(trim_start(Seq::<char>::empty()) == Seq::<char>::empty());
    } else if white_space(text.first()) {
        let rest = text.drop_first();
        assert(longer.drop_first() =~= rest.push(c));
        lemma_trim_start_push(rest, c);
    }
}

/// White space behind a text that does not end in white space is all
/// that goes when the end is trimmed.
proof fn lemma_trim_end_of_padded(kept: Seq<char>, padding: Seq<char>)
    requires
        all_white_space(padding),
        kept.len() > 0 ==> !white_space(kept.last()),
    ensures
        trim_end(kept + padding) == kept,
    decreases padding.len(),
{
    if padding.len() > 0 {
        let front = padding.drop_last();
        assert(all_white_space(front)) by {
            assert forall|i: int| 0 <= i < front.len() implies white_space(#[trigger] front[i]) by {
                assert(front[i] == padding[i]);
            }
        }
        assert((kept + padding).drop_last() =~= kept + front);
        lemma_trim_end_of_padded(kept, front);
    }
}

/// What is left when the white space at the end is gone is the front
/// part of the text, and ends with another character or is empty.
pub proof fn lemma_trim_end(text: Seq<char>)
    ensures
        trim_end(text).len() <= text.len(),
        trim_end(text) == text.take(trim_end(text).len() as int),
        trim_end(text).len() > 0 ==> !white_space(trim_end(text).last()),
    decreases text.len(),
{
    if text.len() > 0 && white_space(text.last()) {
        lemma_trim_end(text.drop_last());
    }
}

/// A trimmed text neither begins nor ends with white space, and
/// trimming it again changes nothing.
pub proof fn lemma_trimmed(text: Seq<char>)
    ensures
        trimmed(text).len() > 0 ==> !white_space(trimmed(text).first()) && !white_space(
            trimmed(text).last(),
        ),
        trimmed(trimmed(text)) == trimmed(text),
{
    lemma_trim_start_first(text);
    lemma_trim_end(trim_start(text));
}

/// `raw` without the white space at either end.
pub fn trim_line(raw: &str) -> (line: String)
    ensures
        line@ == trimmed(raw@),
{
    let mut line = String::new();
    let mut padding = String::new();
    let mut started = false;
    for c in chars: raw.chars()
        invariant
            chars.seq() == raw@,
            line@ + padding@ == trim_start(raw@.take(chars.index())),
            all_white_space(padding@),
            started <==> line@.len() > 0,
            started ==> !white_space(line@.last()),
            !started ==> padding@.len() == 0,
    {
        proof {
            let seen = raw@.take(chars.index());
            assert(raw@.take(chars.index() + 1) =~= seen.push(c));
            lemma_trim_start_push(seen, c);
        }
        if c.is_whitespace() {
            if started {
                padding.push(c);
            }
        } else {
            line.append(padding.as_str());
            line.push(c);
            padding = String::new();
            started = true;
        }
    }
    proof {
        assert(raw@.take(raw@.len() as int) =~= raw@);
        lemma_trim_end_of_padded(line@, padding@);
    }
    line
}

} // verus!
