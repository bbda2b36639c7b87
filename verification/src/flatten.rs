//! Turning releases into the lines of the export.
//!
//! Each release gives one block: a header line, then the lines of its
//! notes without the first and the last. The export is the blocks of all
//! releases, in the order in which the releases came.

use vstd::prelude::*;
use crate::lines::{lines_of, newline_count, split_lines, lemma_lines_of_count};
use crate::release::{Release, ReleaseView};

verus! {

/// The header of a release: name, comma, time of creation, comma, one
/// space, login of the author.
pub open spec fn header_text(release: ReleaseView) -> Seq<char> {
    release.name + seq![','] + release.created_at + seq![',', ' '] + release.author_login
}

/// The lines of `body` that reach the export: all but the first and the
/// last, and none where there are no more than two.
pub open spec fn kept_lines(body: Seq<char>) -> Seq<Seq<char>> {
    let lines = lines_of(body);
    if lines.len() > 2 {
        lines.subrange(1, lines.len() - 1)
    } else {
        Seq::empty()
    }
}

/// The lines one after another, each followed by a newline.
pub open spec fn terminated(lines: Seq<Seq<char>>) -> Seq<char>
    decreases lines.len(),
{
    if lines.len() == 0 {
        Seq::empty()
    } else {
        terminated(lines.drop_last()) + lines.last() + seq!['\n']
    }
}

/// The block of one release: its header line, then its kept lines.
pub open spec fn block_text(release: ReleaseView) -> Seq<char> {
    header_text(release) + seq!['\n'] + terminated(kept_lines(release.body))
}

/// The export of `releases`: their blocks, in their order.
pub open spec fn export_text(releases: Seq<ReleaseView>) -> Seq<char>
    decreases releases.len(),
{
    if releases.len() == 0 {
        Seq::empty()
    } else {
        export_text(releases.drop_last()) + block_text(releases.last())
    }
}

/// Of the lines of a body, as many are kept as there are beyond two, and
/// the kept ones are the unbroken stretch from the second line to the
/// last but one: the first line is passed over, and of what follows as
/// many lines are taken as there are kept.
pub proof fn lemma_kept_lines(body: Seq<char>)
    ensures
        lines_of(body).len() >= 1,
        kept_lines(body).len() == if lines_of(body).len() >= 2 {
            lines_of(body).len() - 2
        } else {
            0
        },
        kept_lines(body) == lines_of(body).skip(1).take(kept_lines(body).len() as int),
        forall|i: int|
            0 <= i < kept_lines(body).len() ==> #[trigger] kept_lines(body)[i] == lines_of(
                body,
            )[i + 1],
{
}

/// A body with no more than one newline has no more than two lines, and
/// none of it is kept, whatever it holds: the block of such a release is
/// its header line alone.
pub proof fn lemma_short_body_keeps_nothing(release: ReleaseView)
    requires
        newline_count(release.body) <= 1,
    ensures
        lines_of(release.body).len() <= 2,
        kept_lines(release.body) == Seq::<Seq<char>>::empty(),
        block_text(release) == header_text(release).push('\n'),
{
    lemma_lines_of_count(release.body);
}

/// The block of a release is made of whole lines: the header line and
/// the kept lines, each followed by its newline.
pub proof fn lemma_block_is_lines(release: ReleaseView)
    ensures
        block_text(release) == terminated(seq![header_text(release)] + kept_lines(release.body)),
{
    lemma_terminated_concat(seq![header_text(release)], kept_lines(release.body));
    assert(seq![header_text(release)].drop_last() =~= Seq::<Seq<char>>::empty());
    assert(terminated(Seq::<Seq<char>>::empty()) == Seq::<char>::empty());
}

/// Lines written one after another are written as their parts are.
pub proof fn lemma_terminated_concat(first: Seq<Seq<char>>, second: Seq<Seq<char>>)
    ensures
        terminated(first + second) == terminated(first) + terminated(second),
    decreases second.len(),
{
    if second.len() > 0 {
        lemma_terminated_concat(first, second.drop_last());
        assert((first + second).drop_last() =~= first + second.drop_last());
    }
}

/// No releases give an empty export.
pub proof fn lemma_export_text_empty()
    ensures
        export_text(Seq::<ReleaseView>::empty()) == Seq::<char>::empty(),
{
}

/// One release alone gives its block.
pub proof fn lemma_export_text_single(release: ReleaseView)
    ensures
        export_text(seq![release]) == block_text(release),
{
    assert(seq![release].drop_last() =~= Seq::<ReleaseView>::empty());
    assert(export_text(Seq::<ReleaseView>::empty()) == Seq::<char>::empty());
}

/// The export of releases that follow one another is the export of the
/// earlier ones followed by the export of the later ones.
pub proof fn lemma_export_text_concat(earlier: Seq<ReleaseView>, later: Seq<ReleaseView>)
    ensures
        export_text(earlier + later) == export_text(earlier) + export_text(later),
    decreases later.len(),
{
    if later.len() > 0 {
        lemma_export_text_concat(earlier, later.drop_last());
        assert((earlier + later).drop_last() =~= earlier + later.drop_last());
    }
}

/// Each release has its block whole and in its own place in the export:
/// behind the export of the releases in front of it, and in front of the
/// export of those behind it.
pub proof fn lemma_export_text_block_at(releases: Seq<ReleaseView>, at: int)
    requires
        0 <= at < releases.len(),
    ensures
        export_text(releases) == export_text(releases.take(at)) + block_text(releases[at])
            + export_text(releases.skip(at + 1)),
{
    let front = releases.take(at);
    let back = releases.skip(at + 1);
    assert(releases =~= front + seq![releases[at]] + back);
    lemma_export_text_concat(front + seq![releases[at]], back);
    lemma_export_text_concat(front, seq![releases[at]]);
    lemma_export_text_single(releases[at]);
}

/// The header line of `release`, without a newline at its end.
pub fn header_line(release: &Release) -> (line: String)
    ensures
        line@ == header_text(release@),
{
    let mut line = String::new();
    line.append(release.name.as_str());
    line.push(',');
    line.append(release.created_at.as_str());
    line.push(',');
    line.push(' ');
    line.append(release.author.login.as_str());
    line
}

/// The lines of `body` that reach the export, in their order.
pub fn body_lines(body: &str) -> (kept: Vec<String>)
    ensures
        kept.deep_view() == kept_lines(body@),
{
    let lines = split_lines(body);
    let mut kept: Vec<String> = Vec::new();
    if lines.len() <= 2 {
        return kept;
    }
    let end: usize = lines.len() - 1;
    let mut next: usize = 1;
    while next < end
        invariant
            1 <= next <= end,
            end == lines.len() - 1,
            kept.deep_view() == lines.deep_view().subrange(1, next as int),
        decreases end - next,
    {
        let ghost before = kept.deep_view();
        kept.push(lines[next].clone());
        next = next + 1;
        proof {
            assert(kept.deep_view() =~= before.push(kept@.last()@));
        }
    }
    kept
}

/// Appends the block of `release` to `out`.
pub fn push_release(out: &mut String, release: &Release)
    ensures
        final(out)@ == old(out)@ + block_text(release@),
{
    let header = header_line(release);
    out.append(header.as_str());
    out.push('\n');
    let kept = body_lines(release.body.as_str());
    let ghost start = out@;
    let mut next: usize = 0;
    while next < kept.len()
        invariant
            next <= kept.len(),
            out@ == start + terminated(kept.deep_view().take(next as int)),
        decreases kept.len() - next,
    {
        out.append(kept[next].as_str());
        out.push('\n');
        next = next + 1;
        proof {
            let lines = kept.deep_view();
            assert(lines.take(next as int).drop_last() =~= lines.take(next - 1));
        }
    }
    proof {
        let lines = kept.deep_view();
        assert(lines.take(next as int) =~= lines);
    }
}

/// The export of `releases` as one text: for each release in turn its
/// header line and its kept lines, each line followed by a newline.
pub fn flatten_releases(releases: &Vec<Release>) -> (text: String)
    ensures
        text@ == export_text(releases.deep_view()),
{
    let mut text = String::new();
    let mut next: usize = 0;
    while next < releases.len()
        invariant
            next <= releases.len(),
            text@ == export_text(releases.deep_view().take(next as int)),
        decreases releases.len() - next,
    {
        push_release(&mut text, &releases[next]);
        next = next + 1;
        proof {
            let all = releases.deep_view();
            assert(all.take(next as int).drop_last() =~= all.take(next - 1));
        }
    }
    proof {
        assert(releases.deep_view().take(next as int) =~= releases.deep_view());
    }
    text
}

} // verus!
