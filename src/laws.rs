use crate::probe::{ProbeOutcome, ProbeStatus};
use crate::render::{
    compact_line, down_summary, down_urls, entries, entry, rendered, token, up_count,
    verbose_line, RenderMode,
};
use crate::text::{
    decimal, join, lemma_decimal_no_newline, lemma_join_no_newline, lemma_no_newline_concat,
    no_newline,
};
use vstd::prelude::*;

verus! {

/// No target URL holds a line break.
pub open spec fn urls_single_line(os: Seq<ProbeOutcome>) -> bool {
    forall|i: int| 0 <= i < os.len() ==> no_newline(#[trigger] os[i].url@)
}

proof fn lemma_separators_single_line()
    ensures
        no_newline(", "@),
        no_newline(": "@),
        no_newline("0"@),
{
    reveal_strlit(", ");
    reveal_strlit(": ");
    reveal_strlit("0");
}

proof fn lemma_down_urls_single_line(os: Seq<ProbeOutcome>)
    requires
        urls_single_line(os),
    ensures
        forall|j: int| 0 <= j < down_urls(os).len() ==> no_newline(#[trigger] down_urls(os)[j]),
    decreases os.len(),
{
    if os.len() > 0 {
        let init = os.drop_last();
        assert forall|i: int| 0 <= i < init.len() implies no_newline(#[trigger] init[i].url@) by {
            assert(init[i] == os[i]);
        }
        lemma_down_urls_single_line(init);
        assert(no_newline(os[os.len() - 1].url@));
        let d = down_urls(init);
        if !(os.last().status is Up) {
            assert forall|j: int| 0 <= j < d.len() implies #[trigger] d.push(os.last().url@)[j]
                == d[j] by {}
        }
    }
}

/// Every outcome is counted once: as up, or among the down URLs.
pub proof fn lemma_counts_partition(os: Seq<ProbeOutcome>)
    ensures
        up_count(os) + down_urls(os).len() == os.len(),
    decreases os.len(),
{
    if os.len() > 0 {
        lemma_counts_partition(os.drop_last());
    }
}

/// When no target URL and neither token holds a line break, the rendered
/// output is a single line, in either layout.
pub proof fn lemma_rendered_single_line(
    os: Seq<ProbeOutcome>,
    up: Seq<char>,
    down: Seq<char>,
    mode: RenderMode,
)
    requires
        urls_single_line(os),
        no_newline(up),
        no_newline(down),
    ensures
        no_newline(rendered(os, up, down, mode)),
{
    lemma_separators_single_line();
    match mode {
        RenderMode::Verbose => {
            let es = entries(os, up, down);
            assert forall|i: int| 0 <= i < es.len() implies no_newline(#[trigger] es[i]) by {
                assert(es[i] == entry(os[i], up, down));
                assert(no_newline(os[i].url@));
                lemma_no_newline_concat(os[i].url@, ": "@);
                lemma_no_newline_concat(os[i].url@ + ": "@, token(os[i].status, up, down));
            }
            lemma_join_no_newline(es, ", "@);
        },
        RenderMode::Compact => {
            lemma_down_urls_single_line(os);
            lemma_join_no_newline(down_urls(os), ", "@);
            lemma_decimal_no_newline(up_count(os));
            let a = up + ": "@;
            lemma_no_newline_concat(up, ": "@);
            lemma_no_newline_concat(a, decimal(up_count(os)));
            let b = a + decimal(up_count(os));
            lemma_no_newline_concat(b, ", "@);
            lemma_no_newline_concat(b + ", "@, down);
            lemma_no_newline_concat(b + ", "@ + down, ": "@);
            lemma_no_newline_concat(b + ", "@ + down + ": "@, down_summary(os));
        },
    }
}

/// When every target is up, the compact line counts them all and its down
/// field is the literal `"0"`.
pub proof fn lemma_all_up_compact(os: Seq<ProbeOutcome>, up: Seq<char>, down: Seq<char>)
    requires
        forall|i: int| 0 <= i < os.len() ==> (#[trigger] os[i]).status is Up,
    ensures
        down_urls(os).len() == 0,
        down_summary(os) == "0"@,
        compact_line(os, up, down) == up + ": "@ + decimal(os.len()) + ", "@ + down + ": "@ + "0"@,
    decreases os.len(),
{
    if os.len() > 0 {
        let init = os.drop_last();
        assert forall|i: int| 0 <= i < init.len() implies (#[trigger] init[i]).status is Up by {
            assert(init[i] == os[i]);
        }
        lemma_all_up_compact(init, up, down);
        assert(os[os.len() - 1].status is Up);
    }
    lemma_counts_partition(os);
}

/// A piece of a rendered line: fixed text, or the place of a token.
pub enum Piece {
    Text(Seq<char>),
    UpToken,
    DownToken,
}

/// The text of a piece under a vocabulary.
pub open spec fn piece_text(p: Piece, up: Seq<char>, down: Seq<char>) -> Seq<char> {
    match p {
        Piece::Text(t) => t,
        Piece::UpToken => up,
        Piece::DownToken => down,
    }
}

/// The pieces laid end to end under a vocabulary.
pub open spec fn fill(t: Seq<Piece>, up: Seq<char>, down: Seq<char>) -> Seq<char>
    decreases t.len(),
{
    if t.len() == 0 {
        Seq::empty()
    } else {
        fill(t.drop_last(), up, down) + piece_text(t.last(), up, down)
    }
}

/// The token place that stands for a status.
pub open spec fn status_piece(s: ProbeStatus) -> Piece {
    match s {
        ProbeStatus::Up => Piece::UpToken,
        ProbeStatus::Down(_) => Piece::DownToken,
    }
}

/// The verbose layout with the tokens left open.
pub open spec fn verbose_template(os: Seq<ProbeOutcome>) -> Seq<Piece>
    decreases os.len(),
{
    if os.len() == 0 {
        Seq::empty()
    } else {
        let lead = if os.len() == 1 {
            os.last().url@ + ": "@
        } else {
            ", "@ + os.last().url@ + ": "@
        };
        verbose_template(os.drop_last()).push(Piece::Text(lead)).push(status_piece(os.last().status))
    }
}

/// The compact layout with the tokens left open.
pub open spec fn compact_template(os: Seq<ProbeOutcome>) -> Seq<Piece> {
    seq![
        Piece::UpToken,
        Piece::Text(": "@ + decimal(up_count(os)) + ", "@),
        Piece::DownToken,
        Piece::Text(": "@ + down_summary(os)),
    ]
}

/// The layout of the given mode with the tokens left open.
pub open spec fn template(os: Seq<ProbeOutcome>, mode: RenderMode) -> Seq<Piece> {
    match mode {
        RenderMode::Verbose => verbose_template(os),
        RenderMode::Compact => compact_template(os),
    }
}

proof fn lemma_fill_push(t: Seq<Piece>, p: Piece, up: Seq<char>, down: Seq<char>)
    ensures
        fill(t.push(p), up, down) == fill(t, up, down) + piece_text(p, up, down),
{
    assert(t.push(p).drop_last() =~= t);
}

proof fn lemma_verbose_template(os: Seq<ProbeOutcome>, up: Seq<char>, down: Seq<char>)
    ensures
        fill(verbose_template(os), up, down) == verbose_line(os, up, down),
    decreases os.len(),
{
    if os.len() > 0 {
        let init = os.drop_last();
        let o = os.last();
        lemma_verbose_template(init, up, down);
        let lead = if os.len() == 1 {
            o.url@ + ": "@
        } else {
            ", "@ + o.url@ + ": "@
        };
        let t = verbose_template(init).push(Piece::Text(lead));
        lemma_fill_push(verbose_template(init), Piece::Text(lead), up, down);
        lemma_fill_push(t, status_piece(o.status), up, down);
        assert(entries(os, up, down).drop_last() =~= entries(init, up, down));
        assert(entries(os, up, down).last() == entry(o, up, down));
        if os.len() == 1 {
            assert(verbose_template(init) =~= Seq::<Piece>::empty());
        }
        assert(fill(verbose_template(os), up, down) =~= verbose_line(os, up, down));
    }
}

/// The rendered line is a layout fixed by the outcomes and the mode alone,
/// with the vocabulary's two tokens filled in: a change of vocabulary changes
/// the tokens and leaves counts, URLs and their order as they were.
pub proof fn lemma_vocabulary_fills_template(
    os: Seq<ProbeOutcome>,
    up: Seq<char>,
    down: Seq<char>,
    mode: RenderMode,
)
    ensures
        rendered(os, up, down, mode) == fill(template(os, mode), up, down),
{
    match mode {
        RenderMode::Verbose => lemma_verbose_template(os, up, down),
        RenderMode::Compact => {
            let t = compact_template(os);
            assert(t =~= seq![Piece::UpToken].push(t[1]).push(Piece::DownToken).push(t[3]));
            lemma_fill_push(Seq::empty(), Piece::UpToken, up, down);
            lemma_fill_push(seq![Piece::UpToken], t[1], up, down);
            lemma_fill_push(seq![Piece::UpToken].push(t[1]), Piece::DownToken, up, down);
            lemma_fill_push(seq![Piece::UpToken].push(t[1]).push(Piece::DownToken), t[3], up, down);
            assert(seq![Piece::UpToken] =~= Seq::<Piece>::empty().push(Piece::UpToken));
            assert(fill(t, up, down) =~= compact_line(os, up, down));
        },
    }
}

} // verus!
