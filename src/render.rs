use crate::probe::{ProbeOutcome, ProbeStatus};
use crate::text::{decimal, join, lemma_join_push, push_decimal};
use crate::vocab::ValMap;
use vstd::prelude::*;

verus! {

/// How the outcomes are folded into text.
#[derive(Clone, Copy, Debug, PartialEq, Eq, Structural)]
pub enum RenderMode {
    /// One `<url>: <token>` entry per target, in input order.
    Verbose,
    /// The number of reachable targets and the list of unreachable ones.
    Compact,
}

/// The token that stands for a status.
pub open spec fn token(s: ProbeStatus, up: Seq<char>, down: Seq<char>) -> Seq<char> {
    match s {
        ProbeStatus::Up => up,
        ProbeStatus::Down(_) => down,
    }
}

/// The verbose entry of one outcome.
pub open spec fn entry(o: ProbeOutcome, up: Seq<char>, down: Seq<char>) -> Seq<char> {
    o.url@ + ": "@ + token(o.status, up, down)
}

/// The verbose entries of all outcomes, in order.
pub open spec fn entries(os: Seq<ProbeOutcome>, up: Seq<char>, down: Seq<char>) -> Seq<Seq<char>> {
    os.map_values(|o: ProbeOutcome| entry(o, up, down))
}

/// The verbose line: every entry, joined by `", "`.
pub open spec fn verbose_line(os: Seq<ProbeOutcome>, up: Seq<char>, down: Seq<char>) -> Seq<char> {
    join(entries(os, up, down), ", "@)
}

/// How many of the outcomes are up.
pub open spec fn up_count(os: Seq<ProbeOutcome>) -> nat
    decreases os.len(),
{
    if os.len() == 0 {
        0
    } else {
        up_count(os.drop_last()) + if os.last().status is Up {
            1nat
        } else {
            0nat
        }
    }
}

/// The URLs of the outcomes that are down, in order.
pub open spec fn down_urls(os: Seq<ProbeOutcome>) -> Seq<Seq<char>>
    decreases os.len(),
{
    if os.len() == 0 {
        Seq::empty()
    } else if os.last().status is Up {
        down_urls(os.drop_last())
    } else {
        down_urls(os.drop_last()).push(os.last().url@)
    }
}

/// `"<url>: <reason>"` for each outcome that is down, in order.
pub open spec fn down_notes(os: Seq<ProbeOutcome>) -> Seq<Seq<char>>
    decreases os.len(),
{
    if os.len() == 0 {
        Seq::empty()
    } else {
        match os.last().status {
            ProbeStatus::Up => down_notes(os.drop_last()),
            ProbeStatus::Down(d) => down_notes(os.drop_last()).push(os.last().url@ + ": "@ + d@),
        }
    }
}

/// The down field of the compact line: `"0"` when nothing is down, else the
/// down URLs joined by `", "`.
pub open spec fn down_summary(os: Seq<ProbeOutcome>) -> Seq<char> {
    if down_urls(os).len() == 0 {
        "0"@
    } else {
        join(down_urls(os), ", "@)
    }
}

/// The compact line: `"<up>: <up count>, <down>: <down summary>"`.
pub open spec fn compact_line(os: Seq<ProbeOutcome>, up: Seq<char>, down: Seq<char>) -> Seq<char> {
    up + ": "@ + decimal(up_count(os)) + ", "@ + down + ": "@ + down_summary(os)
}

/// The rendered line in the given mode.
pub open spec fn rendered(os: Seq<ProbeOutcome>, up: Seq<char>, down: Seq<char>, mode: RenderMode) -> Seq<char> {
    match mode {
        RenderMode::Verbose => verbose_line(os, up, down),
        RenderMode::Compact => compact_line(os, up, down),
    }
}

/// The diagnostic notes of the targets that are down, joined by `", "`.
pub open spec fn diagnostics(os: Seq<ProbeOutcome>) -> Seq<char> {
    join(down_notes(os), ", "@)
}

/// Lists every target with its token, in input order.
pub fn render_verbose(outcomes: &Vec<ProbeOutcome>, vocab: &ValMap) -> (r: String)
    ensures
        r@ == verbose_line(outcomes@, vocab.up@, vocab.down@),
{
    let ghost up = vocab.up@;
    let ghost down = vocab.down@;
    let mut out = String::new();
    let mut i: usize = 0;
    while i < outcomes.len()
        invariant
            i <= outcomes.len(),
            out@ == verbose_line(outcomes@.take(i as int), up, down),
            up == vocab.up@,
            down == vocab.down@,
        decreases outcomes.len() - i,
    {
        let o = &outcomes[i];
        proof {
            let before = entries(outcomes@.take(i as int), up, down);
            assert(entries(outcomes@.take(i + 1), up, down) =~= before.push(entry(*o, up, down)));
            lemma_join_push(before, ", "@, entry(*o, up, down));
        }
        if i > 0 {
            out.append(", ");
        }
        out.append(o.url.as_str());
        out.append(": ");
        match o.status {
            ProbeStatus::Up => out.append(vocab.up),
            ProbeStatus::Down(_) => out.append(vocab.down),
        }
        assert(out@ =~= verbose_line(outcomes@.take(i + 1), up, down));
        i += 1;
    }
    assert(outcomes@.take(outcomes.len() as int) =~= outcomes@);
    out
}

/// Counts the targets that are up and lists those that are down. The reasons
/// of the failures are left out, so that the line stays a single line; they
/// come from `render_diagnostics`, for a separate stream.
pub fn render_compact(outcomes: &Vec<ProbeOutcome>, vocab: &ValMap) -> (r: String)
    ensures
        r@ == compact_line(outcomes@, vocab.up@, vocab.down@),
{
    let mut ups: usize = 0;
    let mut downs = String::new();
    let mut n_down: usize = 0;
    let mut i: usize = 0;
    while i < outcomes.len()
        invariant
            i <= outcomes.len(),
            ups <= i,
            n_down <= i,
            ups == up_count(outcomes@.take(i as int)),
            n_down == down_urls(outcomes@.take(i as int)).len(),
            downs@ == join(down_urls(outcomes@.take(i as int)), ", "@),
        decreases outcomes.len() - i,
    {
        let o = &outcomes[i];
        let ghost before = outcomes@.take(i as int);
        assert(outcomes@.take(i + 1).drop_last() =~= before);
        match o.status {
            ProbeStatus::Up => {
                ups += 1;
            },
            ProbeStatus::Down(_) => {
                proof {
                    lemma_join_push(down_urls(before), ", "@, o.url@);
                }
                if n_down > 0 {
                    downs.append(", ");
                }
                downs.append(o.url.as_str());
                n_down += 1;
            },
        }
        i += 1;
    }
    assert(outcomes@.take(outcomes.len() as int) =~= outcomes@);
    let mut out = String::from_str(vocab.up);
    out.append(": ");
    push_decimal(&mut out, ups);
    out.append(", ");
    out.append(vocab.down);
    out.append(": ");
    if n_down == 0 {
        out.append("0");
    } else {
        out.append(downs.as_str());
    }
    assert(out@ =~= compact_line(outcomes@, vocab.up@, vocab.down@));
    out
}

/// Renders the outcomes as one line in the chosen mode and vocabulary.
pub fn render(outcomes: &Vec<ProbeOutcome>, vocab: &ValMap, mode: RenderMode) -> (r: String)
    ensures
        r@ == rendered(outcomes@, vocab.up@, vocab.down@, mode),
{
    match mode {
        RenderMode::Verbose => render_verbose(outcomes, vocab),
        RenderMode::Compact => render_compact(outcomes, vocab),
    }
}

/// The reasons of the failed probes, as `"<url>: <reason>"` joined by `", "`;
/// empty when every target is up. This text belongs on a stream apart from
/// the rendered line.
pub fn render_diagnostics(outcomes: &Vec<ProbeOutcome>) -> (r: String)
    ensures
        r@ == diagnostics(outcomes@),
{
    let mut out = String::new();
    let mut n: usize = 0;
    let mut i: usize = 0;
    while i < outcomes.len()
        invariant
            i <= outcomes.len(),
            n <= i,
            n == down_notes(outcomes@.take(i as int)).len(),
            out@ == join(down_notes(outcomes@.take(i as int)), ", "@),
        decreases outcomes.len() - i,
    {
        let o = &outcomes[i];
        let ghost before = outcomes@.take(i as int);
        assert(outcomes@.take(i + 1).drop_last() =~= before);
        match &o.status {
            ProbeStatus::Up => {},
            ProbeStatus::Down(d) => {
                proof {
                    lemma_join_push(down_notes(before), ", "@, o.url@ + ": "@ + d@);
                }
                if n > 0 {
                    out.append(", ");
                }
                out.append(o.url.as_str());
                out.append(": ");
                out.append(d.as_str());
                n += 1;
            },
        }
        i += 1;
    }
    assert(outcomes@.take(outcomes.len() as int) =~= outcomes@);
    out
}

} // verus!
