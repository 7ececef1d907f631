use crate::normalize::{normalized, parse_url};
use crate::probe::ProbeOutcome;
use crate::render::{render, rendered, RenderMode};
use crate::vocab::{down_token_of, make_value_map, up_token_of};
use vstd::prelude::*;

verus! {

/// A run that cannot start.
#[derive(Clone, Copy, Debug, PartialEq, Eq, Structural)]
pub enum ConfigError {
    /// No target was given.
    NoUrls,
}

impl ConfigError {
    /// The text shown to the user.
    pub fn message(&self) -> (r: &'static str)
        ensures
            r@ == "Please pass in valid urls you would like to monitor"@,
    {
        "Please pass in valid urls you would like to monitor"
    }
}

/// The URLs to probe, one per target and in the same order; an error when
/// there is no target at all, in which case nothing is to be probed or
/// rendered.
pub fn targets(urls: &Vec<String>) -> (r: Result<Vec<String>, ConfigError>)
    ensures
        r is Err <==> urls@.len() == 0,
        r is Err ==> r == Err::<Vec<String>, ConfigError>(ConfigError::NoUrls),
        r matches Ok(v) ==> v@.len() == urls@.len() && forall|i: int|
            0 <= i < urls@.len() ==> (#[trigger] v@[i])@ == normalized(urls@[i]@),
{
    if urls.len() == 0 {
        return Err(ConfigError::NoUrls);
    }
    let mut out: Vec<String> = Vec::new();
    let mut i: usize = 0;
    while i < urls.len()
        invariant
            i <= urls.len(),
            out@.len() == i,
            forall|j: int| 0 <= j < i ==> (#[trigger] out@[j])@ == normalized(urls@[j]@),
        decreases urls.len() - i,
    {
        out.push(parse_url(&urls[i]));
        i += 1;
    }
    Ok(out)
}

/// Compact layout when `compact` is set, verbose otherwise.
pub fn mode_of(compact: bool) -> (r: RenderMode)
    ensures
        r == (if compact {
            RenderMode::Compact
        } else {
            RenderMode::Verbose
        }),
{
    if compact {
        RenderMode::Compact
    } else {
        RenderMode::Verbose
    }
}

/// The line printed for a run: the outcomes rendered with the vocabulary and
/// layout that the two flags select.
pub fn status_line(outcomes: &Vec<ProbeOutcome>, compact: bool, symbolic: bool) -> (r: String)
    ensures
        r@ == rendered(outcomes@, up_token_of(symbolic), down_token_of(symbolic), if compact {
            RenderMode::Compact
        } else {
            RenderMode::Verbose
        }),
{
    let vocab = make_value_map(symbolic);
    render(outcomes, &vocab, mode_of(compact))
}

} // verus!
