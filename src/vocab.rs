use vstd::prelude::*;

verus! {

/// The pair of display tokens used for reachable and unreachable targets.
pub struct ValMap<'a> {
    pub up: &'a str,
    pub down: &'a str,
}

/// The token shown for a reachable target.
pub open spec fn up_token_of(symbolic: bool) -> Seq<char> {
    if symbolic {
        "\u{f062}"@
    } else {
        "Up"@
    }
}

/// The token shown for an unreachable target.
pub open spec fn down_token_of(symbolic: bool) -> Seq<char> {
    if symbolic {
        "\u{f98d}"@
    } else {
        "Down"@
    }
}

/// Picks the glyph pair when `symbolic` is set and the plain words otherwise.
pub fn make_value_map<'a>(symbolic: bool) -> (r: ValMap<'a>)
    ensures
        r.up@ == up_token_of(symbolic),
        r.down@ == down_token_of(symbolic),
{
    if symbolic {
        ValMap { up: "\u{f062}", down: "\u{f98d}" }
    } else {
        ValMap { up: "Up", down: "Down" }
    }
}

} // verus!
