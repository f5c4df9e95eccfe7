use vstd::prelude::*;

verus! {

/// Terminal coordinates: `x` is the column, `y` the row, both zero-based.
#[derive(Clone, Copy, Debug, PartialEq, Eq, Structural)]
pub struct Vec2 {
    pub x: u32,
    pub y: u32,
}

/// The dimensions handed out when the terminal size cannot be queried:
/// a degraded but well-defined `1 x 1` screen.
pub open spec fn fallback_size() -> Vec2 {
    Vec2 { x: 1, y: 1 }
}

/// The current terminal dimensions, given the outcome of a size query.
///
/// A failed query (`None`) yields the `1 x 1` fallback instead of an error,
/// so layout code always has a usable value.
pub fn window_size(queried: Option<Vec2>) -> (r: Vec2)
    ensures
        queried matches Some(s) ==> r == s,
        queried is None ==> r == fallback_size(),
{
    match queried {
        Some(s) => s,
        None => Vec2 { x: 1, y: 1 },
    }
}

} // verus!
