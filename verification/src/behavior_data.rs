//! Defaults of the behavior fields of scene files that are not numbers with
//! fractions.
use vstd::prelude::*;

verus! {

/// Score value of a collectible when the scene file gives none.
pub fn default_score() -> (r: u32)
    ensures
        r == 10,
{
    10
}

/// Tag identifying the player when the scene file gives none.
pub fn default_player_tag() -> (r: String)
    ensures
        r@ == "player"@,
{
    "player".to_string()
}

/// Default for flags that are on unless the scene file says otherwise.
pub fn default_true() -> (r: bool)
    ensures
        r,
{
    true
}

} // verus!
