//! The profiles that ship with the app.

use vstd::prelude::*;
use crate::text::str_eq;

verus! {

/// The shipped profiles, in the order the sidebar lists them.
pub const SHIPPED_IDS: [&'static str; 16] = [
    "default",
    "league-of-legends",
    "dota-2",
    "world-of-warcraft",
    "final-fantasy-xiv",
    "path-of-exile",
    "overwatch-2",
    "valorant",
    "counter-strike-2",
    "apex-legends",
    "fortnite",
    "diablo-4",
    "elden-ring",
    "guild-wars-2",
    "elder-scrolls-online",
    "minecraft",
];

/// The shipped ids as text.
pub open spec fn shipped_ids() -> Seq<Seq<char>> {
    SHIPPED_IDS@.map_values(|s: &str| s@)
}

/// Whether an id names a profile from the shipped pack. Shipped profiles
/// can be reverted but never deleted; custom ones are the reverse.
pub fn is_shipped(id: &str) -> (r: bool)
    ensures r == shipped_ids().contains(id@),
{
    let mut i: usize = 0;
    while i < 16
        invariant
            i <= 16,
            forall|j: int| 0 <= j < i ==> shipped_ids()[j] != id@,
        decreases 16 - i,
    {
        if str_eq(SHIPPED_IDS[i], id) {
            assert(shipped_ids()[i as int] == id@);
            return true;
        }
        i += 1;
    }
    false
}

} // verus!
