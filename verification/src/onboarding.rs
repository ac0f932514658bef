//! First-run onboarding and the re-viewable Help & Controls: a short paged intro, touch-navigated
//! (tap right = next, tap left = back, left-edge swipe = skip).
use vstd::prelude::*;

verus! {

/// Welcome, Getting around, Buttons, Playing & Up Next, Gestures, Features, Done.
pub const PAGES: usize = 7;

/// The footer's hint on page `page`: the last page starts, the others go on; every page says how
/// to skip.
pub open spec fn hint_text(page: int) -> Seq<char> {
    if page + 1 >= PAGES {
        "TAP: START  \u{2022}  EDGE: SKIP"@
    } else {
        "TAP: NEXT  \u{2022}  LEFT: BACK  \u{2022}  EDGE: SKIP"@
    }
}

/// The footer's hint on page `page`.
pub fn footer_hint(page: usize) -> (s: &'static str)
    ensures
        s@ == hint_text(page as int),
{
    if page >= PAGES - 1 {
        "TAP: START  \u{2022}  EDGE: SKIP"
    } else {
        "TAP: NEXT  \u{2022}  LEFT: BACK  \u{2022}  EDGE: SKIP"
    }
}

} // verus!
