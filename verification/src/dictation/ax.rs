//! What the app reads back from other apps' Accessibility elements: the
//! caret as a character range, and what an unchanged caret means.

use vstd::prelude::*;

verus! {

/// A character range in a text element, as CoreFoundation's `CFRange`.
#[derive(Debug, Clone, Copy, PartialEq, Eq, Structural)]
pub struct CfRange {
    pub location: isize,
    pub length: isize,
}

/// Whether an edit demonstrably inserted nothing: the caret was read both
/// before and after, and did not move. An unreadable caret decides nothing.
pub fn caret_unchanged(before: Option<CfRange>, after: Option<CfRange>) -> (r: bool)
    ensures
        r == (before is Some && after is Some && before == after),
{
    match (before, after) {
        (Some(b), Some(a)) => b.location == a.location && b.length == a.length,
        _ => false,
    }
}

} // verus!
