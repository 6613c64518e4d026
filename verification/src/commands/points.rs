//! Requests about points.

use vstd::prelude::*;

verus! {

#[derive(Debug, Clone)]
pub struct UpdatePointMatchNoteInput {
    pub match_id: String,
    pub note: Option<String>,
}

#[derive(Debug, Clone)]
pub struct SettlePointMatchesInput {
    pub end_match_id: String,
}

/// The page size and start of the point records list: 100 and 0 unless given.
pub fn points_page(limit: Option<i64>, offset: Option<i64>) -> (res: (i64, i64))
    ensures
        res.0 == match limit {
            Some(l) => l,
            None => 100,
        },
        res.1 == match offset {
            Some(o) => o,
            None => 0,
        },
{
    let l = match limit {
        Some(l) => l,
        None => 100,
    };
    let o = match offset {
        Some(o) => o,
        None => 0,
    };
    (l, o)
}

/// The page size and start of the history list: 50 and 0 unless given.
pub fn history_page(limit: Option<i64>, offset: Option<i64>) -> (res: (i64, i64))
    ensures
        res.0 == match limit {
            Some(l) => l,
            None => 50,
        },
        res.1 == match offset {
            Some(o) => o,
            None => 0,
        },
{
    let l = match limit {
        Some(l) => l,
        None => 50,
    };
    let o = match offset {
        Some(o) => o,
        None => 0,
    };
    (l, o)
}

} // verus!
