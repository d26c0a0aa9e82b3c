//! Resolution of an abstract target specification to a concrete window.
//!
//! An explicit handle is returned unchanged and a title lookup is a single
//! operating-system query, both done by the shell; what the library decides
//! is the owning-process search: which window of an enumeration qualifies.

use vstd::prelude::*;

use crate::geometry::Bounds;

verus! {

/// The window the overlay is asked to follow.
pub enum OverlayTarget {
    /// An explicit window handle; the caller guarantees it is live.
    Window(isize),
    /// The exact title of a top-level window.
    WindowTitle(String),
    /// The identifier of the process whose first suitable top-level window
    /// is taken.
    WindowOfProcess(u32),
}

/// One top-level window as enumeration reports it: its handle, the owner
/// query's outcome (`None` when ownership could not be resolved), and the
/// bounds query's outcome (`None` when that query failed).
#[derive(Clone, Copy, Debug, PartialEq, Eq, Structural)]
pub struct EnumeratedWindow {
    pub handle: isize,
    pub process_id: Option<u32>,
    pub bounds: Option<Bounds>,
}

/// Hard cap on enumeration steps, a guard against enumeration anomalies:
/// past this many windows the search gives up and reports nothing found.
pub const MAX_ENUM_STEPS: usize = 1000000;

/// A window qualifies for an owning-process target when its owner resolved
/// to that process and its bounds resolved to a rectangle that is not zero
/// on all four edges (all-zero bounds mark a window not meant to be shown).
pub open spec fn qualifies(process_id: u32, w: EnumeratedWindow) -> bool {
    &&& w.process_id == Some(process_id)
    &&& w.bounds matches Some(b) && !b.is_zero()
}

/// The handle the owning-process search selects from an enumeration, walked
/// in order: the first qualifying window's handle, `0` when none qualifies
/// or when a null handle ends the enumeration early.
pub open spec fn resolve_spec(process_id: u32, ws: Seq<EnumeratedWindow>) -> isize
    decreases ws.len(),
{
    if ws.len() == 0 {
        0
    } else if ws[0].handle == 0 {
        0
    } else if qualifies(process_id, ws[0]) {
        ws[0].handle
    } else {
        resolve_spec(process_id, ws.drop_first())
    }
}

/// The prefix of the enumeration the search is allowed to look at.
pub open spec fn capped(ws: Seq<EnumeratedWindow>) -> Seq<EnumeratedWindow> {
    if ws.len() <= MAX_ENUM_STEPS {
        ws
    } else {
        ws.take(MAX_ENUM_STEPS as int)
    }
}

/// Walks the enumerated windows in order and returns the handle of the
/// first one that qualifies for `process_id`; returns `0` when none does
/// within the enumeration cap, or when a null handle ends the walk.
pub fn resolve_process_window(process_id: u32, windows: &Vec<EnumeratedWindow>) -> (r: isize)
    ensures
        r == resolve_spec(process_id, capped(windows@)),
{
    let ghost ws = capped(windows@);
    proof {
        assert(ws.skip(0) =~= ws);
    }
    let mut i: usize = 0;
    while i < windows.len() && i < MAX_ENUM_STEPS
        invariant
            0 <= i <= ws.len(),
            ws == capped(windows@),
            resolve_spec(process_id, ws) == resolve_spec(process_id, ws.skip(i as int)),
        decreases ws.len() - i,
    {
        let w = &windows[i];
        proof {
            assert(ws.skip(i as int)[0] == ws[i as int]);
            assert(ws[i as int] == windows@[i as int]);
        }
        if w.handle == 0 {
            return 0;
        }
        let owner_matches = match w.process_id {
            Some(p) => p == process_id,
            None => false,
        };
        let visible = match &w.bounds {
            Some(b) => !(b.left == 0 && b.top == 0 && b.right == 0 && b.bottom == 0),
            None => false,
        };
        if owner_matches && visible {
            proof {
                assert(qualifies(process_id, ws[i as int]));
            }
            return w.handle;
        }
        proof {
            assert(!qualifies(process_id, ws[i as int]));
            assert(ws.skip(i as int).drop_first() =~= ws.skip(i as int + 1));
        }
        i = i + 1;
    }
    proof {
        assert(ws.skip(i as int).len() == 0);
    }
    0
}

/// When no enumerated window qualifies, the search reports nothing found.
pub proof fn lemma_resolve_no_match(process_id: u32, ws: Seq<EnumeratedWindow>)
    requires
        forall|i: int| 0 <= i < ws.len() ==> !qualifies(process_id, ws[i]),
    ensures
        resolve_spec(process_id, ws) == 0,
    decreases ws.len(),
{
    if ws.len() != 0 && ws[0].handle != 0 {
        lemma_resolve_no_match(process_id, ws.drop_first());
    }
}

/// The search skips every window of another process and every window with
/// all-zero bounds: when `ws[k]` is the first qualifying window and no null
/// handle cuts the walk before it, its handle is selected.
pub proof fn lemma_resolve_first_match(process_id: u32, ws: Seq<EnumeratedWindow>, k: int)
    requires
        0 <= k < ws.len(),
        qualifies(process_id, ws[k]),
        forall|j: int| 0 <= j < k ==> !qualifies(process_id, ws[j]),
        forall|j: int| 0 <= j <= k ==> ws[j].handle != 0,
    ensures
        resolve_spec(process_id, ws) == ws[k].handle,
    decreases k,
{
    if k > 0 {
        lemma_resolve_first_match(process_id, ws.drop_first(), k - 1);
    }
}

} // verus!
