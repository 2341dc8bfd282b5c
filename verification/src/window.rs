//! Choosing the window of the frontmost application from the system's list
//! of on-screen windows, each described by the values the list records.

use vstd::prelude::*;

verus! {

/// What the window list records of one window.
#[derive(Debug, Clone, Copy, PartialEq, Eq, Structural)]
pub struct WindowEntry {
    /// The process that owns the window, where the entry names one that can
    /// be read.
    pub owner_pid: Option<i32>,
    /// The window's layer, where the entry records one (`Some(-1)` where it
    /// records one that cannot be read).
    pub layer: Option<i32>,
    /// Whether the entry holds bounds that can be read.
    pub has_bounds: bool,
}

/// Whether `w` is an ordinary window of the process `pid` with readable
/// bounds: owned by `pid`, on layer 0 (or with no layer recorded).
pub open spec fn is_candidate(w: WindowEntry, pid: i32) -> bool {
    &&& w.owner_pid == Some(pid)
    &&& (w.layer is None || w.layer == Some(0i32))
    &&& w.has_bounds
}

/// Only an ordinary window is a candidate: one of the process, on layer 0 or
/// with no layer recorded, with readable bounds; every such window is one.
pub proof fn lemma_candidates_are_ordinary_windows(w: WindowEntry, pid: i32)
    ensures
        is_candidate(w, pid) <==> (w.owner_pid == Some(pid) && (w.layer is None || w.layer == Some(
            0i32,
        )) && w.has_bounds),
        (w.layer matches Some(l) && l != 0) ==> !is_candidate(w, pid),
{
}

/// The window of `pid` to place the popup against: the first candidate in
/// the list (the list runs from front to back), or `None` where there is none.
pub fn pick_window(windows: &Vec<WindowEntry>, pid: i32) -> (r: Option<usize>)
    ensures
        match r {
            Some(i) => {
                &&& i < windows@.len()
                &&& windows@[i as int].owner_pid == Some(pid)
                &&& (windows@[i as int].layer is None || windows@[i as int].layer == Some(0i32))
                &&& windows@[i as int].has_bounds
            },
            None => true,
        },
        forall|j: int|
            0 <= j < windows@.len() && #[trigger] windows@[j].owner_pid == Some(pid)
                && windows@[j].layer is None && windows@[j].has_bounds ==> r is Some && r->0 <= j,
        forall|j: int|
            0 <= j < windows@.len() && #[trigger] windows@[j].owner_pid == Some(pid)
                && windows@[j].layer == Some(0i32) && windows@[j].has_bounds ==> r is Some && r->0
                <= j,
        match r {
            Some(i) => i < windows@.len() && is_candidate(windows@[i as int], pid) && forall|
                j: int,
            |
                0 <= j < i ==> !is_candidate(#[trigger] windows@[j], pid),
            None => forall|j: int|
                0 <= j < windows@.len() ==> !is_candidate(#[trigger] windows@[j], pid),
        },
{
    let n = windows.len();
    let mut i: usize = 0;
    while i < n
        invariant
            n == windows@.len(),
            i <= n,
            forall|j: int| 0 <= j < i ==> !is_candidate(#[trigger] windows@[j], pid),
        decreases n - i,
    {
        let w = windows[i];
        let ordinary = match w.layer {
            None => true,
            Some(layer) => layer == 0,
        };
        if w.owner_pid == Some(pid) && ordinary && w.has_bounds {
            return Some(i);
        }
        i = i + 1;
    }
    None
}

} // verus!
