//! Finding the application's own top-level window among those the OS
//! enumerates.

use vstd::prelude::*;

verus! {

/// Opaque reference to a top-level window: the value the OS uses for it.
/// It is resolved anew for every operation and never kept.
#[derive(Clone, Copy, Debug, PartialEq, Eq, Structural)]
pub struct WindowHandle {
    pub raw: isize,
}

/// One window as the enumeration reports it: its handle and the identifier of
/// the process that owns it.
#[derive(Clone, Copy, Debug, PartialEq, Eq, Structural)]
pub struct WindowEntry {
    pub window: WindowHandle,
    pub owner_pid: u32,
}

/// The first window of `windows` that process `pid` owns, if there is one.
pub open spec fn first_owned_by(windows: Seq<WindowEntry>, pid: u32) -> Option<WindowHandle>
    decreases windows.len(),
{
    if windows.len() == 0 {
        None
    } else if windows[0].owner_pid == pid {
        Some(windows[0].window)
    } else {
        first_owned_by(windows.drop_first(), pid)
    }
}

/// State of one enumeration: the process whose window is wanted and the
/// window found so far. Once a window is found it is never replaced.
#[derive(Clone, Copy, Debug)]
pub struct WindowSearch {
    pub target_pid: u32,
    pub found: Option<WindowHandle>,
}

impl WindowSearch {
    /// What the search holds after it has been shown `window`, owned by
    /// `owner_pid`.
    pub open spec fn after_visit(self, window: WindowHandle, owner_pid: u32) -> WindowSearch {
        if self.found is None && owner_pid == self.target_pid {
            WindowSearch { target_pid: self.target_pid, found: Some(window) }
        } else {
            self
        }
    }

    /// Whether the enumeration should go on after the search has been shown a
    /// window owned by `owner_pid`.
    pub open spec fn wants_more(self, owner_pid: u32) -> bool {
        !(self.found is None && owner_pid == self.target_pid)
    }

    /// What the search holds after it has been shown all of `windows` in
    /// order.
    pub open spec fn after_visits(self, windows: Seq<WindowEntry>) -> WindowSearch
        decreases windows.len(),
    {
        if windows.len() == 0 {
            self
        } else {
            self.after_visit(windows[0].window, windows[0].owner_pid).after_visits(
                windows.drop_first(),
            )
        }
    }

    /// Starts a search for a window of process `target_pid`.
    pub fn new(target_pid: u32) -> (search: WindowSearch)
        ensures
            search.target_pid == target_pid,
            search.found is None,
    {
        WindowSearch { target_pid, found: None }
    }

    /// Shows the search one enumerated window. The first window whose owner
    /// is the wanted process is kept and the enumeration is told to stop
    /// (`false`); any other window leaves the search as it is and the
    /// enumeration goes on (`true`).
    pub fn visit(&mut self, window: WindowHandle, owner_pid: u32) -> (keep_going: bool)
        ensures
            *final(self) == old(self).after_visit(window, owner_pid),
            keep_going == old(self).wants_more(owner_pid),
    {
        if owner_pid == self.target_pid && self.found.is_none() {
            self.found = Some(window);
            return false;
        }
        true
    }
}

/// A fresh search that is shown `windows` in order ends up holding the first
/// of them that the wanted process owns, whether or not the enumeration stops
/// at it.
pub proof fn lemma_search_finds_first(target_pid: u32, windows: Seq<WindowEntry>)
    ensures
        (WindowSearch { target_pid, found: None }).after_visits(windows).found == first_owned_by(
            windows,
            target_pid,
        ),
        (WindowSearch { target_pid, found: None }).after_visits(windows).target_pid == target_pid,
    decreases windows.len(),
{
    let fresh = WindowSearch { target_pid, found: None };
    if windows.len() == 0 {
    } else if windows[0].owner_pid == target_pid {
        lemma_found_is_kept(
            fresh.after_visit(windows[0].window, windows[0].owner_pid),
            windows.drop_first(),
        );
    } else {
        lemma_search_finds_first(target_pid, windows.drop_first());
    }
}

/// A search that already holds a window is not changed by further visits.
pub proof fn lemma_found_is_kept(search: WindowSearch, windows: Seq<WindowEntry>)
    requires
        search.found is Some,
    ensures
        search.after_visits(windows) == search,
    decreases windows.len(),
{
    if windows.len() > 0 {
        lemma_found_is_kept(search, windows.drop_first());
    }
}

/// What `first_owned_by` picks, said without recursion: the window at the
/// least index whose owner is `pid`, or nothing when no window has that
/// owner.
pub proof fn lemma_first_owned_by(windows: Seq<WindowEntry>, pid: u32)
    ensures
        match first_owned_by(windows, pid) {
            Some(window) => exists|i: int|
                0 <= i < windows.len() && windows[i].owner_pid == pid && windows[i].window
                    == window && forall|j: int| 0 <= j < i ==> windows[j].owner_pid != pid,
            None => forall|j: int| 0 <= j < windows.len() ==> windows[j].owner_pid != pid,
        },
    decreases windows.len(),
{
    if windows.len() == 0 {
    } else if windows[0].owner_pid == pid {
        assert(forall|j: int| 0 <= j < 0 ==> windows[j].owner_pid != pid);
    } else {
        let rest = windows.drop_first();
        lemma_first_owned_by(rest, pid);
        match first_owned_by(rest, pid) {
            Some(window) => {
                let i = choose|i: int|
                    0 <= i < rest.len() && rest[i].owner_pid == pid && rest[i].window == window
                        && forall|j: int| 0 <= j < i ==> rest[j].owner_pid != pid;
                assert forall|j: int| 0 <= j < i + 1 implies windows[j].owner_pid != pid by {
                    if j > 0 {
                        assert(windows[j] == rest[j - 1]);
                    }
                }
                assert(windows[i + 1] == rest[i]);
            },
            None => {
                assert forall|j: int| 0 <= j < windows.len() implies windows[j].owner_pid
                    != pid by {
                    if j > 0 {
                        assert(windows[j] == rest[j - 1]);
                    }
                }
            },
        }
    }
}

/// Picks the application's own window out of an enumeration: the first window
/// of `windows` owned by process `pid`. Windows after it are not looked at.
#[verifier::loop_isolation(false)]
pub fn locate_self_window(windows: &Vec<WindowEntry>, pid: u32) -> (located: Option<WindowHandle>)
    ensures
        located == first_owned_by(windows@, pid),
        match located {
            Some(window) => exists|i: int|
                0 <= i < windows.len() && windows[i].owner_pid == pid && windows[i].window
                    == window && forall|j: int| 0 <= j < i ==> windows[j].owner_pid != pid,
            None => forall|j: int| 0 <= j < windows.len() ==> windows[j].owner_pid != pid,
        },
{
    proof {
        lemma_first_owned_by(windows@, pid);
    }
    let mut search = WindowSearch::new(pid);
    let mut i: usize = 0;
    assert(windows@.skip(0) == windows@);
    while i < windows.len()
        invariant
            0 <= i <= windows.len(),
            search.target_pid == pid,
            search.found is None,
            first_owned_by(windows@, pid) == first_owned_by(windows@.skip(i as int), pid),
        decreases windows.len() - i,
    {
        let entry = windows[i];
        let ghost rest = windows@.skip(i as int);
        assert(rest[0] == entry);
        assert(rest.drop_first() == windows@.skip(i + 1));
        let keep_going = search.visit(entry.window, entry.owner_pid);
        if !keep_going {
            return search.found;
        }
        i = i + 1;
    }
    assert(windows@.skip(i as int).len() == 0);
    None
}

} // verus!
