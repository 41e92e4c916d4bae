//! The pointer shape classifier: is the pointer one of the shapes over which
//! the pointer indicator shows?
//!
//! Shapes are compared by the handle that the desktop shares among all users
//! of a system shape, never by their looks.

use vstd::prelude::*;
use std::collections::HashSet;

verus! {

/// The handles among the first `n` resolutions that name a shape: those that
/// were resolved and are not null.
pub open spec fn live_handles(resolved: Seq<Option<isize>>, n: int) -> Set<isize> {
    Set::new(
        |handle: isize|
            handle != 0 && exists|i: int| 0 <= i < n && #[trigger] resolved[i] == Some(handle),
    )
}

/// The classifier: the handles of the target shapes.
pub struct CursorDetector {
    pub target_cursor_handles: HashSet<isize>,
}

impl View for CursorDetector {
    type V = Set<isize>;

    open spec fn view(&self) -> Set<isize> {
        self.target_cursor_handles@
    }
}

impl CursorDetector {
    /// A classifier for the shapes whose identifiers were resolved to
    /// `resolved`, one entry for each identifier: `None` where the desktop
    /// knows no such shape. Such entries and null handles are left out.
    pub fn new(resolved: &[Option<isize>]) -> (detector: Self)
        ensures
            detector@ == live_handles(resolved@, resolved@.len() as int),
    {
        let handles = Self::get_shared_cursor_handles(resolved);
        CursorDetector { target_cursor_handles: handles }
    }

    /// Collects the handles that name a shape.
    pub fn get_shared_cursor_handles(resolved: &[Option<isize>]) -> (handles: HashSet<isize>)
        ensures
            handles@ == live_handles(resolved@, resolved@.len() as int),
    {
        broadcast use vstd::std_specs::hash::group_hash_axioms;

        let mut handles: HashSet<isize> = HashSet::new();
        let mut i: usize = 0;
        assert(handles@ =~= live_handles(resolved@, 0));
        while i < resolved.len()
            invariant
                i <= resolved@.len(),
                handles@ == live_handles(resolved@, i as int),
            decreases resolved@.len() - i,
        {
            match resolved[i] {
                Some(handle) => {
                    if handle != 0 {
                        handles.insert(handle);
                    }
                },
                None => {},
            }
            proof {
                let before = live_handles(resolved@, i as int);
                let after = live_handles(resolved@, i + 1);
                assert forall|h: isize| after.contains(h) <==> #[trigger] handles@.contains(h) by {
                    if before.contains(h) {
                        let j = choose|j: int| 0 <= j < i && #[trigger] resolved@[j] == Some(h);
                        assert(0 <= j < i + 1 && resolved@[j] == Some(h));
                    }
                    if h != 0 && resolved@[i as int] == Some(h) {
                        assert(after.contains(h));
                    }
                    if after.contains(h) {
                        let j = choose|j: int| 0 <= j < i + 1 && #[trigger] resolved@[j] == Some(h);
                        if j < i {
                            assert(before.contains(h));
                        }
                    }
                }
                assert(handles@ =~= after);
            }
            i = i + 1;
        }
        handles
    }

    /// Whether the pointer has a target shape. `current` is the handle of
    /// the pointer's shape, `None` when the desktop did not tell.
    pub fn is_target_cursor(&self, current: Option<isize>) -> (is_target: bool)
        ensures
            is_target == match current {
                Some(handle) => self@.contains(handle),
                None => false,
            },
    {
        broadcast use vstd::std_specs::hash::group_hash_axioms;

        match current {
            Some(handle) => self.target_cursor_handles.contains(&handle),
            None => false,
        }
    }
}

} // verus!
