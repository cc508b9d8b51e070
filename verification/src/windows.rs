//! A model of the windows the runtime owns: each lives under a unique
//! label and carries the two attributes the shell ever touches,
//! visibility and focus. Windows are never removed here — the shell
//! hides windows instead of destroying them — and lookups of labels
//! nothing carries are deliberate no-ops, never errors.

use vstd::prelude::*;

verus! {

/// The attributes of one window that the shell reads and writes.
#[derive(Clone, Copy, PartialEq, Eq, Structural, Debug)]
pub struct WindowState {
    pub visible: bool,
    pub focused: bool,
}

/// The windows the runtime currently owns. `labels[i]` names the window
/// whose attributes are `states[i]`.
pub struct WindowRegistry {
    pub labels: Vec<String>,
    pub states: Vec<WindowState>,
}

impl WindowRegistry {
    /// Labels and states correspond one to one, and no label repeats.
    pub open spec fn wf(self) -> bool {
        &&& self.labels@.len() == self.states@.len()
        &&& forall|i: int, j: int|
            0 <= i < j < self.labels@.len() ==> self.labels@[i]@ != self.labels@[j]@
    }

    /// How many windows the runtime owns.
    pub open spec fn window_count(self) -> nat {
        self.labels@.len()
    }

    /// Whether some window lives under `label`.
    pub open spec fn has_window(self, label: Seq<char>) -> bool {
        exists|i: int| 0 <= i < self.labels@.len() && self.labels@[i]@ == label
    }

    /// The position of the window under `label`, where one exists.
    pub open spec fn index_of(self, label: Seq<char>) -> int {
        choose|i: int| 0 <= i < self.labels@.len() && self.labels@[i]@ == label
    }

    /// The attributes of the window under `label`, where one exists.
    pub open spec fn state_of(self, label: Seq<char>) -> WindowState {
        self.states@[self.index_of(label)]
    }
}

/// The window states after the window under `label`, if any, is made
/// visible and given focus; every other window keeps its attributes.
pub open spec fn show_focus_result(r: WindowRegistry, label: Seq<char>) -> Seq<WindowState> {
    r.states@.map(
        |i: int, s: WindowState|
            if r.labels@[i]@ == label {
                WindowState { visible: true, focused: true }
            } else {
                s
            },
    )
}

/// The window states after the window under `label`, if any, is hidden;
/// its focus flag and every other window keep their values.
pub open spec fn hide_result(r: WindowRegistry, label: Seq<char>) -> Seq<WindowState> {
    r.states@.map(
        |i: int, s: WindowState|
            if r.labels@[i]@ == label {
                WindowState { visible: false, focused: s.focused }
            } else {
                s
            },
    )
}

impl WindowRegistry {
    /// An empty registry: the state before the runtime creates windows.
    pub fn new() -> (r: WindowRegistry)
        ensures
            r.wf(),
            r.window_count() == 0,
    {
        WindowRegistry { labels: Vec::new(), states: Vec::new() }
    }

    /// Record a window the runtime created. Window creation itself is the
    /// runtime's business; the model needs it so windows can exist at all.
    pub fn register(&mut self, label: String, state: WindowState)
        requires
            old(self).wf(),
            !old(self).has_window(label@),
        ensures
            final(self).wf(),
            final(self).labels@ == old(self).labels@.push(label),
            final(self).states@ == old(self).states@.push(state),
            final(self).window_count() == old(self).window_count() + 1,
    {
        self.labels.push(label);
        self.states.push(state);
    }

    /// Find the position of the window under `label`, if any.
    fn find_label(&self, label: &str) -> (r: Option<usize>)
        ensures
            match r {
                Some(i) => i < self.labels@.len() && self.labels@[i as int]@ == label@,
                None => !self.has_window(label@),
            },
    {
        let target: String = label.to_owned();
        let n = self.labels.len();
        let mut i: usize = 0;
        while i < n
            invariant
                n == self.labels@.len(),
                i <= n,
                target@ == label@,
                forall|j: int| 0 <= j < i ==> self.labels@[j]@ != label@,
            decreases n - i,
        {
            if self.labels[i] == target {
                return Some(i);
            }
            i += 1;
        }
        None
    }

    /// Make the window under `label` visible and give it focus. When no
    /// window carries the label, nothing changes: the absence is a
    /// tolerated timing condition, not an error.
    pub fn show_and_focus(&mut self, label: &str)
        requires
            old(self).wf(),
        ensures
            final(self).wf(),
            final(self).labels == old(self).labels,
            final(self).states@ == show_focus_result(*old(self), label@),
            !old(self).has_window(label@) ==> *final(self) == *old(self),
    {
        match self.find_label(label) {
            Some(i) => {
                self.states[i] = WindowState { visible: true, focused: true };
                proof {
                    assert forall|j: int| 0 <= j < self.states@.len() implies self.states@[j]
                        == show_focus_result(*old(self), label@)[j] by {
                        if j < i as int {
                            assert(old(self).labels@[j]@ != old(self).labels@[i as int]@);
                        } else if j > i as int {
                            assert(old(self).labels@[i as int]@ != old(self).labels@[j]@);
                        }
                    }
                    assert(self.states@ =~= show_focus_result(*old(self), label@));
                }
            },
            None => {
                proof {
                    assert(self.states@ =~= show_focus_result(*old(self), label@));
                }
            },
        }
    }

    /// Hide the window under `label`. When no window carries the label —
    /// it may already be gone by the time the event is served — nothing
    /// changes and no error is raised.
    pub fn hide_window(&mut self, label: &str)
        requires
            old(self).wf(),
        ensures
            final(self).wf(),
            final(self).labels == old(self).labels,
            final(self).states@ == hide_result(*old(self), label@),
            !old(self).has_window(label@) ==> *final(self) == *old(self),
    {
        match self.find_label(label) {
            Some(i) => {
                let focused = self.states[i].focused;
                self.states[i] = WindowState { visible: false, focused };
                proof {
                    assert forall|j: int| 0 <= j < self.states@.len() implies self.states@[j]
                        == hide_result(*old(self), label@)[j] by {
                        if j < i as int {
                            assert(old(self).labels@[j]@ != old(self).labels@[i as int]@);
                        } else if j > i as int {
                            assert(old(self).labels@[i as int]@ != old(self).labels@[j]@);
                        }
                    }
                    assert(self.states@ =~= hide_result(*old(self), label@));
                }
            },
            None => {
                proof {
                    assert(self.states@ =~= hide_result(*old(self), label@));
                }
            },
        }
    }

    /// How many windows the runtime owns, as a runtime value.
    pub fn count(&self) -> (n: usize)
        requires
            self.wf(),
        ensures
            n == self.window_count(),
    {
        self.labels.len()
    }

    /// The attributes of the window under `label`, or nothing when no
    /// window carries the label.
    pub fn state(&self, label: &str) -> (s: Option<WindowState>)
        requires
            self.wf(),
        ensures
            match s {
                Some(w) => self.has_window(label@) && w == self.state_of(label@),
                None => !self.has_window(label@),
            },
    {
        match self.find_label(label) {
            Some(i) => {
                proof {
                    let k = self.index_of(label@);
                    if k < i as int {
                        assert(self.labels@[k]@ != self.labels@[i as int]@);
                    } else if k > i as int {
                        assert(self.labels@[i as int]@ != self.labels@[k]@);
                    }
                }
                Some(self.states[i])
            },
            None => None,
        }
    }
}

} // verus!
