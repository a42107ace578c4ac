use std::collections::HashMap;

use vstd::prelude::*;

use crate::error::TaskbarError;

verus! {

broadcast use vstd::std_specs::hash::group_hash_axioms;

/// One known window: its native identity, its application label, and whether its
/// button row has been created.
#[derive(Debug)]
pub struct WindowEntry {
    pub hwnd: isize,
    pub label: String,
    pub buttons_ready: bool,
}

/// The table of windows that have a message filter installed, with the labels their
/// button clicks are sent to and the set of windows whose button row exists.
///
/// Each identity and each label occurs at most once.
pub struct WindowRegistry {
    entries: Vec<WindowEntry>,
    labels: Ghost<Map<isize, Seq<char>>>,
    ready: Ghost<Set<isize>>,
}

/// `m` with every identity that maps to `label` taken out.
pub open spec fn without_label(m: Map<isize, Seq<char>>, label: Seq<char>) -> Map<isize, Seq<char>> {
    Map::new(|h: isize| m.contains_key(h) && m[h] != label, |h: isize| m[h])
}

/// No two identities share a label.
pub open spec fn distinct_labels(m: Map<isize, Seq<char>>) -> bool {
    forall|a: isize, b: isize|
        #![trigger m[a], m[b]]
        m.contains_key(a) && m.contains_key(b) && a != b ==> m[a] != m[b]
}

impl WindowRegistry {
    /// Identity to label, for every registered window.
    pub closed spec fn labels(&self) -> Map<isize, Seq<char>> {
        self.labels@
    }

    /// The windows whose button row has been created.
    pub closed spec fn ready(&self) -> Set<isize> {
        self.ready@
    }

    pub closed spec fn wf(&self) -> bool {
        let e = self.entries@;
        &&& forall|i: int, j: int|
            #![trigger e[i], e[j]]
            0 <= i < j < e.len() ==> e[i].hwnd != e[j].hwnd && e[i].label@ != e[j].label@
        &&& forall|h: isize|
            #[trigger] self.labels@.contains_key(h) <==> exists|i: int|
                0 <= i < e.len() && #[trigger] e[i].hwnd == h
        &&& forall|i: int|
            0 <= i < e.len() ==> self.labels@[#[trigger] e[i].hwnd] == e[i].label@
                && self.labels@.contains_key(e[i].hwnd) && (self.ready@.contains(e[i].hwnd)
                == e[i].buttons_ready)
        &&& self.ready@.subset_of(self.labels@.dom())
    }

    /// What every well-formed registry satisfies: only registered windows are ready,
    /// and labels are distinct.
    pub proof fn lemma_wf(&self)
        requires
            self.wf(),
        ensures
            self.ready().subset_of(self.labels().dom()),
            distinct_labels(self.labels()),
    {
        let e = self.entries@;
        assert forall|a: isize, b: isize|
            #![trigger self.labels()[a], self.labels()[b]]
            self.labels().contains_key(a) && self.labels().contains_key(b) && a != b implies self.labels()[a]
            != self.labels()[b] by {
            let i = choose|i: int| 0 <= i < e.len() && #[trigger] e[i].hwnd == a;
            let j = choose|j: int| 0 <= j < e.len() && #[trigger] e[j].hwnd == b;
            assert(self.labels@[e[i].hwnd] == e[i].label@);
            assert(self.labels@[e[j].hwnd] == e[j].label@);
            if i < j {
                assert(e[i].label@ != e[j].label@);
            } else {
                assert(e[j].label@ != e[i].label@);
            }
        }
    }

    /// A registry with no windows.
    pub fn new() -> (r: WindowRegistry)
        ensures
            r.wf(),
            r.labels() == Map::<isize, Seq<char>>::empty(),
            r.ready() == Set::<isize>::empty(),
    {
        WindowRegistry { entries: Vec::new(), labels: Ghost(Map::empty()), ready: Ghost(Set::empty()) }
    }

    fn position_of_window(&self, hwnd: isize) -> (r: Option<usize>)
        requires
            self.wf(),
        ensures
            r is Some <==> self.labels().contains_key(hwnd),
            r matches Some(i) ==> i < self.entries@.len() && self.entries@[i as int].hwnd == hwnd,
    {
        let mut i: usize = 0;
        while i < self.entries.len()
            invariant
                self.wf(),
                i <= self.entries@.len(),
                forall|k: int| 0 <= k < i ==> #[trigger] self.entries@[k].hwnd != hwnd,
            decreases self.entries@.len() - i,
        {
            if self.entries[i].hwnd == hwnd {
                return Some(i);
            }
            i = i + 1;
        }
        None
    }

    fn position_of_label(&self, label: &String) -> (r: Option<usize>)
        requires
            self.wf(),
        ensures
            r matches Some(i) ==> i < self.entries@.len() && self.entries@[i as int].label@ == label@,
            r is None ==> forall|k: int|
                0 <= k < self.entries@.len() ==> #[trigger] self.entries@[k].label@ != label@,
    {
        let mut i: usize = 0;
        while i < self.entries.len()
            invariant
                self.wf(),
                i <= self.entries@.len(),
                forall|k: int| 0 <= k < i ==> #[trigger] self.entries@[k].label@ != label@,
            decreases self.entries@.len() - i,
        {
            if self.entries[i].label == *label {
                return Some(i);
            }
            i = i + 1;
        }
        None
    }

    /// Whether the window has been registered.
    pub fn is_registered(&self, hwnd: isize) -> (r: bool)
        requires
            self.wf(),
        ensures
            r == self.labels().contains_key(hwnd),
    {
        self.position_of_window(hwnd).is_some()
    }

    /// The label registered for the window, if any.
    pub fn label_of(&self, hwnd: isize) -> (r: Option<String>)
        requires
            self.wf(),
        ensures
            r is Some <==> self.labels().contains_key(hwnd),
            r matches Some(s) ==> s@ == self.labels()[hwnd],
    {
        match self.position_of_window(hwnd) {
            Some(i) => Some(self.entries[i].label.clone()),
            None => None,
        }
    }

    /// Whether the window's button row has been created.
    pub fn buttons_ready(&self, hwnd: isize) -> (r: bool)
        requires
            self.wf(),
        ensures
            r == self.ready().contains(hwnd),
    {
        match self.position_of_window(hwnd) {
            Some(i) => self.entries[i].buttons_ready,
            None => false,
        }
    }

    /// Records a newly registered window under `label`. A window recorded earlier under
    /// the same label is stale (its window was recreated) and is dropped, ready flag and all.
    pub fn record(&mut self, hwnd: isize, label: String)
        requires
            old(self).wf(),
            !old(self).labels().contains_key(hwnd),
        ensures
            final(self).wf(),
            final(self).labels() == without_label(old(self).labels(), label@).insert(hwnd, label@),
            final(self).ready() == old(self).ready().filter(
                |h: isize| old(self).labels()[h] != label@,
            ),
    {
        let ghost old_labels = self.labels@;
        let ghost old_ready = self.ready@;
        proof {
            self.lemma_wf();
        }
        match self.position_of_label(&label) {
            Some(i) => {
                let ghost e = self.entries@;
                let stale = self.entries.remove(i);
                proof {
                    let ne = self.entries@;
                    assert(ne =~= e.remove(i as int));
                    self.labels@ = self.labels@.remove(stale.hwnd);
                    self.ready@ = self.ready@.remove(stale.hwnd);
                    assert forall|k: int| 0 <= k < ne.len() implies self.labels@[#[trigger] ne[k].hwnd]
                        == ne[k].label@ && self.labels@.contains_key(ne[k].hwnd) && (
                    self.ready@.contains(ne[k].hwnd) == ne[k].buttons_ready) by {
                        let m = if k < i { k } else { k + 1 };
                        assert(ne[k] == e[m]);
                        if m < i {
                            assert(e[m].hwnd != e[i as int].hwnd);
                        } else {
                            assert(e[i as int].hwnd != e[m].hwnd);
                        }
                    }
                    assert(self.ready@.subset_of(self.labels@.dom()));
                    assert forall|h: isize| #[trigger] self.labels@.contains_key(h) implies exists|k: int|
                        0 <= k < ne.len() && #[trigger] ne[k].hwnd == h by {
                        let m = choose|m: int| 0 <= m < e.len() && #[trigger] e[m].hwnd == h;
                        let k = if m < i { m } else { m - 1 };
                        assert(ne[k].hwnd == h);
                    }
                    assert forall|i1: int, j1: int|
                        #![trigger ne[i1], ne[j1]]
                        0 <= i1 < j1 < ne.len() implies ne[i1].hwnd != ne[j1].hwnd && ne[i1].label@
                        != ne[j1].label@ by {
                        let a = if i1 < i { i1 } else { i1 + 1 };
                        let b = if j1 < i { j1 } else { j1 + 1 };
                        assert(ne[i1] == e[a] && ne[j1] == e[b]);
                        assert(e[a].hwnd != e[b].hwnd);
                    }
                }
            },
            None => {},
        }
        let ghost e = self.entries@;
        self.entries.push(WindowEntry { hwnd, label, buttons_ready: false });
        proof {
            let ne = self.entries@;
            let l = ne[ne.len() - 1].label@;
            self.labels@ = self.labels@.insert(hwnd, l);
            assert forall|i1: int, j1: int|
                #![trigger ne[i1], ne[j1]]
                0 <= i1 < j1 < ne.len() implies ne[i1].hwnd != ne[j1].hwnd && ne[i1].label@
                != ne[j1].label@ by {
                if j1 == ne.len() - 1 {
                    assert(ne[i1] == e[i1]);
                    assert(old_labels.contains_key(e[i1].hwnd));
                } else {
                    assert(ne[i1] == e[i1] && ne[j1] == e[j1]);
                }
            }
            assert forall|h: isize| #[trigger] self.labels@.contains_key(h) implies exists|k: int|
                0 <= k < ne.len() && #[trigger] ne[k].hwnd == h by {
                if h == hwnd {
                    assert(ne[ne.len() - 1].hwnd == h);
                } else {
                    let m = choose|m: int| 0 <= m < e.len() && #[trigger] e[m].hwnd == h;
                    assert(ne[m].hwnd == h);
                }
            }
            assert forall|k: int| 0 <= k < ne.len() implies self.labels@[#[trigger] ne[k].hwnd]
                == ne[k].label@ && self.labels@.contains_key(ne[k].hwnd) && (self.ready@.contains(
                ne[k].hwnd) == ne[k].buttons_ready) by {
                if k < ne.len() - 1 {
                    assert(ne[k] == e[k]);
                    assert(old_labels.contains_key(e[k].hwnd));
                }
            }
            assert(self.ready@.subset_of(self.labels@.dom()));
            assert(self.labels@ =~= without_label(old_labels, l).insert(hwnd, l));
            assert(self.ready@ =~= old_ready.filter(|h: isize| old_labels[h] != l));
            let e = self.entries@;
            assert(forall|i: int, j: int|
                #![trigger e[i], e[j]]
                0 <= i < j < e.len() ==> e[i].hwnd != e[j].hwnd && e[i].label@ != e[j].label@);
            assert(forall|h: isize|
                #[trigger] self.labels@.contains_key(h) <==> exists|i: int|
                    0 <= i < e.len() && #[trigger] e[i].hwnd == h);
            assert(forall|i: int|
                0 <= i < e.len() ==> self.labels@[#[trigger] e[i].hwnd] == e[i].label@
                    && self.labels@.contains_key(e[i].hwnd) && (self.ready@.contains(e[i].hwnd)
                    == e[i].buttons_ready));
        }
    }

    /// Completes the registration of a window once the caller has tried to install its
    /// message filter (`installed`). A window registered already stays as it is; a new
    /// one is recorded when its filter is in place, and refused when it is not.
    pub fn complete_registration(&mut self, hwnd: isize, label: String, installed: bool) -> (r:
        Result<(), TaskbarError>)
        requires
            old(self).wf(),
        ensures
            final(self).wf(),
            old(self).labels().contains_key(hwnd) ==> r is Ok && final(self).labels()
                == old(self).labels() && final(self).ready() == old(self).ready(),
            !old(self).labels().contains_key(hwnd) && installed ==> r is Ok && final(self).labels()
                == without_label(old(self).labels(), label@).insert(hwnd, label@)
                && final(self).ready() == old(self).ready().filter(
                |h: isize| old(self).labels()[h] != label@,
            ),
            !old(self).labels().contains_key(hwnd) && !installed ==> r == Err::<(), TaskbarError>(
                TaskbarError::SubclassInstallFailed,
            ) && final(self).labels() == old(self).labels() && final(self).ready()
                == old(self).ready(),
    {
        if self.is_registered(hwnd) {
            Ok(())
        } else if installed {
            self.record(hwnd, label);
            Ok(())
        } else {
            Err(TaskbarError::SubclassInstallFailed)
        }
    }

    /// Drops a window that the platform reports destroyed, with its ready flag.
    pub fn forget(&mut self, hwnd: isize)
        requires
            old(self).wf(),
        ensures
            final(self).wf(),
            final(self).labels() == old(self).labels().remove(hwnd),
            final(self).ready() == old(self).ready().remove(hwnd),
    {
        match self.position_of_window(hwnd) {
            Some(i) => {
                let ghost e = self.entries@;
                self.entries.remove(i);
                proof {
                    let ne = self.entries@;
                    assert(ne =~= e.remove(i as int));
                    self.labels@ = self.labels@.remove(hwnd);
                    self.ready@ = self.ready@.remove(hwnd);
                    assert forall|k: int| 0 <= k < ne.len() implies self.labels@[#[trigger] ne[k].hwnd]
                        == ne[k].label@ && self.labels@.contains_key(ne[k].hwnd) && (
                    self.ready@.contains(ne[k].hwnd) == ne[k].buttons_ready) by {
                        let m = if k < i { k } else { k + 1 };
                        assert(ne[k] == e[m]);
                        if m < i {
                            assert(e[m].hwnd != e[i as int].hwnd);
                        } else {
                            assert(e[i as int].hwnd != e[m].hwnd);
                        }
                    }
                    assert(self.ready@.subset_of(self.labels@.dom()));
                    assert forall|h: isize| #[trigger] self.labels@.contains_key(h) implies exists|k: int|
                        0 <= k < ne.len() && #[trigger] ne[k].hwnd == h by {
                        let m = choose|m: int| 0 <= m < e.len() && #[trigger] e[m].hwnd == h;
                        let k = if m < i { m } else { m - 1 };
                        assert(ne[k].hwnd == h);
                    }
                    assert forall|i1: int, j1: int|
                        #![trigger ne[i1], ne[j1]]
                        0 <= i1 < j1 < ne.len() implies ne[i1].hwnd != ne[j1].hwnd && ne[i1].label@
                        != ne[j1].label@ by {
                        let a = if i1 < i { i1 } else { i1 + 1 };
                        let b = if j1 < i { j1 } else { j1 + 1 };
                        assert(ne[i1] == e[a] && ne[j1] == e[b]);
                        assert(e[a].hwnd != e[b].hwnd);
                    }
                    let e2 = self.entries@;
                    assert(forall|h: isize|
                        #[trigger] self.labels@.contains_key(h) <==> exists|j: int|
                            0 <= j < e2.len() && #[trigger] e2[j].hwnd == h);
                }
            },
            None => {
                proof {
                    assert(self.labels@ =~= self.labels@.remove(hwnd));
                    assert(self.ready@ =~= self.ready@.remove(hwnd));
                }
            },
        }
    }

    /// Marks the window's button row as created.
    pub fn mark_buttons_ready(&mut self, hwnd: isize)
        requires
            old(self).wf(),
            old(self).labels().contains_key(hwnd),
        ensures
            final(self).wf(),
            final(self).labels() == old(self).labels(),
            final(self).ready() == old(self).ready().insert(hwnd),
    {
        let i = self.position_of_window(hwnd).unwrap();
        let label = self.entries[i].label.clone();
        let ghost e = self.entries@;
        self.entries.set(i, WindowEntry { hwnd, label, buttons_ready: true });
        proof {
            let ne = self.entries@;
            self.ready@ = self.ready@.insert(hwnd);
            assert(self.ready@.subset_of(self.labels@.dom()));
            assert forall|i1: int, j1: int|
                #![trigger ne[i1], ne[j1]]
                0 <= i1 < j1 < ne.len() implies ne[i1].hwnd != ne[j1].hwnd && ne[i1].label@
                != ne[j1].label@ by {
                assert(e[i1].hwnd != e[j1].hwnd && e[i1].label@ != e[j1].label@);
            }
            assert forall|h: isize| #[trigger] self.labels@.contains_key(h) implies exists|k: int|
                0 <= k < ne.len() && #[trigger] ne[k].hwnd == h by {
                let m = choose|m: int| 0 <= m < e.len() && #[trigger] e[m].hwnd == h;
                assert(ne[m].hwnd == h);
            }
            assert forall|k: int| 0 <= k < ne.len() implies self.labels@[#[trigger] ne[k].hwnd]
                == ne[k].label@ && self.labels@.contains_key(ne[k].hwnd) && (self.ready@.contains(
                ne[k].hwnd) == ne[k].buttons_ready) by {
                if k != i {
                    assert(ne[k] == e[k]);
                    if k < i {
                        assert(e[k].hwnd != e[i as int].hwnd);
                    } else {
                        assert(e[i as int].hwnd != e[k].hwnd);
                    }
                }
            }
            let e = self.entries@;
            assert(forall|i: int, j: int|
                #![trigger e[i], e[j]]
                0 <= i < j < e.len() ==> e[i].hwnd != e[j].hwnd && e[i].label@ != e[j].label@);
            assert(forall|h: isize|
                #[trigger] self.labels@.contains_key(h) <==> exists|i: int|
                    0 <= i < e.len() && #[trigger] e[i].hwnd == h);
            assert(forall|i: int|
                0 <= i < e.len() ==> self.labels@[#[trigger] e[i].hwnd] == e[i].label@
                    && self.labels@.contains_key(e[i].hwnd) && (self.ready@.contains(e[i].hwnd)
                    == e[i].buttons_ready));
        }
    }
}

/// A copy of the registry's identity-to-label table.
pub fn window_labels(registry: &WindowRegistry) -> (r: HashMap<isize, String>)
    requires
        registry.wf(),
    ensures
        r@.dom() == registry.labels().dom(),
        forall|h: isize| #[trigger] r@.contains_key(h) ==> r@[h]@ == registry.labels()[h],
{
    let mut out: HashMap<isize, String> = HashMap::new();
    let mut i: usize = 0;
    while i < registry.entries.len()
        invariant
            registry.wf(),
            i <= registry.entries@.len(),
            forall|h: isize|
                #[trigger] out@.contains_key(h) <==> exists|k: int|
                    0 <= k < i && #[trigger] registry.entries@[k].hwnd == h,
            forall|h: isize| #[trigger] out@.contains_key(h) ==> out@[h]@ == registry.labels()[h],
        decreases registry.entries@.len() - i,
    {
        let e = &registry.entries[i];
        out.insert(e.hwnd, e.label.clone());
        proof {
            assert(registry.entries@[i as int].hwnd == e.hwnd);
        }
        i = i + 1;
    }
    proof {
        assert(out@.dom() =~= registry.labels().dom());
    }
    out
}

} // verus!
