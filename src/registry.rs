use vstd::prelude::*;

verus! {

/// Live windows of the host, each identified by the host's window number and
/// holding its view handle. A window number appears at most once.
pub struct WindowRegistry<V> {
    entries: Vec<(u64, V)>,
}

impl<V> WindowRegistry<V> {
    /// Window numbers in the order the windows were registered.
    pub closed spec fn ids(self) -> Seq<u64> {
        self.entries@.map_values(|e: (u64, V)| e.0)
    }

    /// The set of live window numbers.
    pub open spec fn windows(self) -> Set<u64> {
        self.ids().to_set()
    }

    pub open spec fn wf(self) -> bool {
        self.ids().no_duplicates()
    }

    /// The view registered for window `id`.
    pub closed spec fn view_of(self, id: u64) -> V {
        self.entries@[self.slot_of(id)].1
    }

    spec fn slot_of(self, id: u64) -> int {
        choose|k: int| 0 <= k < self.entries@.len() && self.entries@[k].0 == id
    }

    proof fn lemma_view_at(self, i: int)
        requires
            self.wf(),
            0 <= i < self.entries@.len(),
        ensures
            self.view_of(self.entries@[i].0) == self.entries@[i].1,
            self.ids()[i] == self.entries@[i].0,
    {
        let id = self.entries@[i].0;
        assert(self.ids()[i] == id);
        assert(0 <= i < self.entries@.len() && self.entries@[i].0 == id);
        let j = self.slot_of(id);
        assert(self.ids()[j] == id);
        assert(j == i);
        assert(self.view_of(id) == self.entries@[j].1);
    }

    /// No window.
    pub fn new() -> (r: WindowRegistry<V>)
        ensures
            r.wf(),
            r.windows() == Set::<u64>::empty(),
    {
        let r = WindowRegistry { entries: Vec::new() };
        proof {
            assert(r.ids() =~= Seq::<u64>::empty());
            assert(r.windows() =~= Set::<u64>::empty());
        }
        r
    }

    /// Number of live windows.
    pub fn len(&self) -> (n: usize)
        requires
            self.wf(),
        ensures
            n == self.windows().len(),
    {
        proof {
            self.ids().unique_seq_to_set();
        }
        self.entries.len()
    }

    pub fn is_empty(&self) -> (b: bool)
        requires
            self.wf(),
        ensures
            b == (self.windows() == Set::<u64>::empty()),
    {
        proof {
            self.ids().unique_seq_to_set();
            if self.windows() == Set::<u64>::empty() {
                assert(self.windows().len() == 0);
            }
            if self.entries.len() == 0 {
                assert(self.windows() =~= Set::<u64>::empty());
            }
        }
        self.entries.len() == 0
    }

    fn position(&self, id: u64) -> (r: Option<usize>)
        ensures
            match r {
                Some(i) => i < self.ids().len() && self.ids()[i as int] == id,
                None => !self.windows().contains(id),
            },
    {
        let mut i: usize = 0;
        while i < self.entries.len()
            invariant
                0 <= i <= self.ids().len(),
                forall|j: int| 0 <= j < i ==> self.ids()[j] != id,
            decreases self.ids().len() - i,
        {
            if self.entries[i].0 == id {
                return Some(i);
            }
            i = i + 1;
        }
        None
    }

    /// Whether a window with this number is registered.
    pub fn contains_window(&self, id: u64) -> (b: bool)
        ensures
            b == self.windows().contains(id),
    {
        match self.position(id) {
            Some(_) => true,
            None => false,
        }
    }

    /// Registers the view of a window that has finished construction. A
    /// window number registered already keeps its place and gets the new view;
    /// the old one is handed back.
    pub fn insert(&mut self, id: u64, view: V) -> (replaced: Option<V>)
        requires
            old(self).wf(),
        ensures
            final(self).wf(),
            final(self).windows() == old(self).windows().insert(id),
            replaced is Some == old(self).windows().contains(id),
            replaced matches Some(v) ==> v == old(self).view_of(id),
            final(self).view_of(id) == view,
            forall|k: u64| k != id && old(self).windows().contains(k) ==> #[trigger] final(self).view_of(k) == old(self).view_of(k),
    {
        match self.position(id) {
            Some(i) => {
                let (_, old_view) = self.entries.remove(i);
                self.entries.insert(i, (id, view));
                proof {
                    assert(self.ids() =~= old(self).ids());
                    old(self).lemma_view_at(i as int);
                    self.lemma_view_at(i as int);
                    assert forall|k: u64| k != id && old(self).windows().contains(k) implies #[trigger] self.view_of(k) == old(self).view_of(k) by {
                        let j = choose|j: int| 0 <= j < old(self).ids().len() && old(self).ids()[j] == k;
                        old(self).lemma_view_at(j);
                        self.lemma_view_at(j);
                    }
                    assert(old(self).windows().insert(id) =~= old(self).windows());
                }
                Some(old_view)
            },
            None => {
                self.entries.push((id, view));
                proof {
                    let ids0 = old(self).ids();
                    assert(self.ids() =~= ids0.push(id));
                    self.lemma_view_at(ids0.len() as int);
                    assert forall|k: u64| k != id && old(self).windows().contains(k) implies #[trigger] self.view_of(k) == old(self).view_of(k) by {
                        let j = choose|j: int| 0 <= j < ids0.len() && ids0[j] == k;
                        old(self).lemma_view_at(j);
                        self.lemma_view_at(j);
                    }
                    assert(self.ids() =~= ids0.push(id));
                    assert forall|x: u64| self.windows().contains(x) <==> old(
                        self,
                    ).windows().insert(id).contains(x) by {
                        if self.windows().contains(x) && x != id {
                            let k = choose|k: int| 0 <= k < self.ids().len() && self.ids()[k] == x;
                            assert(ids0[k] == x);
                        }
                        if old(self).windows().contains(x) {
                            let k = choose|k: int| 0 <= k < ids0.len() && ids0[k] == x;
                            assert(self.ids()[k] == x);
                        }
                        if x == id {
                            assert(self.ids()[ids0.len() as int] == x);
                        }
                    }
                    assert(self.windows() =~= old(self).windows().insert(id));
                }
                None
            },
        }
    }

    /// Forgets a destroyed window and hands back its view, if it was
    /// registered.
    pub fn remove(&mut self, id: u64) -> (removed: Option<V>)
        requires
            old(self).wf(),
        ensures
            final(self).wf(),
            final(self).windows() == old(self).windows().remove(id),
            removed is Some == old(self).windows().contains(id),
            removed matches Some(v) ==> v == old(self).view_of(id),
            forall|k: u64| k != id && old(self).windows().contains(k) ==> #[trigger] final(self).view_of(k) == old(self).view_of(k),
    {
        match self.position(id) {
            Some(i) => {
                let (_, view) = self.entries.remove(i);
                proof {
                    let ids0 = old(self).ids();
                    assert(self.ids() =~= ids0.remove(i as int));
                    assert forall|x: u64| self.windows().contains(x) <==> old(
                        self,
                    ).windows().remove(id).contains(x) by {
                        if self.windows().contains(x) {
                            let k = choose|k: int| 0 <= k < self.ids().len() && self.ids()[k] == x;
                            if k < i {
                                assert(ids0[k] == x);
                            } else {
                                assert(ids0[k + 1] == x);
                            }
                        }
                        if old(self).windows().remove(id).contains(x) {
                            let k = choose|k: int| 0 <= k < ids0.len() && ids0[k] == x;
                            assert(k != i);
                            if k < i {
                                assert(self.ids()[k] == x);
                            } else {
                                assert(self.ids()[k - 1] == x);
                            }
                        }
                    }
                    assert(self.windows() =~= old(self).windows().remove(id));
                    old(self).lemma_view_at(i as int);
                    assert forall|k: u64| k != id && old(self).windows().contains(k) implies #[trigger] self.view_of(k) == old(self).view_of(k) by {
                        let j = choose|j: int| 0 <= j < ids0.len() && ids0[j] == k;
                        old(self).lemma_view_at(j);
                        assert(j != i);
                        if j < i {
                            self.lemma_view_at(j);
                        } else {
                            self.lemma_view_at(j - 1);
                        }
                    }
                }
                Some(view)
            },
            None => {
                proof {
                    assert(old(self).windows().remove(id) =~= old(self).windows());
                }
                None
            },
        }
    }

    /// Some registered window, if there is one: the earliest registered.
    pub fn first_window(&self) -> (r: Option<u64>)
        requires
            self.wf(),
        ensures
            r is None <==> self.windows() == Set::<u64>::empty(),
            r matches Some(id) ==> self.windows().contains(id),
    {
        if self.entries.len() == 0 {
            proof {
                assert(self.windows() =~= Set::<u64>::empty());
            }
            None
        } else {
            let id = self.entries[0].0;
            proof {
                assert(self.ids()[0] == id);
                assert(self.windows().contains(id));
            }
            Some(id)
        }
    }

    /// The view of a registered window.
    pub fn get(&self, id: u64) -> (r: Option<&V>)
        requires
            self.wf(),
        ensures
            r is Some == self.windows().contains(id),
            r matches Some(v) ==> *v == self.view_of(id),
    {
        match self.position(id) {
            Some(i) => {
                proof {
                    self.lemma_view_at(i as int);
                }
                Some(&self.entries[i].1)
            },
            None => None,
        }
    }
}

} // verus!
