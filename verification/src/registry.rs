//! The pane registry: the single source of truth mapping each logical pane
//! identifier to its current lifecycle state.  It is stored as an
//! association list with pairwise-distinct keys and abstracted, through its
//! view, as a `Map<Seq<char>, PaneStateV>`.

use vstd::prelude::*;

verus! {

/// The lifecycle state of one logical pane.
#[derive(Clone, Debug, PartialEq, Eq)]
pub enum TogglerPaneState {
    /// An open was requested; the host has not yet confirmed the pane exists.
    Opening { pipe_id: String, is_toggle: bool },
    /// The pane exists under the host-assigned handle.
    Opened { zellij_pane_id: u32 },
    /// A close was requested; the host has not yet confirmed termination.
    Closing { zellij_pane_id: u32, pipe_id: String, is_toggle: bool },
}

pub enum PaneStateV {
    Opening { pipe_id: Seq<char>, is_toggle: bool },
    Opened { zellij_pane_id: u32 },
    Closing { zellij_pane_id: u32, pipe_id: Seq<char>, is_toggle: bool },
}

impl View for TogglerPaneState {
    type V = PaneStateV;

    open spec fn view(&self) -> PaneStateV {
        match self {
            TogglerPaneState::Opening { pipe_id, is_toggle } => {
                PaneStateV::Opening { pipe_id: pipe_id@, is_toggle: *is_toggle }
            },
            TogglerPaneState::Opened { zellij_pane_id } => {
                PaneStateV::Opened { zellij_pane_id: *zellij_pane_id }
            },
            TogglerPaneState::Closing { zellij_pane_id, pipe_id, is_toggle } => {
                PaneStateV::Closing {
                    zellij_pane_id: *zellij_pane_id,
                    pipe_id: pipe_id@,
                    is_toggle: *is_toggle,
                }
            },
        }
    }
}

/// The host handle held by a state, if the pane exists host-side.
pub open spec fn state_handle(state: PaneStateV) -> Option<u32> {
    match state {
        PaneStateV::Opening { .. } => Option::None,
        PaneStateV::Opened { zellij_pane_id } => Option::Some(zellij_pane_id),
        PaneStateV::Closing { zellij_pane_id, .. } => Option::Some(zellij_pane_id),
    }
}

/// No two `Opened`/`Closing` entries share a host handle.  The host
/// guarantees this of the handles it assigns; under it the reverse lookup
/// by handle is unambiguous.
pub open spec fn handles_unique(m: Map<Seq<char>, PaneStateV>) -> bool {
    forall|id1: Seq<char>, id2: Seq<char>|
        m.contains_key(id1) && m.contains_key(id2) && state_handle(m[id1]) is Some
            && state_handle(m[id1]) == state_handle(m[id2]) ==> id1 == id2
}

pub(crate) open spec fn entries_map(s: Seq<(String, TogglerPaneState)>) -> Map<
    Seq<char>,
    PaneStateV,
>
    decreases s.len(),
{
    if s.len() == 0 {
        Map::empty()
    } else {
        entries_map(s.drop_last()).insert(s.last().0@, s.last().1@)
    }
}

pub(crate) open spec fn keys_distinct(s: Seq<(String, TogglerPaneState)>) -> bool {
    forall|i: int, j: int| 0 <= i < j < s.len() ==> s[i].0@ != s[j].0@
}

proof fn lemma_entries_map_contains(s: Seq<(String, TogglerPaneState)>, key: Seq<char>)
    ensures
        entries_map(s).contains_key(key) <==> exists|i: int| 0 <= i < s.len() && s[i].0@ == key,
    decreases s.len(),
{
    if s.len() > 0 {
        lemma_entries_map_contains(s.drop_last(), key);
        if s.last().0@ == key {
            assert(s[s.len() - 1].0@ == key);
        } else {
            if entries_map(s).contains_key(key) {
                let i = choose|i: int| 0 <= i < s.drop_last().len() && s.drop_last()[i].0@ == key;
                assert(s[i].0@ == key);
            }
            if exists|i: int| 0 <= i < s.len() && s[i].0@ == key {
                let i = choose|i: int| 0 <= i < s.len() && s[i].0@ == key;
                assert(s.drop_last()[i].0@ == key);
            }
        }
    }
}

proof fn lemma_entries_map_index(s: Seq<(String, TogglerPaneState)>, i: int)
    requires
        0 <= i < s.len(),
        forall|j: int| i < j < s.len() ==> s[j].0@ != s[i].0@,
    ensures
        entries_map(s).contains_key(s[i].0@),
        entries_map(s)[s[i].0@] == s[i].1@,
    decreases s.len(),
{
    if i == s.len() - 1 {
    } else {
        assert(forall|j: int|
            i < j < s.drop_last().len() ==> s.drop_last()[j].0@ != s.drop_last()[i].0@);
        lemma_entries_map_index(s.drop_last(), i);
        assert(s.last().0@ != s[i].0@);
    }
}

proof fn lemma_entries_map_remove(s: Seq<(String, TogglerPaneState)>, i: int)
    requires
        keys_distinct(s),
        0 <= i < s.len(),
    ensures
        entries_map(s.remove(i)) =~= entries_map(s).remove(s[i].0@),
    decreases s.len(),
{
    if i == s.len() - 1 {
        assert(s.remove(i) =~= s.drop_last());
        lemma_entries_map_contains(s.drop_last(), s[i].0@);
        assert(!entries_map(s.drop_last()).contains_key(s[i].0@));
        assert(entries_map(s).remove(s[i].0@) =~= entries_map(s.drop_last()));
    } else {
        assert(s.remove(i).drop_last() =~= s.drop_last().remove(i));
        assert(keys_distinct(s.drop_last()));
        lemma_entries_map_remove(s.drop_last(), i);
        assert(s.remove(i).last() == s.last());
        assert(s[i].0@ != s.last().0@);
        assert(entries_map(s.remove(i)) =~= entries_map(s.drop_last()).remove(s[i].0@).insert(
            s.last().0@,
            s.last().1@,
        ));
    }
}

/// The pane registry, keyed by logical pane identifier.
pub struct Registry {
    entries: Vec<(String, TogglerPaneState)>,
}

impl View for Registry {
    type V = Map<Seq<char>, PaneStateV>;

    closed spec fn view(&self) -> Map<Seq<char>, PaneStateV> {
        entries_map(self.entries@)
    }
}

impl Registry {
    /// Well-formed: each identifier occurs at most once.
    pub closed spec fn wf(&self) -> bool {
        keys_distinct(self.entries@)
    }

    /// An empty registry: no pane is open and nothing is pending.
    pub fn new() -> (r: Registry)
        ensures
            r.wf(),
            r@ == Map::<Seq<char>, PaneStateV>::empty(),
    {
        Registry { entries: Vec::new() }
    }

    /// The current state of the pane named `pane_id`, if any.
    pub fn get(&self, pane_id: &String) -> (r: Option<&TogglerPaneState>)
        requires
            self.wf(),
        ensures
            match r {
                Option::Some(state) => self@.contains_key(pane_id@) && state@ == self@[pane_id@],
                Option::None => !self@.contains_key(pane_id@),
            },
    {
        let n = self.entries.len();
        let mut i: usize = 0;
        while i < n
            invariant
                self.wf(),
                n == self.entries@.len(),
                i <= n,
                forall|j: int| 0 <= j < i ==> self.entries@[j].0@ != pane_id@,
            decreases n - i,
        {
            let entry = &self.entries[i];
            if entry.0 == *pane_id {
                proof {
                    lemma_entries_map_index(self.entries@, i as int);
                }
                return Option::Some(&entry.1);
            }
            i = i + 1;
        }
        proof {
            lemma_entries_map_contains(self.entries@, pane_id@);
        }
        Option::None
    }

    /// Record `state` for `pane_id`, replacing any previous entry.
    pub fn insert(&mut self, pane_id: String, state: TogglerPaneState)
        requires
            old(self).wf(),
        ensures
            final(self).wf(),
            final(self)@ == old(self)@.insert(pane_id@, state@),
    {
        self.remove_entry(&pane_id);
        let ghost pruned = self.entries@;
        self.entries.push((pane_id, state));
        proof {
            assert(self.entries@.drop_last() =~= pruned);
            assert(self@ =~= old(self)@.insert(pane_id@, state@));
        }
    }

    /// Drop the entry for `pane_id`, returning the state it held.
    pub fn remove(&mut self, pane_id: &String) -> (r: Option<TogglerPaneState>)
        requires
            old(self).wf(),
        ensures
            final(self).wf(),
            final(self)@ == old(self)@.remove(pane_id@),
            match r {
                Option::Some(state) => old(self)@.contains_key(pane_id@) && state@ == old(
                    self,
                )@[pane_id@],
                Option::None => !old(self)@.contains_key(pane_id@),
            },
    {
        self.remove_entry(pane_id)
    }

    fn remove_entry(&mut self, pane_id: &String) -> (r: Option<TogglerPaneState>)
        requires
            old(self).wf(),
        ensures
            final(self).wf(),
            final(self)@ == old(self)@.remove(pane_id@),
            forall|j: int|
                0 <= j < final(self).entries@.len() ==> final(self).entries@[j].0@ != pane_id@,
            match r {
                Option::Some(state) => old(self)@.contains_key(pane_id@) && state@ == old(
                    self,
                )@[pane_id@],
                Option::None => !old(self)@.contains_key(pane_id@),
            },
    {
        let n = self.entries.len();
        let mut i: usize = 0;
        while i < n
            invariant
                self.wf(),
                self == old(self),
                n == self.entries@.len(),
                i <= n,
                forall|j: int| 0 <= j < i ==> self.entries@[j].0@ != pane_id@,
            decreases n - i,
        {
            if self.entries[i].0 == *pane_id {
                proof {
                    lemma_entries_map_index(self.entries@, i as int);
                    lemma_entries_map_remove(self.entries@, i as int);
                }
                let removed = self.entries.remove(i);
                proof {
                    assert(forall|j: int|
                        0 <= j < self.entries@.len() ==> self.entries@[j].0@ != pane_id@);
                }
                return Option::Some(removed.1);
            }
            i = i + 1;
        }
        proof {
            lemma_entries_map_contains(self.entries@, pane_id@);
            assert(self@ =~= self@.remove(pane_id@));
        }
        Option::None
    }

    /// Reverse lookup: the identifier whose entry carries the host handle
    /// `zellij_pane_id`, scanning current entries.  This is the only way to
    /// recover the logical pane behind a termination notification, which
    /// carries no correlation context.
    pub fn find_by_handle(&self, zellij_pane_id: u32) -> (r: Option<&String>)
        requires
            self.wf(),
        ensures
            match r {
                Option::Some(pane_id) => self@.contains_key(pane_id@) && state_handle(
                    self@[pane_id@],
                ) == Option::Some(zellij_pane_id),
                Option::None => forall|k: Seq<char>|
                    self@.contains_key(k) ==> state_handle(self@[k]) != Option::Some(
                        zellij_pane_id,
                    ),
            },
    {
        let n = self.entries.len();
        let mut i: usize = 0;
        while i < n
            invariant
                self.wf(),
                n == self.entries@.len(),
                i <= n,
                forall|j: int|
                    0 <= j < i ==> state_handle(self.entries@[j].1@) != Option::Some(
                        zellij_pane_id,
                    ),
            decreases n - i,
        {
            let entry = &self.entries[i];
            let matches_handle = match &entry.1 {
                TogglerPaneState::Opening { .. } => false,
                TogglerPaneState::Opened { zellij_pane_id: handle } => *handle == zellij_pane_id,
                TogglerPaneState::Closing { zellij_pane_id: handle, .. } => *handle
                    == zellij_pane_id,
            };
            if matches_handle {
                proof {
                    lemma_entries_map_index(self.entries@, i as int);
                }
                return Option::Some(&entry.0);
            }
            i = i + 1;
        }
        proof {
            assert forall|k: Seq<char>| self@.contains_key(k) implies state_handle(self@[k])
                != Option::Some(zellij_pane_id) by {
                lemma_entries_map_contains(self.entries@, k);
                let j = choose|j: int| 0 <= j < self.entries@.len() && self.entries@[j].0@ == k;
                lemma_entries_map_index(self.entries@, j);
            }
        }
        Option::None
    }
}

} // verus!
