//! The audio-cue trigger scheduler: a map from target seconds to cue
//! identifiers, plus the set of targets already fired during the current
//! cycle, so that each cue fires at most once per cycle.

use vstd::prelude::*;

verus! {

/// True when no two entries of `m` share a target second.
pub open spec fn keys_unique(m: Seq<(u64, String)>) -> bool {
    forall|i: int, j: int| 0 <= i < j < m.len() ==> m[i].0 != m[j].0
}

/// The mapping that a list of (second, cue) entries denotes.
pub open spec fn entries_map(m: Seq<(u64, String)>) -> Map<u64, Seq<char>> {
    Map::new(
        |k: u64| exists|i: int| 0 <= i < m.len() && m[i].0 == k,
        |k: u64|
            {
                let i = choose|i: int| 0 <= i < m.len() && m[i].0 == k;
                m[i].1@
            },
    )
}

/// With unique keys, the entry at position `i` is exactly what the denoted
/// mapping holds for that entry's key.
pub proof fn lemma_entries_map_at(m: Seq<(u64, String)>, i: int)
    requires
        keys_unique(m),
        0 <= i < m.len(),
    ensures
        entries_map(m).contains_key(m[i].0),
        entries_map(m)[m[i].0] == m[i].1@,
{
    let k = m[i].0;
    assert(exists|j: int| 0 <= j < m.len() && m[j].0 == k);
    let j = choose|j: int| 0 <= j < m.len() && m[j].0 == k;
    assert(j == i);
}

/// True when a poll at displayed duration `d` (milliseconds) is due to fire
/// against map `map` with fired history `fired`: the floor of the displayed
/// seconds is scheduled and has not fired this cycle.
pub open spec fn spec_fires(map: Map<u64, Seq<char>>, fired: Set<u64>, d: u64) -> bool {
    map.contains_key(d / 1000) && !fired.contains(d / 1000)
}

/// The target seconds emitted by polling each displayed duration of `ds` in
/// turn, starting from fired history `fired`.
pub open spec fn replay_polls(map: Map<u64, Seq<char>>, fired: Set<u64>, ds: Seq<u64>) -> Seq<u64>
    decreases ds.len(),
{
    if ds.len() == 0 {
        Seq::empty()
    } else {
        let sec = ds[0] / 1000;
        if spec_fires(map, fired, ds[0]) {
            seq![sec] + replay_polls(map, fired.insert(sec), ds.skip(1))
        } else {
            replay_polls(map, fired, ds.skip(1))
        }
    }
}

/// Law: between two resets, no target second fires twice. Whatever the map,
/// the starting fired history and the displayed-duration stream, the polls'
/// outputs are pairwise distinct, and none of them was already in the
/// history.
pub proof fn lemma_no_double_fire(map: Map<u64, Seq<char>>, fired: Set<u64>, ds: Seq<u64>)
    ensures
        forall|i: int|
            0 <= i < replay_polls(map, fired, ds).len() ==> !fired.contains(
                #[trigger] replay_polls(map, fired, ds)[i],
            ),
        forall|i: int, j: int|
            0 <= i < j < replay_polls(map, fired, ds).len() ==> replay_polls(map, fired, ds)[i]
                != replay_polls(map, fired, ds)[j],
    decreases ds.len(),
{
    if ds.len() > 0 {
        let sec = ds[0] / 1000;
        if spec_fires(map, fired, ds[0]) {
            let rest = replay_polls(map, fired.insert(sec), ds.skip(1));
            let out = replay_polls(map, fired, ds);
            lemma_no_double_fire(map, fired.insert(sec), ds.skip(1));
            assert(out == seq![sec] + rest);
            assert(out[0] == sec);
            assert forall|i: int| 0 < i < out.len() implies out[i] == rest[i - 1] by {}
            assert forall|i: int| 0 <= i < out.len() implies !fired.contains(out[i]) by {
                if i > 0 {
                    assert(!fired.insert(sec).contains(rest[i - 1]));
                }
            }
            assert forall|i: int, j: int| 0 <= i < j < out.len() implies out[i] != out[j] by {
                if i == 0 {
                    assert(!fired.insert(sec).contains(rest[j - 1]));
                    assert(rest[j - 1] != sec);
                }
            }
        } else {
            lemma_no_double_fire(map, fired, ds.skip(1));
            assert(replay_polls(map, fired, ds) == replay_polls(map, fired, ds.skip(1)));
        }
    } else {
        assert(replay_polls(map, fired, ds).len() == 0);
    }
}

/// The trigger scheduler: the active map from target second to cue
/// identifier, and the seconds already fired during the current cycle.
pub struct TriggerScheduler {
    map: Vec<(u64, String)>,
    fired: Vec<u64>,
}

impl TriggerScheduler {
    /// The active trigger map: target second to cue identifier.
    pub closed spec fn map_view(&self) -> Map<u64, Seq<char>> {
        entries_map(self.map@)
    }

    /// The target seconds already fired during the current cycle.
    pub closed spec fn fired_view(&self) -> Set<u64> {
        Set::new(|k: u64| self.fired@.contains(k))
    }

    /// The entries of the active map carry pairwise distinct target seconds.
    pub closed spec fn wf(&self) -> bool {
        keys_unique(self.map@)
    }

    /// A fresh scheduler: no triggers, nothing fired.
    pub fn new() -> (s: TriggerScheduler)
        ensures
            s.wf(),
            s.map_view() == Map::<u64, Seq<char>>::empty(),
            s.fired_view() == Set::<u64>::empty(),
    {
        let s = TriggerScheduler { map: Vec::new(), fired: Vec::new() };
        proof {
            assert(s.map_view() =~= Map::<u64, Seq<char>>::empty());
            assert(s.fired_view() =~= Set::<u64>::empty());
        }
        s
    }

    /// Replaces the active map wholesale and clears the fired history. The
    /// caller hands over entries with unique target seconds, as a parsed
    /// configuration provides them.
    pub fn load(&mut self, entries: Vec<(u64, String)>)
        requires
            keys_unique(entries@),
        ensures
            final(self).wf(),
            final(self).map_view() == entries_map(entries@),
            final(self).fired_view() == Set::<u64>::empty(),
    {
        self.map = entries;
        self.fired = Vec::new();
        proof {
            assert(self.fired_view() =~= Set::<u64>::empty());
        }
    }

    /// Clears the fired history, leaving the map as it is; called on a
    /// timer restart so every scheduled cue may fire again in the new cycle.
    pub fn reset(&mut self)
        ensures
            final(self).wf() == old(self).wf(),
            final(self).map_view() == old(self).map_view(),
            final(self).fired_view() == Set::<u64>::empty(),
    {
        self.fired.clear();
        proof {
            assert(self.fired_view() =~= Set::<u64>::empty());
        }
    }

    /// The position of the entry scheduled for second `sec`, if any.
    fn find_entry(&self, sec: u64) -> (r: Option<usize>)
        ensures
            match r {
                Some(i) => i < self.map@.len() && self.map@[i as int].0 == sec,
                None => !self.map_view().contains_key(sec),
            },
    {
        let mut i: usize = 0;
        while i < self.map.len()
            invariant
                i <= self.map@.len(),
                forall|j: int| 0 <= j < i ==> self.map@[j].0 != sec,
            decreases self.map@.len() - i,
        {
            if self.map[i].0 == sec {
                return Some(i);
            }
            i = i + 1;
        }
        None
    }

    /// True exactly when second `sec` has already fired this cycle.
    fn has_fired(&self, sec: u64) -> (r: bool)
        ensures
            r == self.fired_view().contains(sec),
    {
        let mut i: usize = 0;
        while i < self.fired.len()
            invariant
                i <= self.fired@.len(),
                forall|j: int| 0 <= j < i ==> self.fired@[j] != sec,
            decreases self.fired@.len() - i,
        {
            if self.fired[i] == sec {
                assert(self.fired@.contains(sec));
                return true;
            }
            i = i + 1;
        }
        assert(!self.fired@.contains(sec));
        false
    }

    /// Polls the scheduler with the displayed duration in milliseconds. If
    /// the floor of the displayed seconds is scheduled and has not fired
    /// this cycle, it is recorded as fired and its cue is returned; every
    /// other tick returns nothing. Safe to call every tick: once a second
    /// has fired it never fires again until the history is cleared.
    pub fn poll(&mut self, displayed_ms: u64) -> (r: Option<String>)
        requires
            old(self).wf(),
        ensures
            final(self).wf(),
            final(self).map_view() == old(self).map_view(),
            ({
                let sec = displayed_ms / 1000;
                if spec_fires(old(self).map_view(), old(self).fired_view(), displayed_ms) {
                    &&& r matches Some(cue) && cue@ == old(self).map_view()[sec]
                    &&& final(self).fired_view() == old(self).fired_view().insert(sec)
                } else {
                    &&& r is None
                    &&& final(self).fired_view() == old(self).fired_view()
                }
            }),
    {
        let sec = displayed_ms / 1000;
        match self.find_entry(sec) {
            Some(i) => {
                if self.has_fired(sec) {
                    None
                } else {
                    proof {
                        lemma_entries_map_at(self.map@, i as int);
                    }
                    self.fired.push(sec);
                    proof {
                        broadcast use vstd::seq_lib::lemma_seq_contains_after_push;

                        assert(self.fired_view() =~= old(self).fired_view().insert(sec));
                    }
                    Some(self.map[i].1.clone())
                }
            },
            None => None,
        }
    }
}

} // verus!
