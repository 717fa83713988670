//! Per-user records, and each user's progress through the stages.
use vstd::prelude::*;

verus! {

/// The stage a user is on, given the recorded progress: 1 when absent.
pub open spec fn spec_current(m: Map<u64, usize>, user: u64) -> usize {
    if m.contains_key(user) {
        m[user]
    } else {
        1
    }
}

/// The stage after `cur`; the largest index stays where it is.
pub open spec fn next_index(cur: usize) -> usize {
    if cur < usize::MAX {
        (cur + 1) as usize
    } else {
        cur
    }
}

/// The progress after one `advance` of `user`.
pub open spec fn spec_advance(m: Map<u64, usize>, user: u64) -> Map<u64, usize> {
    m.insert(user, next_index(spec_current(m, user)))
}

/// The progress after `k` advances of `user`.
pub open spec fn advanced_times(m: Map<u64, usize>, user: u64, k: nat) -> Map<u64, usize>
    decreases k,
{
    if k == 0 {
        m
    } else {
        spec_advance(advanced_times(m, user, (k - 1) as nat), user)
    }
}

/// A user with no recorded progress who advances `k` times stands on stage
/// `1 + k`, and every advance moved them forward, while the index fits.
pub proof fn lemma_advance_counts(m: Map<u64, usize>, user: u64, k: nat)
    requires
        !m.contains_key(user),
        1 + k <= usize::MAX,
    ensures
        spec_current(advanced_times(m, user, k), user) == 1 + k,
        forall|j: nat| j < k ==> #[trigger] spec_current(advanced_times(m, user, j), user)
            < spec_current(advanced_times(m, user, k), user),
    decreases k,
{
    if k > 0 {
        lemma_advance_counts(m, user, (k - 1) as nat);
        assert forall|j: nat| j < k implies #[trigger] spec_current(advanced_times(m, user, j), user)
            < spec_current(advanced_times(m, user, k), user) by {
            if j < k - 1 {
                assert(spec_current(advanced_times(m, user, j), user) < spec_current(
                    advanced_times(m, user, (k - 1) as nat),
                    user,
                ));
            }
        }
    }
}

/// A key that can be compared in executable code.
pub trait MapKey: Copy {
    fn same(&self, other: &Self) -> (r: bool)
        ensures
            r == (*self == *other),
    ;
}

impl MapKey for u64 {
    fn same(&self, other: &u64) -> (r: bool) {
        *self == *other
    }
}

impl MapKey for u128 {
    fn same(&self, other: &u128) -> (r: bool) {
        *self == *other
    }
}

/// A small map kept as a list: each key at most once, in the order first
/// recorded.
#[verifier::reject_recursive_types(K)]
pub struct KeyedMap<K, V> {
    entries: Vec<(K, V)>,
    model: Ghost<Map<K, V>>,
}

/// A per-user record.
pub type UserMap<V> = KeyedMap<u64, V>;

/// Each user's progress: the 1-based index of the stage they are attempting.
pub type ProgressTracker = UserMap<usize>;

impl<K, V> View for KeyedMap<K, V> {
    type V = Map<K, V>;

    closed spec fn view(&self) -> Map<K, V> {
        self.model@
    }
}

impl<K: MapKey, V: Copy> KeyedMap<K, V> {
    /// The list holds each user at most once and agrees with the map.
    pub closed spec fn wf(&self) -> bool {
        &&& forall|i: int| 0 <= i < self.entries@.len() ==> {
            &&& self.model@.contains_key(#[trigger] self.entries@[i].0)
            &&& self.model@[self.entries@[i].0] == self.entries@[i].1
        }
        &&& forall|i: int, j: int|
            0 <= i < j < self.entries@.len() ==> #[trigger] self.entries@[i].0 != #[trigger] self.entries@[j].0
        &&& forall|k: K| #[trigger] self.model@.contains_key(k) ==> exists|i: int|
            0 <= i < self.entries@.len() && #[trigger] self.entries@[i].0 == k
    }

    pub fn new() -> (r: KeyedMap<K, V>)
        ensures
            r.wf(),
            r@ == Map::<K, V>::empty(),
    {
        KeyedMap { entries: Vec::new(), model: Ghost(Map::empty()) }
    }

    fn position(&self, user: K) -> (r: Option<usize>)
        requires
            self.wf(),
        ensures
            match r {
                Some(i) => i < self.entries@.len() && self.entries@[i as int].0 == user,
                None => !self@.contains_key(user),
            },
    {
        let mut i: usize = 0;
        while i < self.entries.len()
            invariant
                i <= self.entries@.len(),
                forall|j: int| 0 <= j < i ==> #[trigger] self.entries@[j].0 != user,
            decreases self.entries.len() - i,
        {
            if self.entries[i].0.same(&user) {
                return Some(i);
            }
            i += 1;
        }
        None
    }

    /// The value recorded for `user`.
    pub fn get(&self, user: K) -> (r: Option<V>)
        requires
            self.wf(),
        ensures
            r == (if self@.contains_key(user) { Some(self@[user]) } else { None }),
    {
        match self.position(user) {
            Some(i) => Some(self.entries[i].1),
            None => None,
        }
    }

    /// Records `value` for `user`.
    pub fn set(&mut self, user: K, value: V)
        requires
            old(self).wf(),
        ensures
            final(self).wf(),
            final(self)@ == old(self)@.insert(user, value),
    {
        match self.position(user) {
            Some(i) => {
                self.entries.set(i, (user, value));
                self.model = Ghost(self.model@.insert(user, value));
                assert forall|k: K| #[trigger] self.model@.contains_key(k) implies exists|j: int|
                    0 <= j < self.entries@.len() && #[trigger] self.entries@[j].0 == k by {
                    if k != user {
                        let j = choose|j: int| 0 <= j < old(self).entries@.len() && #[trigger] old(self).entries@[j].0 == k;
                        assert(self.entries@[j].0 == k);
                    } else {
                        assert(self.entries@[i as int].0 == k);
                    }
                }
            },
            None => {
                self.entries.push((user, value));
                self.model = Ghost(self.model@.insert(user, value));
                assert forall|k: K| #[trigger] self.model@.contains_key(k) implies exists|j: int|
                    0 <= j < self.entries@.len() && #[trigger] self.entries@[j].0 == k by {
                    if k != user {
                        let j = choose|j: int| 0 <= j < old(self).entries@.len() && #[trigger] old(self).entries@[j].0 == k;
                        assert(self.entries@[j].0 == k);
                    } else {
                        assert(self.entries@[old(self).entries@.len() as int].0 == k);
                    }
                }
            },
        }
    }

    /// Forgets `user`.
    pub fn remove(&mut self, user: K)
        requires
            old(self).wf(),
        ensures
            final(self).wf(),
            final(self)@ == old(self)@.remove(user),
    {
        match self.position(user) {
            Some(i) => {
                let ghost prev = self.entries@;
                self.entries.remove(i);
                self.model = Ghost(self.model@.remove(user));
                assert forall|a: int| 0 <= a < self.entries@.len() implies {
                    &&& self.model@.contains_key(#[trigger] self.entries@[a].0)
                    &&& self.model@[self.entries@[a].0] == self.entries@[a].1
                } by {
                    if a < i {
                        assert(self.entries@[a] == prev[a]);
                    } else {
                        assert(self.entries@[a] == prev[a + 1]);
                    }
                }
                assert forall|a: int, b: int| 0 <= a < b < self.entries@.len() implies #[trigger] self.entries@[a].0
                    != #[trigger] self.entries@[b].0 by {
                    let pa = if a < i { a } else { a + 1 };
                    let pb = if b < i { b } else { b + 1 };
                    assert(self.entries@[a] == prev[pa]);
                    assert(self.entries@[b] == prev[pb]);
                }
                assert forall|k: K| #[trigger] self.model@.contains_key(k) implies exists|j: int|
                    0 <= j < self.entries@.len() && #[trigger] self.entries@[j].0 == k by {
                    let j = choose|j: int| 0 <= j < prev.len() && #[trigger] prev[j].0 == k;
                    if j < i {
                        assert(self.entries@[j].0 == k);
                    } else {
                        assert(j != i);
                        assert(self.entries@[j - 1].0 == k);
                    }
                }
            },
            None => {
                assert(self.model@.remove(user) =~= self.model@);
            },
        }
    }

    /// Every recorded (user, value) pair, each user once.
    pub fn entries(&self) -> (r: Vec<(K, V)>)
        requires
            self.wf(),
        ensures
            forall|i: int| 0 <= i < r@.len() ==> {
                &&& self@.contains_key(#[trigger] r@[i].0)
                &&& self@[r@[i].0] == r@[i].1
            },
            forall|i: int, j: int| 0 <= i < j < r@.len() ==> #[trigger] r@[i].0 != #[trigger] r@[j].0,
            forall|k: K| #[trigger] self@.contains_key(k) ==> exists|i: int| 0 <= i < r@.len() && #[trigger] r@[i].0 == k,
    {
        let mut r: Vec<(K, V)> = Vec::new();
        let mut i: usize = 0;
        while i < self.entries.len()
            invariant
                i <= self.entries@.len(),
                r@ == self.entries@.subrange(0, i as int),
            decreases self.entries.len() - i,
        {
            r.push(self.entries[i]);
            i += 1;
        }
        assert(r@ == self.entries@);
        r
    }
}

impl UserMap<usize> {
    /// The stage `user` is attempting: 1 when nothing is recorded.
    pub fn current(&self, user: u64) -> (r: usize)
        requires
            self.wf(),
        ensures
            r == spec_current(self@, user),
    {
        match self.get(user) {
            Some(v) => v,
            None => 1,
        }
    }

    /// Moves `user` one stage forward and returns the new stage; the
    /// largest index is never passed.
    pub fn advance(&mut self, user: u64) -> (r: usize)
        requires
            old(self).wf(),
        ensures
            final(self).wf(),
            final(self)@ == spec_advance(old(self)@, user),
            r == spec_current(final(self)@, user),
            r == next_index(spec_current(old(self)@, user)),
    {
        let cur = self.current(user);
        let next = if cur < usize::MAX { cur + 1 } else { cur };
        self.set(user, next);
        next
    }

    /// Forgets `user`, who then starts again at stage 1.
    pub fn reset(&mut self, user: u64)
        requires
            old(self).wf(),
        ensures
            final(self).wf(),
            final(self)@ == old(self)@.remove(user),
    {
        self.remove(user);
    }
}

} // verus!
