//! The two per-user throttles: retries after a wrong answer, and operator
//! alerts about users answering the wrong stage. Times are milliseconds of a
//! monotonic clock that the caller reads.
use vstd::prelude::*;
use crate::progress::{KeyedMap, MapKey, UserMap};

verus! {

/// How long a user waits after a wrong answer before answering that stage again.
pub const WRONG_ANSWER_COOLDOWN_MS: u64 = 150000;

/// How long after one alert about a user another one stays quiet.
pub const WRONG_STAGE_ALERT_COOLDOWN_MS: u64 = 1800000;

/// The time left of a window of `window` ms that began at `last`, or none
/// once it has run out. A clock reading before `last` counts as no time passed.
pub open spec fn spec_remaining(last: u64, window: u64, now: u64) -> Option<u64> {
    let elapsed: int = if now >= last { now - last } else { 0 };
    if elapsed < window {
        Some((window - elapsed) as u64)
    } else {
        None
    }
}

/// The time left of a window that may never have begun.
pub open spec fn spec_cooldown(last: Option<u64>, window: u64, now: u64) -> Option<u64> {
    match last {
        Some(t) => spec_remaining(t, window, now),
        None => None,
    }
}

/// Reading a cooldown twice with nothing recorded in between gives the same
/// answer for the same clock reading. As the clock moves on, the time left
/// only shrinks and is never zero, by exactly the time that passed once the
/// clock has reached the stamp, and once the window is over it stays over.
pub proof fn lemma_cooldown_monotone(last: Option<u64>, window: u64, t1: u64, t2: u64)
    requires
        t1 <= t2,
    ensures
        spec_cooldown(last, window, t1) is Some ==> 0 < spec_cooldown(last, window, t1)->0 <= window,
        spec_cooldown(last, window, t2) is Some ==> {
            &&& spec_cooldown(last, window, t1) is Some
            &&& spec_cooldown(last, window, t2)->0 <= spec_cooldown(last, window, t1)->0
        },
        last is Some && last->0 <= t1 && spec_cooldown(last, window, t2) is Some ==> spec_cooldown(last, window, t1)->0
            - spec_cooldown(last, window, t2)->0 == t2 - t1,
{
}

/// The key under which a wrong answer of `user` on stage `stage` is kept.
pub open spec fn answer_key(user: u64, stage: u16) -> u128 {
    ((user as int) * 65536 + (stage as int)) as u128
}

/// Distinct (user, stage) pairs are kept under distinct keys.
pub proof fn lemma_answer_key_injective(u1: u64, s1: u16, u2: u64, s2: u16)
    ensures
        answer_key(u1, s1) == answer_key(u2, s2) <==> (u1 == u2 && s1 == s2),
{
    let a1 = u1 as int;
    let a2 = u2 as int;
    let b1 = s1 as int;
    let b2 = s2 as int;
    if a1 * 65536 + b1 == a2 * 65536 + b2 {
        assert(a1 == a2 && b1 == b2) by (nonlinear_arith)
            requires
                a1 * 65536 + b1 == a2 * 65536 + b2,
                0 <= b1 < 65536,
                0 <= b2 < 65536,
        ;
    }
}

/// Time left of the window `window` that began at `last`.
pub fn remaining(last: u64, window: u64, now: u64) -> (r: Option<u64>)
    ensures
        r == spec_remaining(last, window, now),
{
    let elapsed: u64 = if now >= last { now - last } else { 0 };
    if elapsed < window {
        Some(window - elapsed)
    } else {
        None
    }
}

impl<K: MapKey> KeyedMap<K, u64> {
    /// Forgets every time stamp whose window of `window` ms is over at `now`.
    pub fn sweep_expired(&mut self, window: u64, now: u64)
        requires
            old(self).wf(),
        ensures
            final(self).wf(),
            forall|k: K| #[trigger] final(self)@.contains_key(k) <==> (old(self)@.contains_key(k) && spec_remaining(
                old(self)@[k],
                window,
                now,
            ) is Some),
            forall|k: K| #[trigger] final(self)@.contains_key(k) ==> final(self)@[k] == old(self)@[k],
    {
        let snap = self.entries();
        let ghost m0 = self@;
        let mut i: usize = 0;
        while i < snap.len()
            invariant
                self.wf(),
                m0 == old(self)@,
                i <= snap@.len(),
                forall|j: int| 0 <= j < snap@.len() ==> {
                    &&& m0.contains_key(#[trigger] snap@[j].0)
                    &&& m0[snap@[j].0] == snap@[j].1
                },
                forall|a: int, b: int| 0 <= a < b < snap@.len() ==> #[trigger] snap@[a].0 != #[trigger] snap@[b].0,
                forall|k: K| #[trigger] m0.contains_key(k) ==> exists|j: int| 0 <= j < snap@.len() && #[trigger] snap@[j].0 == k,
                forall|j: int| 0 <= j < i ==> (#[trigger] self@.contains_key(snap@[j].0) <==> spec_remaining(
                    snap@[j].1,
                    window,
                    now,
                ) is Some),
                forall|j: int| i <= j < snap@.len() ==> #[trigger] self@.contains_key(snap@[j].0),
                forall|k: K| #[trigger] self@.contains_key(k) ==> m0.contains_key(k) && self@[k] == m0[k],
            decreases snap.len() - i,
        {
            let (k, t) = snap[i];
            if remaining(t, window, now).is_none() {
                let ghost prev = self@;
                self.remove(k);
                assert forall|j: int| 0 <= j < snap@.len() && j != i implies (#[trigger] self@.contains_key(snap@[j].0)
                    <==> prev.contains_key(snap@[j].0)) by {
                    if j < i {
                        assert(snap@[j].0 != snap@[i as int].0);
                    } else {
                        assert(snap@[i as int].0 != snap@[j].0);
                    }
                }
            }
            i += 1;
        }
        assert forall|k: K| #[trigger] self@.contains_key(k) <==> (m0.contains_key(k) && spec_remaining(m0[k], window, now) is Some) by {
            if m0.contains_key(k) {
                let j = choose|j: int| 0 <= j < snap@.len() && #[trigger] snap@[j].0 == k;
                assert(self@.contains_key(snap@[j].0) <==> spec_remaining(snap@[j].1, window, now) is Some);
            }
        }
    }
}

/// The last time each throttle fired, per user.
pub struct CooldownHandler {
    wrong_answer: KeyedMap<u128, u64>,
    wrong_question: UserMap<u64>,
}

impl CooldownHandler {
    pub closed spec fn wf(&self) -> bool {
        self.wrong_answer.wf() && self.wrong_question.wf()
    }

    /// When `user` last gave a wrong answer to stage `stage`.
    pub closed spec fn last_wrong_answer(&self, user: u64, stage: u16) -> Option<u64> {
        let k = answer_key(user, stage);
        if self.wrong_answer@.contains_key(k) {
            Some(self.wrong_answer@[k])
        } else {
            None
        }
    }

    /// When the last alert about `user` answering the wrong stage went out.
    pub closed spec fn last_wrong_stage_alert(&self, user: u64) -> Option<u64> {
        if self.wrong_question@.contains_key(user) {
            Some(self.wrong_question@[user])
        } else {
            None
        }
    }

    pub fn new() -> (r: CooldownHandler)
        ensures
            r.wf(),
            forall|u: u64, s: u16| #[trigger] r.last_wrong_answer(u, s).is_none(),
            forall|u: u64| #[trigger] r.last_wrong_stage_alert(u).is_none(),
    {
        CooldownHandler { wrong_answer: KeyedMap::new(), wrong_question: KeyedMap::new() }
    }

    /// Time left before `user` may answer stage `stage` again, if any.
    pub fn check_cooldown(&self, user: u64, stage: u16, now: u64) -> (r: Option<u64>)
        requires
            self.wf(),
        ensures
            r == spec_cooldown(self.last_wrong_answer(user, stage), WRONG_ANSWER_COOLDOWN_MS, now),
    {
        let k: u128 = user as u128 * 65536 + stage as u128;
        assert(k == answer_key(user, stage));
        match self.wrong_answer.get(k) {
            Some(t) => remaining(t, WRONG_ANSWER_COOLDOWN_MS, now),
            None => None,
        }
    }

    /// Stamps a wrong answer of `user` on stage `stage` at `now`.
    pub fn wrong_answer_cooldown_handler(&mut self, user: u64, stage: u16, now: u64)
        requires
            old(self).wf(),
        ensures
            final(self).wf(),
            final(self).last_wrong_answer(user, stage) == Some(now),
            forall|u: u64, s: u16| !(u == user && s == stage) ==> #[trigger] final(self).last_wrong_answer(u, s)
                == old(self).last_wrong_answer(u, s),
            forall|u: u64| #[trigger] final(self).last_wrong_stage_alert(u) == old(self).last_wrong_stage_alert(u),
    {
        let k: u128 = user as u128 * 65536 + stage as u128;
        assert(k == answer_key(user, stage));
        self.wrong_answer.set(k, now);
        assert forall|u: u64, s: u16| !(u == user && s == stage) implies #[trigger] self.last_wrong_answer(u, s)
            == old(self).last_wrong_answer(u, s) by {
            lemma_answer_key_injective(u, s, user, stage);
        }
    }

    /// Whether an alert about `user` went out less than the alert window ago.
    pub fn check_wrong_question_cooldown(&self, user: u64, now: u64) -> (r: bool)
        requires
            self.wf(),
        ensures
            r == spec_cooldown(self.last_wrong_stage_alert(user), WRONG_STAGE_ALERT_COOLDOWN_MS, now).is_some(),
    {
        match self.wrong_question.get(user) {
            Some(t) => remaining(t, WRONG_STAGE_ALERT_COOLDOWN_MS, now).is_some(),
            None => false,
        }
    }

    /// Stamps an alert about `user` at `now`.
    pub fn wrong_question_cooldown_handler(&mut self, user: u64, now: u64)
        requires
            old(self).wf(),
        ensures
            final(self).wf(),
            final(self).last_wrong_stage_alert(user) == Some(now),
            forall|u: u64| u != user ==> #[trigger] final(self).last_wrong_stage_alert(u)
                == old(self).last_wrong_stage_alert(u),
            forall|u: u64, s: u16| #[trigger] final(self).last_wrong_answer(u, s) == old(self).last_wrong_answer(u, s),
    {
        self.wrong_question.set(user, now);
    }

    /// Forgets the wrong answers of `user` on stages `0..=last_stage`.
    pub fn clear_cooldown(&mut self, user: u64, last_stage: u16)
        requires
            old(self).wf(),
        ensures
            final(self).wf(),
            forall|s: u16| s <= last_stage ==> #[trigger] final(self).last_wrong_answer(user, s).is_none(),
            forall|u: u64, s: u16| !(u == user && s <= last_stage) ==> #[trigger] final(self).last_wrong_answer(u, s)
                == old(self).last_wrong_answer(u, s),
            forall|u: u64| #[trigger] final(self).last_wrong_stage_alert(u) == old(self).last_wrong_stage_alert(u),
    {
        let mut s: u16 = 0;
        loop
            invariant
                self.wf(),
                s <= last_stage,
                forall|t: u16| t < s ==> #[trigger] self.last_wrong_answer(user, t).is_none(),
                forall|u: u64, t: u16| !(u == user && t < s) ==> #[trigger] self.last_wrong_answer(u, t)
                    == old(self).last_wrong_answer(u, t),
                forall|u: u64| #[trigger] self.last_wrong_stage_alert(u) == old(self).last_wrong_stage_alert(u),
            decreases last_stage - s,
        {
            let k: u128 = user as u128 * 65536 + s as u128;
            assert(k == answer_key(user, s));
            let ghost prev = *self;
            self.wrong_answer.remove(k);
            assert(self.last_wrong_answer(user, s).is_none());
            assert forall|u: u64| #[trigger] self.last_wrong_stage_alert(u) == prev.last_wrong_stage_alert(u) by {}
            assert forall|u: u64, t: u16| !(u == user && t == s) implies #[trigger] self.last_wrong_answer(u, t)
                == prev.last_wrong_answer(u, t) by {
                lemma_answer_key_injective(u, t, user, s);
            }
            if s == last_stage {
                return;
            }
            s += 1;
        }
    }

    /// Forgets the time stamps whose window is over at `now`, so that the
    /// throttles hold only users who are still held back.
    pub fn sweep_expired(&mut self, now: u64)
        requires
            old(self).wf(),
        ensures
            final(self).wf(),
            forall|u: u64, s: u16| #[trigger] final(self).last_wrong_answer(u, s) == match old(self).last_wrong_answer(u, s) {
                Some(t) => if spec_remaining(t, WRONG_ANSWER_COOLDOWN_MS, now) is Some { Some(t) } else { None },
                None => None,
            },
            forall|u: u64| #[trigger] final(self).last_wrong_stage_alert(u) == match old(self).last_wrong_stage_alert(u) {
                Some(t) => if spec_remaining(t, WRONG_STAGE_ALERT_COOLDOWN_MS, now) is Some { Some(t) } else { None },
                None => None,
            },
    {
        self.wrong_answer.sweep_expired(WRONG_ANSWER_COOLDOWN_MS, now);
        self.wrong_question.sweep_expired(WRONG_STAGE_ALERT_COOLDOWN_MS, now);
    }

    /// Forgets every wrong answer.
    pub fn clear_all_cooldowns(&mut self)
        requires
            old(self).wf(),
        ensures
            final(self).wf(),
            forall|u: u64, s: u16| #[trigger] final(self).last_wrong_answer(u, s).is_none(),
            forall|u: u64| #[trigger] final(self).last_wrong_stage_alert(u) == old(self).last_wrong_stage_alert(u),
    {
        self.wrong_answer = KeyedMap::new();
    }
}

} // verus!
