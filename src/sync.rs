//! Planning and driving the permission transition of one user against the
//! room state. The caller performs each remote operation and reports back.
use vstd::prelude::*;
use crate::progress::{spec_advance, spec_current};
use crate::room::{flag_of, EscapeRoom, MoveError};
use crate::stage::Question;
use crate::transition::{
    next_action, ErrorFlag, RemoteOp, RetryDecision, Step, Transition, MAX_RETRIES, RETRY_DELAY_MS, SETTLE_DELAY_MS,
};

verus! {

/// Stage `i` is the first whose channel is `channel`.
pub open spec fn stage_of_channel(qs: Seq<Question>, channel: u64, i: int) -> bool {
    &&& 0 <= i < qs.len()
    &&& qs[i].channel == Some(channel)
    &&& forall|j: int| 0 <= j < i ==> #[trigger] qs[j].channel != Some(channel)
}

/// What makes a winner visible: the winners' channel, the winner role, and
/// for the first winner also the first-winner role, each when configured.
pub open spec fn winner_grants(channel: Option<u64>, role: Option<u64>, first_role: Option<u64>, first: bool) -> Seq<
    RemoteOp,
> {
    let a = match channel {
        Some(c) => seq![RemoteOp::ShowChannel(c)],
        None => Seq::empty(),
    };
    let b = match role {
        Some(r) => a.push(RemoteOp::GrantRole(r)),
        None => a,
    };
    match first_role {
        Some(r) => if first {
            b.push(RemoteOp::GrantRole(r))
        } else {
            b
        },
        None => b,
    }
}

impl EscapeRoom {
    /// Plans the transition of `user`, who answered the stage shown in
    /// `channel` correctly.
    pub fn plan_transition(&self, user: u64, channel: u64) -> (r: Result<Transition, MoveError>)
        ensures
            match r {
                Ok(t) => exists|i: int| {
                    &&& #[trigger] stage_of_channel(self.questions@, channel, i)
                    &&& t.user == user
                    &&& t.revoke == (if i == 0 { RemoteOp::HideChannel(channel) } else { RemoteOp::RemoveOverride(channel) })
                    &&& t.next_channel == (if i + 1 < self.questions@.len() { self.questions@[i + 1].channel } else { None })
                    &&& (i + 1 < self.questions@.len() ==> t.grants@ == seq![RemoteOp::ShowChannel(t.next_channel->0)])
                    &&& (i + 1 == self.questions@.len() ==> t.grants@.len() == 0)
                    &&& t.pos == 0 && t.retries == 0 && t.won.is_none() && !t.done
                },
                Err(MoveError::UnknownChannel) => forall|i: int| !#[trigger] stage_of_channel(self.questions@, channel, i),
                Err(MoveError::NextChannelMissing) => exists|i: int| {
                    &&& #[trigger] stage_of_channel(self.questions@, channel, i)
                    &&& i + 1 < self.questions@.len()
                    &&& self.questions@[i + 1].channel.is_none()
                },
            },
    {
        let mut i: usize = 0;
        while i < self.questions.len()
            invariant
                i <= self.questions@.len(),
                forall|j: int| 0 <= j < i ==> #[trigger] self.questions@[j].channel != Some(channel),
            decreases self.questions.len() - i,
        {
            if self.questions[i].channel == Some(channel) {
                assert(stage_of_channel(self.questions@, channel, i as int));
                let revoke = if i == 0 { RemoteOp::HideChannel(channel) } else { RemoteOp::RemoveOverride(channel) };
                if i + 1 < self.questions.len() {
                    match self.questions[i + 1].channel {
                        Some(next) => {
                            let mut grants: Vec<RemoteOp> = Vec::new();
                            grants.push(RemoteOp::ShowChannel(next));
                            return Ok(Transition {
                                user,
                                revoke,
                                next_channel: Some(next),
                                grants,
                                pos: 0,
                                retries: 0,
                                won: None,
                                done: false,
                            });
                        },
                        None => {
                            return Err(MoveError::NextChannelMissing);
                        },
                    }
                }
                return Ok(Transition {
                    user,
                    revoke,
                    next_channel: None,
                    grants: Vec::new(),
                    pos: 0,
                    retries: 0,
                    won: None,
                    done: false,
                });
            }
            i += 1;
        }
        proof {
            assert forall|k: int| !#[trigger] stage_of_channel(self.questions@, channel, k) by {
                if 0 <= k < self.questions@.len() {
                    assert(self.questions@[k].channel != Some(channel));
                }
            }
        }
        Err(MoveError::UnknownChannel)
    }

    fn winner_ops(&self, first: bool) -> (r: Vec<RemoteOp>)
        ensures
            r@ == winner_grants(
                self.winners.winner_channel,
                self.winners.winner_role,
                self.winners.first_winner_role,
                first,
            ),
    {
        let mut ops: Vec<RemoteOp> = Vec::new();
        if let Some(c) = self.winners.winner_channel {
            ops.push(RemoteOp::ShowChannel(c));
        }
        if let Some(r) = self.winners.winner_role {
            ops.push(RemoteOp::GrantRole(r));
        }
        if let Some(r) = self.winners.first_winner_role {
            if first {
                ops.push(RemoteOp::GrantRole(r));
            }
        }
        proof {
            let a: Seq<RemoteOp> = match self.winners.winner_channel {
                Some(c) => seq![RemoteOp::ShowChannel(c)],
                None => Seq::empty(),
            };
            assert(a.len() <= 1);
        }
        assert(ops@ =~= winner_grants(
            self.winners.winner_channel,
            self.winners.winner_role,
            self.winners.first_winner_role,
            first,
        ));
        ops
    }

    /// Takes the outcome of the operation that `t` had due (`ok` when it
    /// succeeded) and says what comes next.
    ///
    /// A success clears the user's error flag. A success of the hiding with
    /// no next stage records the user as a winner. Only a success of the last
    /// operation moves the user on. A failure sets the flag to retrying on
    /// the first failure of an operation and retries after a fixed delay;
    /// once the retries are used up the flag is failed for good and the
    /// transition ends with an escalation, the progress untouched.
    pub fn transition_result(&mut self, t: &mut Transition, ok: bool) -> (r: Step)
        requires
            old(self).wf(),
            old(t).running(),
        ensures
            final(self).wf(),
            final(t).user == old(t).user,
            final(t).revoke == old(t).revoke,
            final(t).next_channel == old(t).next_channel,
            !(ok && old(t).pos == 0 && old(t).next_channel.is_none()) ==> {
                &&& final(t).grants == old(t).grants
                &&& final(t).won == old(t).won
            },
            final(self).questions == old(self).questions,
            ok ==> flag_of(final(self).reprocessing@, old(t).user) == ErrorFlag::Clear,
            ok ==> final(t).pos == old(t).pos + 1 && final(t).retries == 0,
            ok && old(t).pos == 0 && old(t).next_channel.is_none() ==> {
                &&& final(t).won == Some(old(self).winners.first_winner.is_none())
                &&& final(self).winners.winners@ == old(self).winners.winners@.push(old(t).user)
                &&& final(t).grants@ == winner_grants(
                    old(self).winners.winner_channel,
                    old(self).winners.winner_role,
                    old(self).winners.first_winner_role,
                    old(self).winners.first_winner.is_none(),
                )
            },
            !(ok && old(t).pos == 0 && old(t).next_channel.is_none()) ==> final(self).winners == old(self).winners,
            !ok ==> final(self).user_progress@ == old(self).user_progress@,
            !ok && old(t).retries >= MAX_RETRIES ==> {
                &&& flag_of(final(self).reprocessing@, old(t).user) == ErrorFlag::HardFailed
                &&& r == Step::Escalate { user: old(t).user, op: old(t).spec_op(), revoking: old(t).pos == 0 }
                &&& final(t).done
            },
            !ok && old(t).retries < MAX_RETRIES ==> {
                &&& old(t).retries == 0 ==> flag_of(final(self).reprocessing@, old(t).user) == ErrorFlag::PendingRetry
                &&& old(t).retries > 0 ==> final(self).reprocessing@ == old(self).reprocessing@
                &&& r == Step::PerformAfter(RETRY_DELAY_MS, old(t).spec_op())
                &&& final(t).retries == old(t).retries + 1
                &&& final(t).pos == old(t).pos
                &&& final(t).grants == old(t).grants
                &&& final(t).running()
            },
            ok ==> match r {
                Step::Finished { user, new_index, won } => {
                    &&& user == old(t).user
                    &&& final(t).done
                    &&& won == final(t).won
                    &&& final(self).user_progress@ == spec_advance(old(self).user_progress@, user)
                    &&& new_index == spec_current(final(self).user_progress@, user)
                },
                Step::PerformAfter(d, op) => {
                    &&& final(self).user_progress@ == old(self).user_progress@
                    &&& final(t).running()
                    &&& final(t).pos == old(t).pos + 1
                    &&& final(t).retries == 0
                    &&& op == final(t).spec_op()
                    &&& d == (if old(t).pos == 0 { SETTLE_DELAY_MS } else { 0 })
                },
                Step::Escalate { .. } => false,
            },
            ok ==> (final(t).pos > final(t).grants@.len() <==> r is Finished),
    {
        let user = t.user;
        if ok {
            self.reprocessing.remove(user);
            if t.pos == 0 && t.next_channel.is_none() {
                let first = self.winners.claim(user);
                t.won = Some(first);
                t.grants = self.winner_ops(first);
                proof {
                    // the room's winner settings are unchanged by the claim
                    assert(self.winners.winner_channel == old(self).winners.winner_channel);
                }
            }
            t.pos = t.pos + 1;
            t.retries = 0;
            if t.pos > t.grants.len() {
                t.done = true;
                let new_index = self.user_progress.advance(user);
                Step::Finished { user, new_index, won: t.won }
            } else {
                let delay: u64 = if t.pos == 1 { SETTLE_DELAY_MS } else { 0 };
                Step::PerformAfter(delay, t.current_op())
            }
        } else {
            let op = t.current_op();
            match next_action(t.retries) {
                RetryDecision::Escalate => {
                    self.reprocessing.set(user, true);
                    t.done = true;
                    Step::Escalate { user, op, revoking: t.pos == 0 }
                },
                RetryDecision::RetryAfter(delay) => {
                    if t.retries == 0 {
                        self.reprocessing.set(user, false);
                    }
                    t.retries = t.retries + 1;
                    Step::PerformAfter(delay, op)
                },
            }
        }
    }
}

} // verus!
