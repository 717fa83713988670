//! The room state: stages, per-user progress, error flags, cooldowns and
//! winners, with the decisions taken on each interaction.
use vstd::prelude::*;
use crate::cooldown::CooldownHandler;
use crate::progress::{next_index, spec_advance, spec_current, ProgressTracker, UserMap};
use crate::stage::{parts_model, patterns_compile, Question};
use crate::transition::ErrorFlag;
use crate::winners::Winners;

verus! {

/// The error flag recorded in `m` for `user`: absent is clear, `false` is
/// still retrying, `true` is failed for good.
pub open spec fn flag_of(m: Map<u64, bool>, user: u64) -> ErrorFlag {
    if !m.contains_key(user) {
        ErrorFlag::Clear
    } else if m[user] {
        ErrorFlag::HardFailed
    } else {
        ErrorFlag::PendingRetry
    }
}

/// Why a transition could not be planned.
#[derive(PartialEq, Eq, Structural, Clone, Copy, Debug)]
pub enum MoveError {
    /// No stage shows in the answered channel.
    UnknownChannel,
    /// The next stage has no channel yet.
    NextChannelMissing,
}

/// Why an operator's stage override was refused or only half done.
#[derive(PartialEq, Eq, Structural, Clone, Copy, Debug)]
pub enum SetQuestionError {
    /// Stages count from 1.
    ZeroStage,
    /// The progress was set, but the target stage or its role is missing.
    RoleNotFound,
}

pub struct EscapeRoom {
    pub active: bool,
    pub guild: Option<u64>,
    pub winners: Winners,
    pub error_channel: Option<u64>,
    pub analytics_channel: Option<u64>,
    pub questions: Vec<Question>,
    pub user_progress: ProgressTracker,
    /// When each user started, and finished if they did, in seconds.
    pub start_end_time: UserMap<(u64, Option<u64>)>,
    /// Users whose permission change failed; `true` once retries ran out.
    pub reprocessing: UserMap<bool>,
    pub cooldowns: CooldownHandler,
}

impl EscapeRoom {
    pub open spec fn wf(&self) -> bool {
        &&& self.winners.wf()
        &&& self.user_progress.wf()
        &&& self.start_end_time.wf()
        &&& self.reprocessing.wf()
        &&& self.cooldowns.wf()
    }

    pub fn new() -> (r: EscapeRoom)
        ensures
            r.wf(),
            !r.active,
            r.questions@.len() == 0,
            r.user_progress@ == Map::<u64, usize>::empty(),
            r.reprocessing@ == Map::<u64, bool>::empty(),
            r.winners.first_winner.is_none(),
            r.winners.winners@.len() == 0,
    {
        EscapeRoom {
            active: false,
            guild: None,
            winners: Winners::new(),
            error_channel: None,
            analytics_channel: None,
            questions: Vec::new(),
            user_progress: ProgressTracker::new(),
            start_end_time: UserMap::new(),
            reprocessing: UserMap::new(),
            cooldowns: CooldownHandler::new(),
        }
    }

    /// Whether every pattern of every stage compiles.
    pub fn patterns_valid(&self) -> (r: bool)
        ensures
            r == forall|i: int| 0 <= i < self.questions@.len() ==> patterns_compile(parts_model(&#[trigger] self.questions@[i])),
    {
        let mut i: usize = 0;
        while i < self.questions.len()
            invariant
                i <= self.questions@.len(),
                forall|k: int| 0 <= k < i ==> patterns_compile(parts_model(&#[trigger] self.questions@[k])),
            decreases self.questions.len() - i,
        {
            if !self.questions[i].patterns_valid() {
                return false;
            }
            i += 1;
        }
        true
    }

    /// Whether the game is running.
    pub fn get_status(&self) -> (r: bool)
        ensures
            r == self.active,
    {
        self.active
    }

    /// Starts or stops the game; returns the previous setting.
    pub fn set_status(&mut self, active: bool) -> (r: bool)
        ensures
            r == old(self).active,
            final(self).active == active,
            final(self).user_progress == old(self).user_progress,
            final(self).winners == old(self).winners,
    {
        let prev = self.active;
        self.active = active;
        prev
    }

    /// The stage `user` is attempting.
    pub fn get_user_question(&self, user: u64) -> (r: usize)
        requires
            self.wf(),
        ensures
            r == spec_current(self.user_progress@, user),
    {
        self.user_progress.current(user)
    }

    /// Moves `user` to the next stage and returns it.
    pub fn user_next_question(&mut self, user: u64) -> (r: usize)
        requires
            old(self).wf(),
        ensures
            final(self).wf(),
            final(self).user_progress@ == spec_advance(old(self).user_progress@, user),
            r == next_index(spec_current(old(self).user_progress@, user)),
            final(self).reprocessing@ == old(self).reprocessing@,
            final(self).winners == old(self).winners,
            final(self).active == old(self).active,
    {
        self.user_progress.advance(user)
    }

    /// Records the error state of `user`: none clears it, `Some(false)`
    /// marks it as retrying, `Some(true)` as failed for good.
    pub fn overwrite_err(&mut self, user: u64, set_and_retrying: Option<bool>)
        requires
            old(self).wf(),
        ensures
            final(self).wf(),
            final(self).reprocessing@ == match set_and_retrying {
                None => old(self).reprocessing@.remove(user),
                Some(b) => old(self).reprocessing@.insert(user, b),
            },
            final(self).user_progress == old(self).user_progress,
            final(self).winners == old(self).winners,
            final(self).active == old(self).active,
            final(self).questions == old(self).questions,
    {
        match set_and_retrying {
            None => {
                self.reprocessing.remove(user);
            },
            Some(b) => {
                self.reprocessing.set(user, b);
            },
        }
    }

    /// The recorded error state of `user`, as `overwrite_err` takes it.
    pub fn overwrite_err_check(&self, user: u64) -> (r: Option<bool>)
        requires
            self.wf(),
        ensures
            r == (if self.reprocessing@.contains_key(user) { Some(self.reprocessing@[user]) } else { None }),
    {
        self.reprocessing.get(user)
    }

    /// The error flag of `user`.
    pub fn error_flag(&self, user: u64) -> (r: ErrorFlag)
        requires
            self.wf(),
        ensures
            r == flag_of(self.reprocessing@, user),
    {
        match self.reprocessing.get(user) {
            Some(b) => if b {
                ErrorFlag::HardFailed
            } else {
                ErrorFlag::PendingRetry
            },
            None => ErrorFlag::Clear,
        }
    }

    /// An operator repaired the permissions of `user` by hand: the flag is
    /// cleared and the user moves on, with no remote operation attempted.
    pub fn fixed_err(&mut self, user: u64) -> (r: usize)
        requires
            old(self).wf(),
        ensures
            final(self).wf(),
            flag_of(final(self).reprocessing@, user) == ErrorFlag::Clear,
            final(self).reprocessing@ == old(self).reprocessing@.remove(user),
            final(self).user_progress@ == spec_advance(old(self).user_progress@, user),
            r == spec_current(final(self).user_progress@, user),
    {
        self.reprocessing.remove(user);
        self.user_progress.advance(user)
    }

    /// A member left, or rejoined: their progress is forgotten, so that they
    /// start again at stage 1.
    pub fn member_left(&mut self, user: u64)
        requires
            old(self).wf(),
        ensures
            final(self).wf(),
            final(self).user_progress@ == old(self).user_progress@.remove(user),
            spec_current(final(self).user_progress@, user) == 1,
            final(self).reprocessing@ == old(self).reprocessing@,
            final(self).winners == old(self).winners,
    {
        self.user_progress.reset(user);
    }
}

} // verus!
