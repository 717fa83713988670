//! What happens when a user presses a stage's submit control, and when the
//! answers they typed come back.
use vstd::prelude::*;
use crate::cooldown::{spec_cooldown, WRONG_ANSWER_COOLDOWN_MS, WRONG_STAGE_ALERT_COOLDOWN_MS};
use crate::progress::spec_current;
use crate::room::EscapeRoom;
use crate::stage::{inputs_model, parts_model, spec_matches, Question};
use crate::text::{decimal, push_decimal};
use vstd::string::*;

verus! {

/// What the caller does about a press.
#[derive(PartialEq, Eq, Structural, Clone, Copy, Debug)]
pub enum PressDecision {
    /// Nothing: the game is off, the control is unknown, or the press came
    /// from another channel than the stage's.
    Ignore,
    /// The user answered a stage they are not on; the press goes no further.
    Misplaced,
    /// The stage has no channel although it was answered.
    StageChannelMissing,
    /// The user answered wrongly too recently: milliseconds left.
    TooFast(u64),
    /// Collect the answers for the stage at this 0-based position.
    Ask(usize),
}

#[derive(PartialEq, Eq, Structural, Clone, Copy, Debug)]
pub struct PressReport {
    pub decision: PressDecision,
    /// The user finished the last stage without a recorded start.
    pub missing_start: bool,
    /// The stage the user is on, when they answered another one.
    pub expected: Option<usize>,
    /// Whether the operators are to be told about that now.
    pub alert: bool,
}

/// Stage `i` is the first whose control token is `id`.
pub open spec fn stage_of_token(qs: Seq<Question>, id: Seq<char>, i: int) -> bool {
    &&& 0 <= i < qs.len()
    &&& qs[i].custom_id is Some
    &&& qs[i].custom_id->0@ == id
    &&& forall|j: int| 0 <= j < i ==> !(#[trigger] qs[j].custom_id is Some && qs[j].custom_id->0@ == id)
}

/// The decision for a press on stage `i` by a user on stage `cur`, once the
/// game is on and the control known.
pub open spec fn spec_decision(
    q: Question,
    i: int,
    cur: usize,
    channel: u64,
    cooldown: Option<u64>,
) -> PressDecision {
    if cur != i + 1 && i != 0 {
        PressDecision::Misplaced
    } else {
        match q.channel {
            None => PressDecision::StageChannelMissing,
            Some(c) => if c != channel {
                PressDecision::Ignore
            } else {
                match cooldown {
                    Some(d) => PressDecision::TooFast(d),
                    None => PressDecision::Ask(i as usize),
                }
            },
        }
    }
}

/// A wait in whole seconds: `"M minutes, S seconds"`, or `"S seconds"`
/// under a minute.
pub open spec fn readable_duration(duration_ms: u64) -> Seq<char> {
    let seconds = duration_ms / 1000;
    let minutes = seconds / 60;
    let rest = seconds % 60;
    if minutes > 0 {
        decimal(minutes as nat) + " minutes, "@ + decimal(rest as nat) + " seconds"@
    } else {
        decimal(rest as nat) + " seconds"@
    }
}

/// Renders a wait of `duration_ms` milliseconds for a user.
pub fn format_duration_readable(duration_ms: u64) -> (r: String)
    ensures
        r@ == readable_duration(duration_ms),
{
    proof {
        reveal_strlit(" minutes, ");
        reveal_strlit(" seconds");
    }
    let seconds = duration_ms / 1000;
    let minutes = seconds / 60;
    let rest = seconds % 60;
    let mut s = String::new();
    if minutes > 0 {
        push_decimal(&mut s, minutes);
        s.append(" minutes, ");
    }
    push_decimal(&mut s, rest);
    s.append(" seconds");
    assert(s@ =~= readable_duration(duration_ms));
    s
}

impl EscapeRoom {
    fn find_token(&self, custom_id: &String) -> (r: Option<usize>)
        ensures
            match r {
                Some(i) => stage_of_token(self.questions@, custom_id@, i as int),
                None => forall|i: int| !#[trigger] stage_of_token(self.questions@, custom_id@, i),
            },
    {
        let mut i: usize = 0;
        while i < self.questions.len()
            invariant
                i <= self.questions@.len(),
                forall|j: int|
                    0 <= j < i ==> !(#[trigger] self.questions@[j].custom_id is Some
                        && self.questions@[j].custom_id->0@ == custom_id@),
            decreases self.questions.len() - i,
        {
            let found = match &self.questions[i].custom_id {
                Some(id) => id.eq(custom_id),
                None => false,
            };
            if found {
                return Some(i);
            }
            i += 1;
        }
        proof {
            assert forall|k: int| !#[trigger] stage_of_token(self.questions@, custom_id@, k) by {
                if 0 <= k < self.questions@.len() {
                    assert(!(self.questions@[k].custom_id is Some && self.questions@[k].custom_id->0@ == custom_id@));
                }
            }
        }
        None
    }

    /// Decides what a press of the control `custom_id` by `user` in
    /// `channel` leads to. `now` is the monotonic clock in milliseconds and
    /// `pressed_at` the press's time stamp in seconds.
    ///
    /// A press on the first stage records the start time; one on the last
    /// records the end time. A user who answers a stage other than their own
    /// is reported, with an operator alert at most once per alert window; on
    /// the first stage such a user is taken to have rejoined, their progress
    /// is forgotten and the press goes on.
    pub fn handle_press(&mut self, user: u64, custom_id: &String, channel: u64, now: u64, pressed_at: u64) -> (r:
        PressReport)
        requires
            old(self).wf(),
            old(self).questions@.len() <= u16::MAX,
        ensures
            final(self).wf(),
            final(self).questions == old(self).questions,
            final(self).winners == old(self).winners,
            final(self).reprocessing@ == old(self).reprocessing@,
            forall|u: u64, s: u16| #[trigger] final(self).cooldowns.last_wrong_answer(u, s)
                == old(self).cooldowns.last_wrong_answer(u, s),
            forall|u: u64| u != user ==> #[trigger] final(self).cooldowns.last_wrong_stage_alert(u)
                == old(self).cooldowns.last_wrong_stage_alert(u),
            !old(self).active || (forall|i: int| !#[trigger] stage_of_token(old(self).questions@, custom_id@, i)) ==> {
                &&& r == PressReport { decision: PressDecision::Ignore, missing_start: false, expected: None, alert: false }
                &&& final(self).user_progress@ == old(self).user_progress@
                &&& final(self).start_end_time@ == old(self).start_end_time@
                &&& final(self).cooldowns.last_wrong_stage_alert(user) == old(self).cooldowns.last_wrong_stage_alert(user)
            },
            forall|i: int| old(self).active && #[trigger] stage_of_token(old(self).questions@, custom_id@, i) ==> {
                let cur = spec_current(old(self).user_progress@, user);
                let misplaced = cur != i + 1;
                let times = old(self).start_end_time@;
                let last = old(self).questions@.len() - 1;
                &&& r.expected == (if misplaced { Some(cur) } else { None })
                &&& (misplaced && i == 0 ==> final(self).user_progress@ == old(self).user_progress@.remove(user))
                &&& (!(misplaced && i == 0) ==> final(self).user_progress@ == old(self).user_progress@)
                &&& (misplaced ==> r.alert == spec_cooldown(
                    old(self).cooldowns.last_wrong_stage_alert(user),
                    WRONG_STAGE_ALERT_COOLDOWN_MS,
                    now,
                ).is_none() && final(self).cooldowns.last_wrong_stage_alert(user) == Some(now))
                &&& (!misplaced ==> !r.alert && final(self).cooldowns.last_wrong_stage_alert(user)
                    == old(self).cooldowns.last_wrong_stage_alert(user))
                &&& r.decision == spec_decision(
                    old(self).questions@[i],
                    i,
                    cur,
                    channel,
                    spec_cooldown(
                        old(self).cooldowns.last_wrong_answer(user, (i + 1) as u16),
                        WRONG_ANSWER_COOLDOWN_MS,
                        now,
                    ),
                )
                &&& (i == 0 ==> final(self).start_end_time@ == (if times.contains_key(user) { times } else { times.insert(
                    user,
                    (pressed_at, None),
                ) }) && !r.missing_start)
                &&& (i != 0 && i == last ==> final(self).start_end_time@ == (if times.contains_key(user) { times.insert(
                    user,
                    (times[user].0, Some(pressed_at)),
                ) } else { times }) && r.missing_start == !times.contains_key(user))
                &&& (i != 0 && i != last ==> final(self).start_end_time@ == times && !r.missing_start)
            },
    {
        let ignore = PressReport { decision: PressDecision::Ignore, missing_start: false, expected: None, alert: false };
        if !self.active {
            return ignore;
        }
        let i = match self.find_token(custom_id) {
            Some(i) => i,
            None => {
                return ignore;
            },
        };
        let count = self.questions.len();
        let mut missing_start = false;
        if i == 0 {
            if self.start_end_time.get(user).is_none() {
                self.start_end_time.set(user, (pressed_at, None));
            }
        } else if i + 1 == count {
            match self.start_end_time.get(user) {
                Some(se) => {
                    let start = se.0;
                    self.start_end_time.set(user, (start, Some(pressed_at)));
                },
                None => {
                    missing_start = true;
                },
            }
        }
        let cur = self.user_progress.current(user);
        let mut expected: Option<usize> = None;
        let mut alert = false;
        if cur != i + 1 {
            expected = Some(cur);
            if i == 0 {
                self.user_progress.reset(user);
            }
            alert = !self.cooldowns.check_wrong_question_cooldown(user, now);
            self.cooldowns.wrong_question_cooldown_handler(user, now);
            if i != 0 {
                return PressReport { decision: PressDecision::Misplaced, missing_start, expected, alert };
            }
        }
        let decision = match self.questions[i].channel {
            None => PressDecision::StageChannelMissing,
            Some(c) => if c != channel {
                PressDecision::Ignore
            } else {
                match self.cooldowns.check_cooldown(user, (i + 1) as u16, now) {
                    Some(d) => PressDecision::TooFast(d),
                    None => PressDecision::Ask(i),
                }
            },
        };
        PressReport { decision, missing_start, expected, alert }
    }

    /// Checks the answers `inputs` of `user` to the stage at position `i`;
    /// a wrong submission starts the user's cooldown on that stage.
    pub fn check_answers(&mut self, user: u64, i: usize, inputs: &Vec<String>, now: u64) -> (r: bool)
        requires
            old(self).wf(),
            i < old(self).questions@.len(),
            i + 1 <= u16::MAX,
        ensures
            r == spec_matches(parts_model(&old(self).questions@[i as int]), inputs_model(inputs)),
            !r ==> final(self).cooldowns.last_wrong_answer(user, (i + 1) as u16) == Some(now),
            forall|u: u64, s: u16| !(!r && u == user && s == i + 1) ==> #[trigger] final(self).cooldowns.last_wrong_answer(u, s)
                == old(self).cooldowns.last_wrong_answer(u, s),
            final(self).questions == old(self).questions,
            final(self).user_progress == old(self).user_progress,
            final(self).winners == old(self).winners,
            final(self).reprocessing@ == old(self).reprocessing@,
            final(self).wf(),
    {
        let ok = self.questions[i].matches_answers(inputs);
        if !ok {
            self.cooldowns.wrong_answer_cooldown_handler(user, (i + 1) as u16, now);
        }
        ok
    }
}

} // verus!
