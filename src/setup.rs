//! Materialising the stages: which overwrites each channel is created with,
//! how channels and controls are named, and recording the roles, channels and
//! tokens once the platform has created them.
use vstd::prelude::*;
use vstd::string::*;
use crate::room::EscapeRoom;
use crate::stage::{Question, QuestionPart};
use crate::text::{decimal, push_decimal};

verus! {

/// Who an overwrite applies to.
#[derive(PartialEq, Eq, Structural, Clone, Copy, Debug)]
pub enum OverwriteTarget {
    Role(u64),
    Member(u64),
}

/// The access an overwrite grants or takes away.
#[derive(PartialEq, Eq, Structural, Clone, Copy, Debug)]
pub enum Access {
    /// No viewing, sending, reacting or managing messages.
    Hidden,
    /// What the bot needs: everything `Hidden` takes away, and managing the channel.
    Bot,
    /// Viewing the channel.
    View,
    /// Viewing, sending, reacting and managing messages.
    Full,
}

#[derive(PartialEq, Eq, Structural, Clone, Copy, Debug)]
pub struct Overwrite {
    pub target: OverwriteTarget,
    pub access: Access,
}

/// Why setting up was refused.
#[derive(PartialEq, Eq, Structural, Clone, Copy, Debug)]
pub enum SetupRefusal {
    AlreadySetUp,
    Unanswerable,
    AlreadySetUpAndUnanswerable,
    WinnerRolesMissing,
    NoQuestions,
}

/// Why the first stage could not be opened.
#[derive(PartialEq, Eq, Structural, Clone, Copy, Debug)]
pub enum UnlockError {
    NoQuestions,
    NotSetUp,
    NoGuild,
}

pub open spec fn ow(target: OverwriteTarget, access: Access) -> Overwrite {
    Overwrite { target, access }
}

/// Some stage already has a channel or a control token.
pub open spec fn is_set_up(qs: Seq<Question>) -> bool {
    exists|i: int| 0 <= i < qs.len() && (#[trigger] qs[i].channel is Some || qs[i].custom_id is Some)
}

/// A part that accepts no literal answer.
pub open spec fn part_unanswerable(p: QuestionPart) -> bool {
    p.answers@.len() == 0
}

/// A stage with no parts, or with a part that accepts no literal answer.
pub open spec fn stage_unanswerable(q: Question) -> bool {
    q.parts@.len() == 0 || exists|j: int| 0 <= j < q.parts@.len() && part_unanswerable(#[trigger] q.parts@[j])
}

pub open spec fn any_unanswerable(qs: Seq<Question>) -> bool {
    exists|i: int| 0 <= i < qs.len() && stage_unanswerable(#[trigger] qs[i])
}

/// The stage roles of `qs`, each hidden, in stage order.
pub open spec fn stage_role_denials(qs: Seq<Question>) -> Seq<Overwrite>
    decreases qs.len(),
{
    if qs.len() == 0 {
        Seq::empty()
    } else {
        stage_role_denials(qs.drop_last()) + match qs.last().role_id {
            Some(r) => seq![ow(OverwriteTarget::Role(r), Access::Hidden)],
            None => Seq::empty(),
        }
    }
}

/// The overwrites of a stage channel after the first: hidden from everyone,
/// open to the bot, visible to the stage's role. The everyone role has the
/// guild's id.
pub fn stage_overwrites(guild: u64, bot: u64, role: u64) -> (r: Vec<Overwrite>)
    ensures
        r@ == seq![
            ow(OverwriteTarget::Role(guild), Access::Hidden),
            ow(OverwriteTarget::Member(bot), Access::Bot),
            ow(OverwriteTarget::Role(role), Access::View),
        ],
{
    let r = vec![
        Overwrite { target: OverwriteTarget::Role(guild), access: Access::Hidden },
        Overwrite { target: OverwriteTarget::Member(bot), access: Access::Bot },
        Overwrite { target: OverwriteTarget::Role(role), access: Access::View },
    ];
    assert(r@ =~= seq![
        ow(OverwriteTarget::Role(guild), Access::Hidden),
        ow(OverwriteTarget::Member(bot), Access::Bot),
        ow(OverwriteTarget::Role(role), Access::View),
    ]);
    r
}

/// The overwrites of the winners' channel: hidden from everyone, open to the
/// bot, and fully open to both winner roles.
pub fn winner_overwrites(guild: u64, bot: u64, first_winner_role: u64, winner_role: u64) -> (r: Vec<Overwrite>)
    ensures
        r@ == seq![
            ow(OverwriteTarget::Role(guild), Access::Hidden),
            ow(OverwriteTarget::Member(bot), Access::Bot),
            ow(OverwriteTarget::Role(first_winner_role), Access::Full),
            ow(OverwriteTarget::Role(winner_role), Access::Full),
        ],
{
    let r = vec![
        Overwrite { target: OverwriteTarget::Role(guild), access: Access::Hidden },
        Overwrite { target: OverwriteTarget::Member(bot), access: Access::Bot },
        Overwrite { target: OverwriteTarget::Role(first_winner_role), access: Access::Full },
        Overwrite { target: OverwriteTarget::Role(winner_role), access: Access::Full },
    ];
    assert(r@ =~= seq![
        ow(OverwriteTarget::Role(guild), Access::Hidden),
        ow(OverwriteTarget::Member(bot), Access::Bot),
        ow(OverwriteTarget::Role(first_winner_role), Access::Full),
        ow(OverwriteTarget::Role(winner_role), Access::Full),
    ]);
    r
}

/// The name of the channel and role of the stage numbered `number`.
pub open spec fn stage_name(number: u64) -> Seq<char> {
    "question-"@ + decimal(number as nat)
}

/// The control token of the stage at position `index` for a setup run
/// identified by `run`.
pub open spec fn stage_token(run: u64, index: u64) -> Seq<char> {
    decimal(run as nat) + seq!['_'] + decimal(index as nat)
}

/// `question-<number>`.
pub fn stage_channel_name(number: u64) -> (r: String)
    ensures
        r@ == stage_name(number),
{
    proof {
        reveal_strlit("question-");
    }
    let mut s = String::from_str("question-");
    push_decimal(&mut s, number);
    assert(s@ =~= stage_name(number));
    s
}

/// `<run>_<index>`.
pub fn stage_custom_id(run: u64, index: u64) -> (r: String)
    ensures
        r@ == stage_token(run, index),
{
    proof {
        reveal_strlit("_");
    }
    let mut s = String::new();
    push_decimal(&mut s, run);
    s.append("_");
    push_decimal(&mut s, index);
    assert(s@ =~= stage_token(run, index));
    s
}

impl EscapeRoom {
    fn stage_unanswerable_at(&self, i: usize) -> (r: bool)
        requires
            i < self.questions@.len(),
        ensures
            r == stage_unanswerable(self.questions@[i as int]),
    {
        let q = &self.questions[i];
        if q.parts.len() == 0 {
            return true;
        }
        let mut j: usize = 0;
        while j < q.parts.len()
            invariant
                j <= q.parts@.len(),
                q == self.questions@[i as int],
                forall|k: int| 0 <= k < j ==> !part_unanswerable(#[trigger] q.parts@[k]),
            decreases q.parts.len() - j,
        {
            if q.parts[j].answers.len() == 0 {
                assert(part_unanswerable(q.parts@[j as int]));
                return true;
            }
            j += 1;
        }
        false
    }

    /// Whether the stages are already set up, and whether some stage cannot
    /// be answered.
    pub fn check_setup(&self) -> (r: (bool, bool))
        ensures
            r.0 == is_set_up(self.questions@),
            r.1 == any_unanswerable(self.questions@),
    {
        let mut setup = false;
        let mut unanswerable = false;
        let mut i: usize = 0;
        while i < self.questions.len()
            invariant
                i <= self.questions@.len(),
                setup == exists|k: int| 0 <= k < i && (#[trigger] self.questions@[k].channel is Some
                    || self.questions@[k].custom_id is Some),
                unanswerable == exists|k: int| 0 <= k < i && stage_unanswerable(#[trigger] self.questions@[k]),
            decreases self.questions.len() - i,
        {
            if self.questions[i].channel.is_some() || self.questions[i].custom_id.is_some() {
                setup = true;
            }
            if self.stage_unanswerable_at(i) {
                unanswerable = true;
            }
            i += 1;
        }
        (setup, unanswerable)
    }

    /// Whether setting up may start: nothing set up yet, every stage
    /// answerable, both winner roles configured, and at least one stage.
    pub fn setup_refusal(&self) -> (r: Option<SetupRefusal>)
        ensures
            ({
                let qs = self.questions@;
                let w = &self.winners;
                r == if is_set_up(qs) && any_unanswerable(qs) {
                    Some(SetupRefusal::AlreadySetUpAndUnanswerable)
                } else if is_set_up(qs) {
                    Some(SetupRefusal::AlreadySetUp)
                } else if any_unanswerable(qs) {
                    Some(SetupRefusal::Unanswerable)
                } else if w.first_winner_role.is_none() || w.winner_role.is_none() {
                    Some(SetupRefusal::WinnerRolesMissing)
                } else if qs.len() == 0 {
                    Some(SetupRefusal::NoQuestions)
                } else {
                    None
                }
            }),
    {
        let (setup, unanswerable) = self.check_setup();
        if setup && unanswerable {
            Some(SetupRefusal::AlreadySetUpAndUnanswerable)
        } else if setup {
            Some(SetupRefusal::AlreadySetUp)
        } else if unanswerable {
            Some(SetupRefusal::Unanswerable)
        } else if self.winners.first_winner_role.is_none() || self.winners.winner_role.is_none() {
            Some(SetupRefusal::WinnerRolesMissing)
        } else if self.questions.len() == 0 {
            Some(SetupRefusal::NoQuestions)
        } else {
            None
        }
    }

    /// The overwrites of the first stage's channel: every stage role hidden,
    /// then hidden from everyone and from both winner roles, open to the bot.
    /// Players see it once the game is activated.
    pub fn first_stage_overwrites(&self, guild: u64, bot: u64, first_winner_role: u64, winner_role: u64) -> (r: Vec<
        Overwrite,
    >)
        ensures
            r@ == stage_role_denials(self.questions@) + seq![
                ow(OverwriteTarget::Role(guild), Access::Hidden),
                ow(OverwriteTarget::Role(first_winner_role), Access::Hidden),
                ow(OverwriteTarget::Role(winner_role), Access::Hidden),
                ow(OverwriteTarget::Member(bot), Access::Bot),
            ],
    {
        let mut r: Vec<Overwrite> = Vec::new();
        let mut i: usize = 0;
        while i < self.questions.len()
            invariant
                i <= self.questions@.len(),
                r@ == stage_role_denials(self.questions@.subrange(0, i as int)),
            decreases self.questions.len() - i,
        {
            let ghost pre = self.questions@.subrange(0, i as int);
            let ghost next = self.questions@.subrange(0, i + 1);
            assert(next.drop_last() =~= pre);
            if let Some(role) = self.questions[i].role_id {
                r.push(Overwrite { target: OverwriteTarget::Role(role), access: Access::Hidden });
            }
            assert(r@ =~= stage_role_denials(next));
            i += 1;
        }
        assert(self.questions@.subrange(0, self.questions@.len() as int) =~= self.questions@);
        r.push(Overwrite { target: OverwriteTarget::Role(guild), access: Access::Hidden });
        r.push(Overwrite { target: OverwriteTarget::Role(first_winner_role), access: Access::Hidden });
        r.push(Overwrite { target: OverwriteTarget::Role(winner_role), access: Access::Hidden });
        r.push(Overwrite { target: OverwriteTarget::Member(bot), access: Access::Bot });
        assert(r@ =~= stage_role_denials(self.questions@) + seq![
            ow(OverwriteTarget::Role(guild), Access::Hidden),
            ow(OverwriteTarget::Role(first_winner_role), Access::Hidden),
            ow(OverwriteTarget::Role(winner_role), Access::Hidden),
            ow(OverwriteTarget::Member(bot), Access::Bot),
        ]);
        r
    }

    /// Records the stage roles the platform created: `roles[i]` belongs to
    /// the stage at position `i + 1`; the first stage has none.
    pub fn assign_stage_roles(&mut self, roles: &Vec<u64>)
        requires
            old(self).wf(),
            roles@.len() + 1 == old(self).questions@.len(),
        ensures
            final(self).wf(),
            final(self).questions@.len() == old(self).questions@.len(),
            final(self).questions@[0].role_id == old(self).questions@[0].role_id,
            forall|i: int| 0 <= i < roles@.len() ==> #[trigger] final(self).questions@[i + 1].role_id == Some(roles@[i]),
            forall|i: int| 0 <= i < old(self).questions@.len() ==> {
                &&& #[trigger] final(self).questions@[i].channel == old(self).questions@[i].channel
                &&& final(self).questions@[i].custom_id == old(self).questions@[i].custom_id
                &&& final(self).questions@[i].parts == old(self).questions@[i].parts
            },
            final(self).user_progress == old(self).user_progress,
            final(self).winners == old(self).winners,
    {
        let mut i: usize = 0;
        while i < roles.len()
            invariant
                roles@.len() + 1 == old(self).questions@.len(),
                self.questions@.len() == old(self).questions@.len(),
                i <= roles@.len(),
                self.wf(),
                self.user_progress == old(self).user_progress,
                self.winners == old(self).winners,
                self.questions@[0].role_id == old(self).questions@[0].role_id,
                forall|k: int| 0 <= k < i ==> #[trigger] self.questions@[k + 1].role_id == Some(roles@[k]),
                forall|k: int| i + 1 <= k < self.questions@.len() ==> #[trigger] self.questions@[k].role_id
                    == old(self).questions@[k].role_id,
                forall|k: int| 0 <= k < old(self).questions@.len() ==> {
                    &&& #[trigger] self.questions@[k].channel == old(self).questions@[k].channel
                    &&& self.questions@[k].custom_id == old(self).questions@[k].custom_id
                    &&& self.questions@[k].parts == old(self).questions@[k].parts
                },
            decreases roles.len() - i,
        {
            let mut q = self.questions.remove(i + 1);
            q.role_id = Some(roles[i]);
            self.questions.insert(i + 1, q);
            i += 1;
        }
    }

    /// Records the channel and control token of the stage at position `i`.
    pub fn assign_stage_channel(&mut self, i: usize, channel: u64, custom_id: String)
        requires
            old(self).wf(),
            i < old(self).questions@.len(),
        ensures
            final(self).wf(),
            final(self).questions@.len() == old(self).questions@.len(),
            final(self).questions@[i as int].channel == Some(channel),
            final(self).questions@[i as int].custom_id == Some(custom_id),
            final(self).questions@[i as int].role_id == old(self).questions@[i as int].role_id,
            final(self).questions@[i as int].parts == old(self).questions@[i as int].parts,
            forall|k: int| 0 <= k < old(self).questions@.len() && k != i ==> #[trigger] final(self).questions@[k]
                == old(self).questions@[k],
            final(self).user_progress == old(self).user_progress,
            final(self).winners == old(self).winners,
    {
        let mut q = self.questions.remove(i);
        q.channel = Some(channel);
        q.custom_id = Some(custom_id);
        self.questions.insert(i, q);
    }

    /// Records where the game lives once every channel exists.
    pub fn finish_setup(&mut self, guild: u64, winner_channel: u64)
        requires
            old(self).wf(),
        ensures
            final(self).wf(),
            final(self).guild == Some(guild),
            final(self).winners.winner_channel == Some(winner_channel),
            final(self).winners.winners == old(self).winners.winners,
            final(self).winners.first_winner == old(self).winners.first_winner,
            final(self).questions == old(self).questions,
            final(self).user_progress == old(self).user_progress,
    {
        self.guild = Some(guild);
        self.winners.winner_channel = Some(winner_channel);
    }

    /// The guild and the first stage's channel, which activation opens to
    /// everyone.
    pub fn first_channel_to_unlock(&self) -> (r: Result<(u64, u64), UnlockError>)
        ensures
            self.questions@.len() == 0 ==> r == Err::<(u64, u64), UnlockError>(UnlockError::NoQuestions),
            self.questions@.len() > 0 && self.questions@[0].channel is None ==> r == Err::<(u64, u64), UnlockError>(
                UnlockError::NotSetUp,
            ),
            self.questions@.len() > 0 && self.questions@[0].channel is Some && self.guild is None ==> r == Err::<
                (u64, u64),
                UnlockError,
            >(UnlockError::NoGuild),
            self.questions@.len() > 0 && self.questions@[0].channel is Some && self.guild is Some ==> r == Ok::<
                (u64, u64),
                UnlockError,
            >((self.guild->0, self.questions@[0].channel->0)),
    {
        if self.questions.len() == 0 {
            return Err(UnlockError::NoQuestions);
        }
        let channel = match self.questions[0].channel {
            Some(c) => c,
            None => {
                return Err(UnlockError::NotSetUp);
            },
        };
        match self.guild {
            Some(g) => Ok((g, channel)),
            None => Err(UnlockError::NoGuild),
        }
    }
}

} // verus!
