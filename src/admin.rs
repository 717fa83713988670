//! Operator overrides of a user's stage.
use vstd::prelude::*;
use crate::progress::spec_current;
use crate::room::{EscapeRoom, SetQuestionError};
use crate::stage::Question;

verus! {

/// `r` is the completion role of some stage.
pub open spec fn is_stage_role(qs: Seq<Question>, r: u64) -> bool {
    exists|j: int| 0 <= j < qs.len() && #[trigger] qs[j].role_id == Some(r)
}

/// The member's roles without any stage role.
pub open spec fn without_stage_roles(qs: Seq<Question>, roles: Seq<u64>) -> Seq<u64> {
    roles.filter(|r: u64| !is_stage_role(qs, r))
}

impl EscapeRoom {
    fn stage_role(&self, r: u64) -> (b: bool)
        ensures
            b == is_stage_role(self.questions@, r),
    {
        let mut j: usize = 0;
        while j < self.questions.len()
            invariant
                j <= self.questions@.len(),
                forall|k: int| 0 <= k < j ==> #[trigger] self.questions@[k].role_id != Some(r),
            decreases self.questions.len() - j,
        {
            if self.questions[j].role_id == Some(r) {
                return true;
            }
            j += 1;
        }
        false
    }

    /// The member's roles with every stage role taken out.
    pub fn strip_stage_roles(&self, roles: &Vec<u64>) -> (r: Vec<u64>)
        ensures
            r@ == without_stage_roles(self.questions@, roles@),
    {
        let mut out: Vec<u64> = Vec::new();
        let mut i: usize = 0;
        while i < roles.len()
            invariant
                i <= roles@.len(),
                out@ == without_stage_roles(self.questions@, roles@.subrange(0, i as int)),
            decreases roles.len() - i,
        {
            proof {
                let f = |r: u64| !is_stage_role(self.questions@, r);
                roles@.subrange(0, i as int).lemma_filter_push(roles@[i as int], f);
                assert(roles@.subrange(0, i as int).push(roles@[i as int]) =~= roles@.subrange(0, i + 1));
            }
            if !self.stage_role(roles[i]) {
                out.push(roles[i]);
            }
            i += 1;
        }
        assert(roles@.subrange(0, roles@.len() as int) =~= roles@);
        out
    }

    /// Puts `user` on stage `question_num` by hand. When
    /// `modify_permissions` is set, returns the member's new role list: the
    /// roles of `member_roles` that belong to no stage, plus the role of the
    /// target stage when that is not the first. Otherwise only the progress
    /// changes and permissions are left to the operator.
    pub fn set_question(&mut self, user: u64, question_num: u16, member_roles: &Vec<u64>, modify_permissions: bool) -> (r:
        Result<Option<Vec<u64>>, SetQuestionError>)
        requires
            old(self).wf(),
        ensures
            final(self).wf(),
            final(self).questions == old(self).questions,
            final(self).winners == old(self).winners,
            final(self).reprocessing@ == old(self).reprocessing@,
            question_num == 0 <==> r == Err::<Option<Vec<u64>>, SetQuestionError>(SetQuestionError::ZeroStage),
            question_num == 0 ==> final(self).user_progress@ == old(self).user_progress@,
            question_num > 0 ==> final(self).user_progress@ == old(self).user_progress@.insert(user, question_num as usize),
            question_num > 0 ==> spec_current(final(self).user_progress@, user) == question_num,
            question_num > 0 && !modify_permissions ==> r == Ok::<Option<Vec<u64>>, SetQuestionError>(None),
            question_num == 1 && modify_permissions ==> r is Ok && r->Ok_0 is Some && r->Ok_0->Some_0@ == without_stage_roles(
                old(self).questions@,
                member_roles@,
            ),
            question_num > 1 && modify_permissions ==> {
                let qs = old(self).questions@;
                let target = question_num - 1;
                if target < qs.len() && qs[target].role_id is Some {
                    r is Ok && r->Ok_0 is Some && r->Ok_0->Some_0@ == without_stage_roles(qs, member_roles@).push(
                        qs[target].role_id->0,
                    )
                } else {
                    r == Err::<Option<Vec<u64>>, SetQuestionError>(SetQuestionError::RoleNotFound)
                }
            },
    {
        if question_num == 0 {
            return Err(SetQuestionError::ZeroStage);
        }
        self.user_progress.set(user, question_num as usize);
        if !modify_permissions {
            return Ok(None);
        }
        let mut roles = self.strip_stage_roles(member_roles);
        if question_num == 1 {
            return Ok(Some(roles));
        }
        let target = (question_num - 1) as usize;
        if target < self.questions.len() {
            match self.questions[target].role_id {
                Some(role) => {
                    roles.push(role);
                    Ok(Some(roles))
                },
                None => Err(SetQuestionError::RoleNotFound),
            }
        } else {
            Err(SetQuestionError::RoleNotFound)
        }
    }
}

} // verus!
