//! Who finished the game, and who finished it first.
use vstd::prelude::*;

verus! {

pub struct Winners {
    pub first_winner: Option<u64>,
    pub winners: Vec<u64>,
    pub winner_channel: Option<u64>,
    pub first_winner_role: Option<u64>,
    pub winner_role: Option<u64>,
}

/// The first winner is recorded exactly when somebody has won, and is the
/// first of the winners.
pub open spec fn winners_wf(first: Option<u64>, list: Seq<u64>) -> bool {
    match first {
        None => list.len() == 0,
        Some(u) => list.len() > 0 && list[0] == u,
    }
}

/// No user is listed twice.
pub open spec fn no_duplicates(list: Seq<u64>) -> bool {
    forall|i: int, j: int| 0 <= i < j < list.len() ==> #[trigger] list[i] != #[trigger] list[j]
}

impl Winners {
    pub open spec fn wf(&self) -> bool {
        winners_wf(self.first_winner, self.winners@)
    }

    pub fn new() -> (r: Winners)
        ensures
            r.wf(),
            r.first_winner.is_none(),
            r.winners@.len() == 0,
            r.winner_channel.is_none(),
            r.first_winner_role.is_none(),
            r.winner_role.is_none(),
    {
        Winners {
            first_winner: None,
            winners: Vec::new(),
            winner_channel: None,
            first_winner_role: None,
            winner_role: None,
        }
    }

    /// Records `user` as a winner; returns whether they are the first.
    pub fn claim(&mut self, user: u64) -> (first: bool)
        requires
            old(self).wf(),
        ensures
            final(self).wf(),
            first == old(self).first_winner.is_none(),
            final(self).first_winner == if first { Some(user) } else { old(self).first_winner },
            final(self).winners@ == old(self).winners@.push(user),
            final(self).winner_channel == old(self).winner_channel,
            final(self).first_winner_role == old(self).first_winner_role,
            final(self).winner_role == old(self).winner_role,
    {
        let first = self.first_winner.is_none();
        if first {
            self.first_winner = Some(user);
        }
        self.winners.push(user);
        first
    }
}

/// However many distinct users finish one after another, exactly one is the
/// first winner, it stays the first to have finished, and nobody is listed twice.
pub proof fn lemma_win_unique(first: Option<u64>, list: Seq<u64>, user: u64)
    requires
        winners_wf(first, list),
        no_duplicates(list),
        !list.contains(user),
    ensures
        winners_wf(if first.is_none() { Some(user) } else { first }, list.push(user)),
        no_duplicates(list.push(user)),
        first.is_some() ==> list.push(user)[0] == list[0],
{
    let l2 = list.push(user);
    assert forall|i: int, j: int| 0 <= i < j < l2.len() implies #[trigger] l2[i] != #[trigger] l2[j] by {
        if j == list.len() {
            assert(l2[i] == list[i]);
            assert(list.contains(list[i]));
        }
    }
}

/// The first winner and the winners after `users` finish in that order.
pub open spec fn claim_all(first: Option<u64>, list: Seq<u64>, users: Seq<u64>) -> (Option<u64>, Seq<u64>)
    decreases users.len(),
{
    if users.len() == 0 {
        (first, list)
    } else {
        let (f, l) = claim_all(first, list, users.drop_last());
        (if f.is_none() { Some(users.last()) } else { f }, l.push(users.last()))
    }
}

/// When distinct users, none of whom has won yet, finish one after another,
/// exactly one first winner is recorded, the first of them to finish when
/// nobody had won before, and no user is listed twice.
pub proof fn lemma_wins_unique(first: Option<u64>, list: Seq<u64>, users: Seq<u64>)
    requires
        winners_wf(first, list),
        no_duplicates(list),
        no_duplicates(users),
        forall|i: int| 0 <= i < users.len() ==> !list.contains(#[trigger] users[i]),
    ensures
        winners_wf(claim_all(first, list, users).0, claim_all(first, list, users).1),
        no_duplicates(claim_all(first, list, users).1),
        claim_all(first, list, users).1 == list + users,
        first.is_some() ==> claim_all(first, list, users).0 == first,
        first.is_none() && users.len() > 0 ==> claim_all(first, list, users).0 == Some(users[0]),
    decreases users.len(),
{
    if users.len() > 0 {
        let rest = users.drop_last();
        assert forall|i: int, j: int| 0 <= i < j < rest.len() implies #[trigger] rest[i] != #[trigger] rest[j] by {
            assert(rest[i] == users[i] && rest[j] == users[j]);
        }
        assert forall|i: int| 0 <= i < rest.len() implies !list.contains(#[trigger] rest[i]) by {
            assert(rest[i] == users[i]);
        }
        lemma_wins_unique(first, list, rest);
        let (f, l) = claim_all(first, list, rest);
        let u = users.last();
        assert(l == list + rest);
        assert(!l.contains(u)) by {
            if l.contains(u) {
                let k = choose|k: int| 0 <= k < l.len() && l[k] == u;
                if k < list.len() {
                    assert(list[k] == u);
                    assert(list.contains(users[users.len() - 1]));
                } else {
                    assert(rest[k - list.len()] == users[k - list.len()]);
                    assert(users[k - list.len()] != users[users.len() - 1]);
                }
            }
        }
        lemma_win_unique(f, l, u);
        assert(l.push(u) =~= list + users);
        if first.is_none() && rest.len() > 0 {
            assert(rest[0] == users[0]);
        }
        if first.is_none() && rest.len() == 0 {
            assert(list.len() == 0);
            assert(l =~= list);
        }
    }
}

} // verus!
