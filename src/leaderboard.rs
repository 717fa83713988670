//! The progress leaderboard: winners first, then everyone else by stage,
//! furthest first, ten lines to a page.
use vstd::prelude::*;
use vstd::string::*;
use crate::text::{decimal, push_decimal};

verus! {

broadcast use vstd::seq_lib::group_to_multiset_ensures;

/// Lines per page.
pub const PAGE_LINES: usize = 10;

/// Each entry stands on a stage no lower than those after it.
pub open spec fn sorted_by_progress(s: Seq<(u64, usize)>) -> bool {
    forall|i: int, j: int| 0 <= i < j < s.len() ==> #[trigger] s[i].1 >= #[trigger] s[j].1
}

/// The entries of users who have not won.
pub open spec fn not_won(entries: Seq<(u64, usize)>, winners: Seq<u64>) -> Seq<(u64, usize)> {
    entries.filter(|e: (u64, usize)| !winners.contains(e.0))
}

pub open spec fn winner_line(user: u64) -> Seq<char> {
    seq!['<', '@'] + decimal(user as nat) + ">: completed.\n"@
}

pub open spec fn progress_line(e: (u64, usize)) -> Seq<char> {
    seq!['<', '@'] + decimal(e.0 as nat) + seq!['>', ':', ' '] + decimal(e.1 as nat) + seq!['\n']
}

/// `pages` are `lines` joined ten at a time, the last page holding what is
/// left, possibly nothing.
pub open spec fn paged(lines: Seq<Seq<char>>, pages: Seq<Seq<char>>) -> bool {
    let k = pages.len() - 1;
    &&& pages.len() >= 1
    &&& 10 * k <= lines.len() < 10 * k + 10
    &&& forall|j: int| 0 <= j < k ==> #[trigger] pages[j] == lines.subrange(10 * j, 10 * j + 10).flatten()
    &&& pages[k] == lines.subrange(10 * k, lines.len() as int).flatten()
}

/// Orders entries by stage, furthest first, keeping each entry.
pub fn sort_by_progress(v: &Vec<(u64, usize)>) -> (r: Vec<(u64, usize)>)
    ensures
        sorted_by_progress(r@),
        r@.to_multiset() == v@.to_multiset(),
{
    let mut out: Vec<(u64, usize)> = Vec::new();
    let mut i: usize = 0;
    while i < v.len()
        invariant
            i <= v@.len(),
            sorted_by_progress(out@),
            out@.to_multiset() == v@.subrange(0, i as int).to_multiset(),
            out@.len() == i,
        decreases v.len() - i,
    {
        let x = v[i];
        let mut p: usize = 0;
        while p < out.len() && out[p].1 >= x.1
            invariant
                p <= out@.len(),
                forall|j: int| 0 <= j < p ==> #[trigger] out@[j].1 >= x.1,
            decreases out.len() - p,
        {
            p += 1;
        }
        let ghost prev = out@;
        out.insert(p, x);
        proof {
            vstd::seq_lib::to_multiset_insert(prev, p as int, x);
            vstd::seq_lib::to_multiset_build(v@.subrange(0, i as int), x);
            assert(v@.subrange(0, i as int).push(x) =~= v@.subrange(0, i + 1));
            assert forall|a: int, b: int| 0 <= a < b < out@.len() implies #[trigger] out@[a].1 >= #[trigger] out@[b].1 by {
                if b < p {
                } else if b == p {
                    assert(out@[a] == prev[a]);
                } else if a < p {
                    assert(out@[a] == prev[a]);
                    assert(out@[b] == prev[b - 1]);
                } else if a == p {
                    assert(out@[b] == prev[b - 1]);
                    assert(prev[p as int].1 < x.1);
                } else {
                    assert(out@[a] == prev[a - 1]);
                    assert(out@[b] == prev[b - 1]);
                }
            }
        }
        i += 1;
    }
    assert(v@.subrange(0, v@.len() as int) =~= v@);
    out
}

fn is_winner(winners: &Vec<u64>, user: u64) -> (r: bool)
    ensures
        r == winners@.contains(user),
{
    let mut i: usize = 0;
    while i < winners.len()
        invariant
            i <= winners@.len(),
            forall|j: int| 0 <= j < i ==> winners@[j] != user,
        decreases winners.len() - i,
    {
        if winners[i] == user {
            return true;
        }
        i += 1;
    }
    false
}

/// The entries of users who are not among `winners`, in their order.
pub fn exclude_winners(entries: &Vec<(u64, usize)>, winners: &Vec<u64>) -> (r: Vec<(u64, usize)>)
    ensures
        r@ == not_won(entries@, winners@),
{
    let mut out: Vec<(u64, usize)> = Vec::new();
    let mut i: usize = 0;
    while i < entries.len()
        invariant
            i <= entries@.len(),
            out@ == not_won(entries@.subrange(0, i as int), winners@),
        decreases entries.len() - i,
    {
        proof {
            let f = |e: (u64, usize)| !winners@.contains(e.0);
            entries@.subrange(0, i as int).lemma_filter_push(entries@[i as int], f);
            assert(entries@.subrange(0, i as int).push(entries@[i as int]) =~= entries@.subrange(0, i + 1));
        }
        if !is_winner(winners, entries[i].0) {
            out.push(entries[i]);
        }
        i += 1;
    }
    assert(entries@.subrange(0, entries@.len() as int) =~= entries@);
    out
}

/// Joins `lines` ten at a time; the last page holds what is left.
pub fn paginate(lines: &Vec<String>) -> (r: Vec<String>)
    ensures
        paged(lines@.map_values(|s: String| s@), r@.map_values(|s: String| s@)),
{
    let ghost ls = lines@.map_values(|s: String| s@);
    let mut pages: Vec<String> = Vec::new();
    let mut cur = String::new();
    let mut count: usize = 0;
    let mut i: usize = 0;
    while i < lines.len()
        invariant
            ls == lines@.map_values(|s: String| s@),
            i <= lines@.len(),
            count < 10,
            i == 10 * pages@.len() + count,
            forall|j: int| 0 <= j < pages@.len() ==> #[trigger] pages@[j]@ == ls.subrange(10 * j, 10 * j + 10).flatten(),
            cur@ == ls.subrange(10 * (pages@.len() as int), i as int).flatten(),
        decreases lines.len() - i,
    {
        proof {
            let start: int = 10 * (pages@.len() as int);
            assert(ls.subrange(start, i + 1) =~= ls.subrange(start, i as int).push(ls[i as int]));
            ls.subrange(start, i as int).lemma_flatten_push(ls[i as int]);
        }
        cur.append(lines[i].as_str());
        count += 1;
        i += 1;
        if count == 10 {
            let ghost old_len: int = pages@.len() as int;
            pages.push(cur);
            cur = String::new();
            count = 0;
            proof {
                assert(pages@[old_len]@ == ls.subrange(10 * old_len, 10 * old_len + 10).flatten());
                assert(ls.subrange(10 * (pages@.len() as int), i as int) =~= Seq::<Seq<char>>::empty());
                assert(Seq::<Seq<char>>::empty().flatten() =~= Seq::<char>::empty());
            }
        }
    }
    let ghost k: int = pages@.len() as int;
    pages.push(cur);
    proof {
        let pv = pages@.map_values(|s: String| s@);
        assert forall|j: int| 0 <= j < k implies #[trigger] pv[j] == ls.subrange(10 * j, 10 * j + 10).flatten() by {
            assert(pages@[j]@ == ls.subrange(10 * j, 10 * j + 10).flatten());
        }
        assert(pv[k] == ls.subrange(10 * k, ls.len() as int).flatten());
    }
    pages
}

fn mention_prefix(user: u64) -> (r: String)
    ensures
        r@ == seq!['<', '@'] + decimal(user as nat),
{
    proof {
        reveal_strlit("<@");
    }
    let mut s = String::from_str("<@");
    push_decimal(&mut s, user);
    assert(s@ =~= seq!['<', '@'] + decimal(user as nat));
    s
}

/// The leaderboard of `winners` and the recorded `progress`, in pages: every
/// winner in order, then every other user, furthest stage first.
pub fn progress_pages(winners: &Vec<u64>, progress: &Vec<(u64, usize)>) -> (r: Vec<String>)
    ensures
        exists|others: Seq<(u64, usize)>| {
            &&& sorted_by_progress(others)
            &&& others.to_multiset() == not_won(progress@, winners@).to_multiset()
            &&& paged(
                winners@.map_values(|u: u64| winner_line(u)) + others.map_values(|e: (u64, usize)| progress_line(e)),
                r@.map_values(|s: String| s@),
            )
        },
{
    let mut lines: Vec<String> = Vec::new();
    let mut i: usize = 0;
    while i < winners.len()
        invariant
            i <= winners@.len(),
            lines@.len() == i,
            lines@.map_values(|s: String| s@) == winners@.subrange(0, i as int).map_values(|u: u64| winner_line(u)),
        decreases winners.len() - i,
    {
        let mut s = mention_prefix(winners[i]);
        proof {
            reveal_strlit(">: completed.\n");
        }
        s.append(">: completed.\n");
        assert(s@ =~= winner_line(winners@[i as int]));
        let ghost before = lines@;
        lines.push(s);
        assert(lines@.map_values(|s: String| s@) =~= before.map_values(|s: String| s@).push(winner_line(winners@[i as int])));
        assert(winners@.subrange(0, i + 1).map_values(|u: u64| winner_line(u)) =~= winners@.subrange(0, i as int).map_values(
            |u: u64| winner_line(u),
        ).push(winner_line(winners@[i as int])));
        assert(lines@.map_values(|s: String| s@) =~= winners@.subrange(0, i + 1).map_values(|u: u64| winner_line(u)));
        i += 1;
    }
    assert(winners@.subrange(0, winners@.len() as int) =~= winners@);
    let others = sort_by_progress(&exclude_winners(progress, winners));
    let ghost wl = winners@.map_values(|u: u64| winner_line(u));
    let mut j: usize = 0;
    while j < others.len()
        invariant
            j <= others@.len(),
            wl == winners@.map_values(|u: u64| winner_line(u)),
            lines@.map_values(|s: String| s@) == wl + others@.subrange(0, j as int).map_values(
                |e: (u64, usize)| progress_line(e),
            ),
        decreases others.len() - j,
    {
        let mut s = mention_prefix(others[j].0);
        proof {
            reveal_strlit(">: ");
            reveal_strlit("\n");
        }
        s.append(">: ");
        assert((others@[j as int].1 as u64) as nat == others@[j as int].1 as nat);
        push_decimal(&mut s, others[j].1 as u64);
        s.append("\n");
        assert(s@ =~= progress_line(others@[j as int]));
        let ghost before = lines@;
        lines.push(s);
        assert(lines@.map_values(|s: String| s@) =~= before.map_values(|s: String| s@).push(progress_line(others@[j as int])));
        assert(lines@.map_values(|s: String| s@) =~= wl + others@.subrange(0, j + 1).map_values(
            |e: (u64, usize)| progress_line(e),
        ));
        j += 1;
    }
    assert(others@.subrange(0, others@.len() as int) =~= others@);
    paginate(&lines)
}

} // verus!
