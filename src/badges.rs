//! The badge ledger's data, its text rendering, and the cache that holds the
//! events read from the ledger's store.
use vstd::prelude::*;
use vstd::string::*;
use crate::text::{decimal, push_decimal};

verus! {

#[derive(PartialEq, Eq, Structural, Clone, Copy, Debug)]
pub enum BadgeKind {
    Participated,
    Contributed,
    Both,
}

/// Why a stored badge kind could not be read.
#[derive(PartialEq, Eq, Structural, Clone, Copy, Debug)]
pub struct InvalidBadgeKind;

impl BadgeKind {
    /// The kind stored under `value`: 0, 1 and 2 in declaration order.
    pub fn try_from(value: i64) -> (r: Result<BadgeKind, InvalidBadgeKind>)
        ensures
            value == 0 <==> r == Ok::<BadgeKind, InvalidBadgeKind>(BadgeKind::Participated),
            value == 1 <==> r == Ok::<BadgeKind, InvalidBadgeKind>(BadgeKind::Contributed),
            value == 2 <==> r == Ok::<BadgeKind, InvalidBadgeKind>(BadgeKind::Both),
            !(0 <= value <= 2) <==> r is Err,
    {
        if value == 0 {
            Ok(BadgeKind::Participated)
        } else if value == 1 {
            Ok(BadgeKind::Contributed)
        } else if value == 2 {
            Ok(BadgeKind::Both)
        } else {
            Err(InvalidBadgeKind)
        }
    }

    /// The stored form of the kind.
    pub fn to_i64(self) -> (r: i64)
        ensures
            BadgeKind::try_from_spec(r) == Some(self),
    {
        match self {
            BadgeKind::Participated => 0,
            BadgeKind::Contributed => 1,
            BadgeKind::Both => 2,
        }
    }

    pub open spec fn try_from_spec(value: i64) -> Option<BadgeKind> {
        if value == 0 {
            Some(BadgeKind::Participated)
        } else if value == 1 {
            Some(BadgeKind::Contributed)
        } else if value == 2 {
            Some(BadgeKind::Both)
        } else {
            None
        }
    }

    /// Badges of this kind count as participation.
    pub open spec fn participated(self) -> bool {
        self is Participated || self is Both
    }

    /// Badges of this kind count as contribution.
    pub open spec fn contributed(self) -> bool {
        self is Contributed || self is Both
    }
}

impl InvalidBadgeKind {
    /// The message shown for the error.
    pub fn message(&self) -> (r: &'static str)
        ensures
            r@ == "Invalid value for BadgeKind"@,
    {
        "Invalid value for BadgeKind"
    }
}

pub struct Badge {
    pub animated: bool,
    pub discord_name: String,
    pub discord_id: u64,
    pub link: Option<String>,
}

pub struct Event {
    /// Assigned by the store, counting from 1.
    pub id: u16,
    pub name: String,
    pub date: u64,
    pub badge: Badge,
}

pub struct PartialEvent {
    pub name: String,
    pub date: u64,
}

pub struct UserBadge {
    pub event: PartialEvent,
    pub badge: Badge,
    pub badge_kind: BadgeKind,
    pub winner: bool,
}

/// The chat markup of a custom emoji.
pub open spec fn emoji_markup(animated: bool, name: Seq<char>, id: u64) -> Seq<char> {
    let head = if animated { seq!['<', 'a', ':'] } else { seq!['<', ':'] };
    head + name + seq![':'] + decimal(id as nat) + seq!['>']
}

impl Badge {
    /// The emoji of the badge as chat markup: `<a:name:id>` when animated,
    /// `<:name:id>` otherwise.
    pub fn markdown(&self) -> (r: String)
        ensures
            r@ == emoji_markup(self.animated, self.discord_name@, self.discord_id),
    {
        proof {
            reveal_strlit("<a:");
            reveal_strlit("<:");
            reveal_strlit(":");
            reveal_strlit(">");
        }
        let mut s = if self.animated { String::from_str("<a:") } else { String::from_str("<:") };
        s.append(self.discord_name.as_str());
        s.append(":");
        push_decimal(&mut s, self.discord_id);
        s.append(">");
        assert(s@ =~= emoji_markup(self.animated, self.discord_name@, self.discord_id));
        s
    }
}

/// One line of a badge listing.
pub open spec fn badge_line(emoji: Seq<char>, name: Seq<char>, timestamp: u64, is_winner: bool) -> Seq<char> {
    let mid = if is_winner { " (\u{1F451} winner) - <t:"@ } else { " - <t:"@ };
    emoji + seq![' '] + name + mid + decimal(timestamp as nat) + ":R>\n"@
}

/// Appends one line of a badge listing: the emoji, the event's name, a
/// crown for a winner, and the event's date as a relative time stamp.
pub fn write_badge_line(buffer: &mut String, emoji: &str, name: &str, timestamp: u64, is_winner: bool)
    ensures
        final(buffer)@ == old(buffer)@ + badge_line(emoji@, name@, timestamp, is_winner),
{
    proof {
        reveal_strlit(" ");
        reveal_strlit(" (\u{1F451} winner) - <t:");
        reveal_strlit(" - <t:");
        reveal_strlit(":R>\n");
    }
    buffer.append(emoji);
    buffer.append(" ");
    buffer.append(name);
    if is_winner {
        buffer.append(" (\u{1F451} winner) - <t:");
    } else {
        buffer.append(" - <t:");
    }
    push_decimal(buffer, timestamp);
    buffer.append(":R>\n");
    assert(buffer@ =~= old(buffer)@ + badge_line(emoji@, name@, timestamp, is_winner));
}

/// The event's name as shown: a link when the badge has one.
pub open spec fn shown_name(b: UserBadge) -> Seq<char> {
    match b.badge.link {
        Some(l) => seq!['['] + b.event.name@ + seq![']', '('] + l@ + seq![')'],
        None => b.event.name@,
    }
}

/// The participation listing of `s`: one line per badge that counts as
/// participation, marking winners.
pub open spec fn participated_text(s: Seq<UserBadge>) -> Seq<char>
    decreases s.len(),
{
    if s.len() == 0 {
        Seq::empty()
    } else {
        let b = s.last();
        participated_text(s.drop_last()) + if b.badge_kind.participated() {
            badge_line(emoji_markup(b.badge.animated, b.badge.discord_name@, b.badge.discord_id), shown_name(b), b.event.date, b.winner)
        } else {
            Seq::empty()
        }
    }
}

/// The contribution listing of `s`: one line per badge that counts as
/// contribution, with no winner mark.
pub open spec fn contributed_text(s: Seq<UserBadge>) -> Seq<char>
    decreases s.len(),
{
    if s.len() == 0 {
        Seq::empty()
    } else {
        let b = s.last();
        contributed_text(s.drop_last()) + if b.badge_kind.contributed() {
            badge_line(emoji_markup(b.badge.animated, b.badge.discord_name@, b.badge.discord_id), shown_name(b), b.event.date, false)
        } else {
            Seq::empty()
        }
    }
}

/// How many badges of `s` count as participation.
pub open spec fn participated_count(s: Seq<UserBadge>) -> nat
    decreases s.len(),
{
    if s.len() == 0 {
        0
    } else {
        participated_count(s.drop_last()) + if s.last().badge_kind.participated() { 1nat } else { 0nat }
    }
}

/// How many badges of `s` count as contribution.
pub open spec fn contributed_count(s: Seq<UserBadge>) -> nat
    decreases s.len(),
{
    if s.len() == 0 {
        0
    } else {
        contributed_count(s.drop_last()) + if s.last().badge_kind.contributed() { 1nat } else { 0nat }
    }
}

proof fn lemma_count_bound(s: Seq<UserBadge>)
    ensures
        participated_count(s) <= s.len(),
        contributed_count(s) <= s.len(),
    decreases s.len(),
{
    if s.len() > 0 {
        lemma_count_bound(s.drop_last());
    }
}

/// A user's badges, split into the two listings of their profile.
pub struct BadgeSummary {
    pub participated_count: usize,
    pub contributed_count: usize,
    pub participated: String,
    pub contributed: String,
}

impl UserBadge {
    /// The event's name as shown: `[name](link)` when the badge has a link.
    pub fn shown_name(&self) -> (r: String)
        ensures
            r@ == shown_name(*self),
    {
        proof {
            reveal_strlit("[");
            reveal_strlit("](");
            reveal_strlit(")");
        }
        match &self.badge.link {
            Some(l) => {
                let mut s = String::from_str("[");
                s.append(self.event.name.as_str());
                s.append("](");
                s.append(l.as_str());
                s.append(")");
                assert(s@ =~= shown_name(*self));
                s
            },
            None => self.event.name.clone(),
        }
    }
}

/// Splits `badges` into the participation and contribution listings, with
/// their counts. A badge of both kinds appears in both.
pub fn summarize_badges(badges: &Vec<UserBadge>) -> (r: BadgeSummary)
    ensures
        r.participated_count == participated_count(badges@),
        r.contributed_count == contributed_count(badges@),
        r.participated@ == participated_text(badges@),
        r.contributed@ == contributed_text(badges@),
{
    let mut value = String::new();
    let mut contribution = String::new();
    let mut pc: usize = 0;
    let mut cc: usize = 0;
    let mut i: usize = 0;
    while i < badges.len()
        invariant
            i <= badges@.len(),
            pc == participated_count(badges@.subrange(0, i as int)),
            cc == contributed_count(badges@.subrange(0, i as int)),
            value@ == participated_text(badges@.subrange(0, i as int)),
            contribution@ == contributed_text(badges@.subrange(0, i as int)),
        decreases badges.len() - i,
    {
        let ghost pre = badges@.subrange(0, i as int);
        let ghost next = badges@.subrange(0, i + 1);
        assert(next.drop_last() =~= pre);
        assert(next.last() == badges@[i as int]);
        proof {
            lemma_count_bound(pre);
        }
        let b = &badges[i];
        let emoji = b.badge.markdown();
        let name = b.shown_name();
        match b.badge_kind {
            BadgeKind::Participated => {
                write_badge_line(&mut value, emoji.as_str(), name.as_str(), b.event.date, b.winner);
                pc += 1;
            },
            BadgeKind::Contributed => {
                write_badge_line(&mut contribution, emoji.as_str(), name.as_str(), b.event.date, false);
                cc += 1;
            },
            BadgeKind::Both => {
                write_badge_line(&mut value, emoji.as_str(), name.as_str(), b.event.date, b.winner);
                write_badge_line(&mut contribution, emoji.as_str(), name.as_str(), b.event.date, false);
                pc += 1;
                cc += 1;
            },
        }
        assert(value@ =~= participated_text(next));
        assert(contribution@ =~= contributed_text(next));
        i += 1;
    }
    assert(badges@.subrange(0, badges@.len() as int) =~= badges@);
    BadgeSummary { participated_count: pc, contributed_count: cc, participated: value, contributed: contribution }
}

/// Why a new event was refused before anything was created.
#[derive(PartialEq, Eq, Structural, Clone, Copy, Debug)]
pub enum NewEventError {
    /// The event's name is over 120 bytes.
    NameTooLong,
    /// The badge's emoji name is over 32 bytes.
    BadgeNameTooLong,
}

/// Checks the names of a new event and its badge, by their lengths in bytes.
pub fn check_new_event(name: &str, badge_name: &str) -> (r: Result<(), NewEventError>)
    ensures
        name.len() > 120 ==> r == Err::<(), NewEventError>(NewEventError::NameTooLong),
        name.len() <= 120 && badge_name.len() > 32 ==> r == Err::<(), NewEventError>(
            NewEventError::BadgeNameTooLong,
        ),
        name.len() <= 120 && badge_name.len() <= 32 ==> r is Ok,
{
    if name.len() > 120 {
        return Err(NewEventError::NameTooLong);
    }
    if badge_name.len() > 32 {
        return Err(NewEventError::BadgeNameTooLong);
    }
    Ok(())
}

} // verus!
