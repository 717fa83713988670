use escape_room::badges::{
    check_new_event, summarize_badges, write_badge_line, Badge, BadgeKind, Event, InvalidBadgeKind, NewEventError,
    PartialEvent, UserBadge,
};
use escape_room::cache::{CacheError, EventBadges, PopulateStart};
use escape_room::commands::{commands, Command};
use escape_room::leaderboard::{exclude_winners, paginate, progress_pages, sort_by_progress};

fn badge(animated: bool, name: &str, id: u64, link: Option<&str>) -> Badge {
    Badge { animated, discord_name: name.to_string(), discord_id: id, link: link.map(|l| l.to_string()) }
}

fn event(id: u16, name: &str) -> Event {
    Event { id, name: name.to_string(), date: 0, badge: badge(false, "e", 1, None) }
}

fn user_badge(name: &str, kind: BadgeKind, winner: bool, link: Option<&str>) -> UserBadge {
    UserBadge {
        event: PartialEvent { name: name.to_string(), date: 1700000000 },
        badge: badge(false, "star", 42, link),
        badge_kind: kind,
        winner,
    }
}

#[test]
fn emoji_markup() {
    assert_eq!(badge(true, "spin", 1234567890123, None).markdown(), "<a:spin:1234567890123>");
    assert_eq!(badge(false, "star", 0, None).markdown(), "<:star:0>");
}

#[test]
fn badge_lines() {
    let mut buf = String::from("x");
    write_badge_line(&mut buf, "<:s:1>", "Spring", 1700000000, false);
    assert_eq!(buf, "x<:s:1> Spring - <t:1700000000:R>\n");
    let mut buf = String::new();
    write_badge_line(&mut buf, "<:s:1>", "Spring", 5, true);
    assert_eq!(buf, "<:s:1> Spring (\u{1F451} winner) - <t:5:R>\n");
}

#[test]
fn badge_kind_codes() {
    assert_eq!(BadgeKind::try_from(0), Ok(BadgeKind::Participated));
    assert_eq!(BadgeKind::try_from(1), Ok(BadgeKind::Contributed));
    assert_eq!(BadgeKind::try_from(2), Ok(BadgeKind::Both));
    assert_eq!(BadgeKind::try_from(3), Err(InvalidBadgeKind));
    assert_eq!(BadgeKind::try_from(-1), Err(InvalidBadgeKind));
    assert_eq!(BadgeKind::Both.to_i64(), 2);
    assert_eq!(InvalidBadgeKind.message(), "Invalid value for BadgeKind");
}

#[test]
fn badge_summary_splits_kinds() {
    let badges = vec![
        user_badge("A", BadgeKind::Participated, true, None),
        user_badge("B", BadgeKind::Contributed, true, Some("https://x")),
        user_badge("C", BadgeKind::Both, false, None),
    ];
    let sum = summarize_badges(&badges);
    assert_eq!(sum.participated_count, 2);
    assert_eq!(sum.contributed_count, 2);
    assert_eq!(
        sum.participated,
        "<:star:42> A (\u{1F451} winner) - <t:1700000000:R>\n<:star:42> C - <t:1700000000:R>\n"
    );
    assert_eq!(
        sum.contributed,
        "<:star:42> [B](https://x) - <t:1700000000:R>\n<:star:42> C - <t:1700000000:R>\n"
    );
}

#[test]
fn new_event_name_limits() {
    assert_eq!(check_new_event("Spring", "spring"), Ok(()));
    assert_eq!(check_new_event(&"n".repeat(121), "b"), Err(NewEventError::NameTooLong));
    assert_eq!(check_new_event(&"n".repeat(120), &"b".repeat(33)), Err(NewEventError::BadgeNameTooLong));
    assert_eq!(check_new_event("n", &"b".repeat(32)), Ok(()));
}

#[test]
fn cache_single_flight() {
    let mut c = EventBadges::new();
    assert!(!c.is_populated());
    assert_eq!(c.begin_populate(), PopulateStart::Claimed);
    assert_eq!(c.begin_populate(), PopulateStart::Busy);
    assert_eq!(EventBadges::populate_error(PopulateStart::Busy), Some(CacheError::Busy));
    assert_eq!(c.finish_populate(Some(vec![event(1, "Spring Hunt"), event(2, "Winter Hunt")])), Ok(()));
    assert_eq!(c.begin_populate(), PopulateStart::Ready);
    assert_eq!(EventBadges::populate_error(PopulateStart::Ready), None);
    assert_eq!(c.get_total_events(), 2);
    assert_eq!(c.get_events().len(), 2);
    assert_eq!(c.find_event_id("Winter"), Some(2));
    assert_eq!(c.find_event_id("Hunt"), Some(1));
    assert_eq!(c.find_event_id("Summer"), None);
    assert_eq!(c.find_event_id(""), Some(1));
    assert_eq!(c.find_event_id("Winter Hunt!"), None);
}

#[test]
fn failed_population_wedges_until_emptied() {
    let mut c = EventBadges::new();
    assert_eq!(c.begin_populate(), PopulateStart::Claimed);
    assert_eq!(c.finish_populate(None), Err(CacheError::QueryFailed));
    assert_eq!(c.begin_populate(), PopulateStart::Busy);
    c.empty_cache();
    assert_eq!(c.begin_populate(), PopulateStart::Claimed);
    assert_eq!(c.finish_populate(Some(vec![])), Ok(()));
    c.push_event(event(5, "New"));
    assert_eq!(c.get_total_events(), 1);
    assert_eq!(CacheError::QueryFailed.message(), "An error occurred when populating the cache.");
    assert_eq!(CacheError::Busy.message(), "The cache is currently being populated, please wait.");
}

#[test]
fn emptying_keeps_a_read_in_flight() {
    let mut c = EventBadges::new();
    assert_eq!(c.begin_populate(), PopulateStart::Claimed);
    c.empty_cache();
    assert!(c.is_populating());
    assert_eq!(c.begin_populate(), PopulateStart::Busy);
    assert_eq!(c.finish_populate(Some(vec![event(1, "A")])), Ok(()));
    assert_eq!(c.get_total_events(), 1);
}

#[test]
fn leaderboard_orders_and_pages() {
    let winners = vec![9];
    let progress = vec![(1, 2), (9, 4), (2, 3), (3, 2)];
    let others = exclude_winners(&progress, &winners);
    assert_eq!(others, vec![(1, 2), (2, 3), (3, 2)]);
    assert_eq!(sort_by_progress(&others), vec![(2, 3), (1, 2), (3, 2)]);
    let pages = progress_pages(&winners, &progress);
    assert_eq!(pages, vec!["<@9>: completed.\n<@2>: 3\n<@1>: 2\n<@3>: 2\n".to_string()]);
}

#[test]
fn pages_hold_ten_lines() {
    let lines: Vec<String> = (0..10).map(|i| format!("{i}\n")).collect();
    let pages = paginate(&lines);
    assert_eq!(pages.len(), 2);
    assert_eq!(pages[0], "0\n1\n2\n3\n4\n5\n6\n7\n8\n9\n");
    assert_eq!(pages[1], "");
    let many: Vec<(u64, usize)> = (0..25).map(|i| (i, 1)).collect();
    assert_eq!(progress_pages(&vec![], &many).len(), 3);
    assert_eq!(progress_pages(&vec![], &vec![]), vec![String::new()]);
}

#[test]
fn registered_commands() {
    let all = commands();
    assert_eq!(all.len(), 15);
    assert_eq!(Command::AddEvent.name(), "add-event");
    assert_eq!(all[1], Command::Setup);
    assert_eq!(all[0], Command::Register);
    assert_eq!(Command::SetQuestion.name(), "set-question");
    assert_eq!(Command::FixedErr.name(), "fixed-err");
    assert!(Command::SetQuestion.owners_only());
    assert!(!Command::Badges.owners_only());
}
