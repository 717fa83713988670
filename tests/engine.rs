use escape_room::cooldown::{CooldownHandler, WRONG_ANSWER_COOLDOWN_MS, WRONG_STAGE_ALERT_COOLDOWN_MS};
use escape_room::interaction::{format_duration_readable, PressDecision};
use escape_room::room::{EscapeRoom, MoveError, SetQuestionError};
use escape_room::stage::{Question, QuestionPart};
use escape_room::transition::{next_action, ErrorFlag, RemoteOp, RetryDecision, Step, MAX_RETRIES, RETRY_DELAY_MS, SETTLE_DELAY_MS};

fn s(v: &str) -> String {
    v.to_string()
}

fn part(answers: &[&str], patterns: &[&str]) -> QuestionPart {
    QuestionPart::new(
        s("part"),
        answers.iter().map(|a| s(a)).collect(),
        patterns.iter().map(|p| s(p)).collect(),
    )
}

fn stage(parts: Vec<QuestionPart>, channel: u64, token: &str, role: Option<u64>) -> Question {
    let mut q = Question::new(s("prompt"), parts);
    q.channel = Some(channel);
    q.custom_id = Some(s(token));
    q.role_id = role;
    q
}

/// Three stages on channels 100, 200, 300, with tokens a, b, c.
fn room() -> EscapeRoom {
    let mut r = EscapeRoom::new();
    r.active = true;
    r.questions.push(stage(vec![part(&["red"], &[])], 100, "a", None));
    r.questions.push(stage(vec![part(&["two"], &[r"^\d+$"])], 200, "b", Some(20)));
    r.questions.push(stage(vec![part(&["last"], &[])], 300, "c", Some(30)));
    r.winners.winner_channel = Some(900);
    r.winners.winner_role = Some(901);
    r.winners.first_winner_role = Some(902);
    r
}

#[test]
fn literal_match_ignores_case_and_wrong_answer_starts_cooldown() {
    let mut r = room();
    assert!(r.check_answers(7, 0, &vec![s("Red")], 1000));
    assert_eq!(r.cooldowns.check_cooldown(7, 1, 1000), None);
    assert!(!r.check_answers(7, 0, &vec![s("blue")], 1000));
    assert_eq!(r.cooldowns.check_cooldown(7, 1, 1000), Some(WRONG_ANSWER_COOLDOWN_MS));
    assert_eq!(r.cooldowns.check_cooldown(7, 2, 1000), None);
    assert_eq!(r.cooldowns.check_cooldown(8, 1, 1000), None);
}

#[test]
fn pattern_pass_applies_when_literals_fail() {
    let q = stage(vec![part(&["two"], &[r"^\d+$"])], 1, "x", None);
    assert!(q.matches_answers(&vec![s("TWO")]));
    assert!(q.matches_answers(&vec![s("42")]));
    assert!(!q.matches_answers(&vec![s("4x2")]));
}

#[test]
fn passes_are_not_mixed_across_parts() {
    let q = stage(vec![part(&["cat"], &["^d"]), part(&["emu"], &["^f"])], 1, "x", None);
    assert!(q.matches_answers(&vec![s("cat"), s("EMU")]));
    assert!(q.matches_answers(&vec![s("dog"), s("fox")]));
    assert!(!q.matches_answers(&vec![s("cat"), s("fox")]));
    assert!(!q.matches_answers(&vec![s("dog"), s("emu")]));
}

#[test]
fn wrong_number_of_answers_never_matches() {
    let q = stage(vec![part(&["a"], &[]), part(&["b"], &[])], 1, "x", None);
    assert!(!q.matches_answers(&vec![s("a")]));
    assert!(!q.matches_answers(&vec![s("a"), s("b"), s("c")]));
    assert!(q.matches_answers(&vec![s("A"), s("b")]));
}

#[test]
fn invalid_pattern_accepts_nothing() {
    let q = stage(vec![part(&[], &["("])], 1, "x", None);
    assert!(!q.matches_answers(&vec![s("(")]));
    assert!(!q.patterns_valid());
    let mut r = room();
    assert!(r.patterns_valid());
    r.questions.push(q);
    assert!(!r.patterns_valid());
}

#[test]
fn cooldown_counts_down_and_expires() {
    let w = WRONG_ANSWER_COOLDOWN_MS;
    assert_eq!(w, 150_000);
    let mut c = CooldownHandler::new();
    c.wrong_answer_cooldown_handler(1, 3, 10_000);
    assert_eq!(c.check_cooldown(1, 3, 10_000), Some(w));
    assert_eq!(c.check_cooldown(1, 3, 10_000), Some(w));
    assert_eq!(c.check_cooldown(1, 3, 20_000), Some(w - 10_000));
    assert_eq!(c.check_cooldown(1, 3, 10_000 + w - 1), Some(1));
    assert_eq!(c.check_cooldown(1, 3, 10_000 + w), None);
    assert_eq!(c.check_cooldown(1, 3, 5_000), Some(w));
}

#[test]
fn alert_cooldown_is_per_user() {
    let mut c = CooldownHandler::new();
    assert!(!c.check_wrong_question_cooldown(5, 0));
    c.wrong_question_cooldown_handler(5, 0);
    assert!(c.check_wrong_question_cooldown(5, WRONG_STAGE_ALERT_COOLDOWN_MS - 1));
    assert!(!c.check_wrong_question_cooldown(5, WRONG_STAGE_ALERT_COOLDOWN_MS));
    assert!(!c.check_wrong_question_cooldown(6, 1));
}

#[test]
fn sweeping_forgets_only_expired_stamps() {
    let w = WRONG_ANSWER_COOLDOWN_MS;
    let mut c = CooldownHandler::new();
    c.wrong_answer_cooldown_handler(1, 1, 0);
    c.wrong_answer_cooldown_handler(2, 1, 10_000);
    c.wrong_question_cooldown_handler(1, 0);
    c.sweep_expired(w);
    assert_eq!(c.check_cooldown(1, 1, w), None);
    assert_eq!(c.check_cooldown(1, 1, 0), None);
    assert_eq!(c.check_cooldown(2, 1, w), Some(10_000));
    assert!(c.check_wrong_question_cooldown(1, w));
    c.sweep_expired(WRONG_STAGE_ALERT_COOLDOWN_MS);
    assert!(!c.check_wrong_question_cooldown(1, 0));
    assert_eq!(c.check_cooldown(2, 1, 10_000), None);
}

#[test]
fn clearing_cooldowns() {
    let mut c = CooldownHandler::new();
    c.wrong_answer_cooldown_handler(1, 1, 0);
    c.wrong_answer_cooldown_handler(1, 2, 0);
    c.wrong_answer_cooldown_handler(2, 1, 0);
    c.clear_cooldown(1, 3);
    assert_eq!(c.check_cooldown(1, 1, 0), None);
    assert_eq!(c.check_cooldown(1, 2, 0), None);
    assert!(c.check_cooldown(2, 1, 0).is_some());
    c.clear_all_cooldowns();
    assert_eq!(c.check_cooldown(2, 1, 0), None);
}

#[test]
fn progress_starts_at_one_and_advances() {
    let mut r = room();
    assert_eq!(r.get_user_question(42), 1);
    for k in 1..=5 {
        assert_eq!(r.user_next_question(42), 1 + k);
    }
    assert_eq!(r.get_user_question(42), 6);
    assert_eq!(r.get_user_question(43), 1);
    r.member_left(42);
    assert_eq!(r.get_user_question(42), 1);
}

#[test]
fn retry_policy() {
    assert_eq!(next_action(0), RetryDecision::RetryAfter(RETRY_DELAY_MS));
    assert_eq!(next_action(2), RetryDecision::RetryAfter(RETRY_DELAY_MS));
    assert_eq!(next_action(3), RetryDecision::Escalate);
    assert_eq!(MAX_RETRIES, 3);
}

#[test]
fn successful_move_to_next_stage() {
    let mut r = room();
    let mut t = r.plan_transition(7, 100).unwrap();
    assert_eq!(t.first_step(), Step::PerformAfter(0, RemoteOp::HideChannel(100)));
    assert_eq!(r.transition_result(&mut t, true), Step::PerformAfter(SETTLE_DELAY_MS, RemoteOp::ShowChannel(200)));
    assert_eq!(r.get_user_question(7), 1);
    assert_eq!(r.transition_result(&mut t, true), Step::Finished { user: 7, new_index: 2, won: None });
    assert_eq!(r.get_user_question(7), 2);
    assert_eq!(r.error_flag(7), ErrorFlag::Clear);
}

#[test]
fn later_stage_removes_the_user_override() {
    let r = room();
    let t = r.plan_transition(7, 200).unwrap();
    assert_eq!(t.current_op(), RemoteOp::RemoveOverride(200));
    assert_eq!(t.grants, vec![RemoteOp::ShowChannel(300)]);
    assert_eq!(r.plan_transition(7, 555).err(), Some(MoveError::UnknownChannel));
}

#[test]
fn missing_next_channel_is_reported() {
    let mut r = room();
    r.questions[1].channel = None;
    assert_eq!(r.plan_transition(7, 100).err(), Some(MoveError::NextChannelMissing));
}

#[test]
fn revoke_failing_four_times_escalates() {
    let mut r = room();
    r.user_next_question(7);
    let mut t = r.plan_transition(7, 200).unwrap();
    let op = RemoteOp::RemoveOverride(200);
    for n in 0..3 {
        assert_eq!(r.transition_result(&mut t, false), Step::PerformAfter(RETRY_DELAY_MS, op));
        assert_eq!(r.error_flag(7), ErrorFlag::PendingRetry);
        assert_eq!(t.retries, n + 1);
    }
    let step = r.transition_result(&mut t, false);
    assert_eq!(step, Step::Escalate { user: 7, op, revoking: true });
    assert_eq!(r.error_flag(7), ErrorFlag::HardFailed);
    assert_eq!(r.overwrite_err_check(7), Some(true));
    assert_eq!(r.get_user_question(7), 2);
    assert!(t.done);
}

#[test]
fn grant_failing_after_revoke_never_advances() {
    let mut r = room();
    let mut t = r.plan_transition(7, 100).unwrap();
    r.transition_result(&mut t, true);
    for _ in 0..3 {
        assert!(matches!(r.transition_result(&mut t, false), Step::PerformAfter(RETRY_DELAY_MS, _)));
    }
    let step = r.transition_result(&mut t, false);
    assert_eq!(step, Step::Escalate { user: 7, op: RemoteOp::ShowChannel(200), revoking: false });
    assert_eq!(r.error_flag(7), ErrorFlag::HardFailed);
    assert_eq!(r.get_user_question(7), 1);
}

#[test]
fn a_retry_that_succeeds_clears_the_flag() {
    let mut r = room();
    let mut t = r.plan_transition(7, 100).unwrap();
    r.transition_result(&mut t, false);
    assert_eq!(r.error_flag(7), ErrorFlag::PendingRetry);
    r.transition_result(&mut t, true);
    assert_eq!(r.error_flag(7), ErrorFlag::Clear);
}

#[test]
fn operator_fix_clears_flag_and_advances() {
    let mut r = room();
    r.overwrite_err(7, Some(true));
    assert_eq!(r.fixed_err(7), 2);
    assert_eq!(r.error_flag(7), ErrorFlag::Clear);
    r.overwrite_err(7, Some(false));
    assert_eq!(r.overwrite_err_check(7), Some(false));
    r.overwrite_err(7, None);
    assert_eq!(r.overwrite_err_check(7), None);
}

#[test]
fn first_and_later_winners() {
    let mut r = room();
    r.set_question(1, 3, &vec![], false).unwrap();
    r.set_question(2, 3, &vec![], false).unwrap();
    let mut t = r.plan_transition(1, 300).unwrap();
    assert_eq!(t.next_channel, None);
    let step = r.transition_result(&mut t, true);
    assert_eq!(step, Step::PerformAfter(SETTLE_DELAY_MS, RemoteOp::ShowChannel(900)));
    assert_eq!(t.grants, vec![RemoteOp::ShowChannel(900), RemoteOp::GrantRole(901), RemoteOp::GrantRole(902)]);
    assert_eq!(r.winners.first_winner, Some(1));
    assert_eq!(r.transition_result(&mut t, true), Step::PerformAfter(0, RemoteOp::GrantRole(901)));
    assert_eq!(r.transition_result(&mut t, true), Step::PerformAfter(0, RemoteOp::GrantRole(902)));
    assert_eq!(r.transition_result(&mut t, true), Step::Finished { user: 1, new_index: 4, won: Some(true) });

    let mut t2 = r.plan_transition(2, 300).unwrap();
    r.transition_result(&mut t2, true);
    assert_eq!(t2.grants, vec![RemoteOp::ShowChannel(900), RemoteOp::GrantRole(901)]);
    assert_eq!(t2.won, Some(false));
    assert_eq!(r.winners.first_winner, Some(1));
    assert_eq!(r.winners.winners, vec![1, 2]);
}

#[test]
fn press_on_own_stage_asks_for_answers() {
    let mut r = room();
    let rep = r.handle_press(7, &s("a"), 100, 0, 55);
    assert_eq!(rep.decision, PressDecision::Ask(0));
    assert_eq!(rep.expected, None);
    assert!(!rep.alert);
}

#[test]
fn inactive_game_and_unknown_token_are_ignored() {
    let mut r = room();
    assert_eq!(r.handle_press(7, &s("zzz"), 100, 0, 0).decision, PressDecision::Ignore);
    r.set_status(false);
    assert_eq!(r.handle_press(7, &s("a"), 100, 0, 0).decision, PressDecision::Ignore);
    assert!(!r.get_status());
}

#[test]
fn press_from_another_channel_is_ignored() {
    let mut r = room();
    assert_eq!(r.handle_press(7, &s("a"), 999, 0, 0).decision, PressDecision::Ignore);
}

#[test]
fn press_during_cooldown_is_refused() {
    let mut r = room();
    r.check_answers(7, 0, &vec![s("nope")], 1_000);
    assert_eq!(r.handle_press(7, &s("a"), 100, 6_000, 0).decision, PressDecision::TooFast(145_000));
    assert_eq!(r.handle_press(7, &s("a"), 100, 151_000, 0).decision, PressDecision::Ask(0));
}

#[test]
fn press_on_a_later_stage_is_misplaced_and_alerts_once() {
    let mut r = room();
    let rep = r.handle_press(7, &s("b"), 200, 0, 0);
    assert_eq!(rep.decision, PressDecision::Misplaced);
    assert_eq!(rep.expected, Some(1));
    assert!(rep.alert);
    let rep = r.handle_press(7, &s("b"), 200, 1_000, 0);
    assert!(!rep.alert);
}

#[test]
fn press_on_the_first_stage_by_an_advanced_user_restarts_them() {
    let mut r = room();
    r.user_next_question(7);
    let rep = r.handle_press(7, &s("a"), 100, 0, 0);
    assert_eq!(rep.expected, Some(2));
    assert_eq!(rep.decision, PressDecision::Ask(0));
    assert_eq!(r.get_user_question(7), 1);
}

#[test]
fn finishing_without_start_is_reported() {
    let mut r = room();
    r.set_question(7, 3, &vec![], false).unwrap();
    let rep = r.handle_press(7, &s("c"), 300, 0, 99);
    assert!(rep.missing_start);
    assert_eq!(rep.decision, PressDecision::Ask(2));
}

#[test]
fn operator_override_sets_stage_and_roles() {
    let mut r = room();
    assert_eq!(r.set_question(7, 0, &vec![], true), Err(SetQuestionError::ZeroStage));
    assert_eq!(r.set_question(7, 1, &vec![5, 20, 30, 6], true), Ok(Some(vec![5, 6])));
    assert_eq!(r.get_user_question(7), 1);
    assert_eq!(r.set_question(7, 2, &vec![5, 30], true), Ok(Some(vec![5, 20])));
    assert_eq!(r.get_user_question(7), 2);
    assert_eq!(r.set_question(7, 3, &vec![], false), Ok(None));
    assert_eq!(r.set_question(7, 9, &vec![], true), Err(SetQuestionError::RoleNotFound));
    assert_eq!(r.get_user_question(7), 9);
}

#[test]
fn durations_read_naturally() {
    assert_eq!(format_duration_readable(14_999), "14 seconds");
    assert_eq!(format_duration_readable(0), "0 seconds");
    assert_eq!(format_duration_readable(125_000), "2 minutes, 5 seconds");
}

#[test]
fn press_on_a_stage_without_channel_is_reported() {
    let mut r = room();
    r.questions[0].channel = None;
    assert_eq!(r.handle_press(7, &s("a"), 100, 0, 0).decision, PressDecision::StageChannelMissing);
}

#[test]
fn distinct_finishers_are_listed_once_each() {
    let mut r = room();
    for u in [11, 12, 13] {
        r.set_question(u, 3, &vec![], false).unwrap();
        let mut t = r.plan_transition(u, 300).unwrap();
        r.transition_result(&mut t, true);
    }
    assert_eq!(r.winners.first_winner, Some(11));
    assert_eq!(r.winners.winners, vec![11, 12, 13]);
}
