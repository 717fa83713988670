use escape_room::room::EscapeRoom;
use escape_room::setup::{
    stage_channel_name, stage_custom_id, stage_overwrites, winner_overwrites, Access, Overwrite, OverwriteTarget,
    SetupRefusal, UnlockError,
};
use escape_room::stage::{Question, QuestionPart};

fn answerable() -> Question {
    Question::new("q".to_string(), vec![QuestionPart::new("p".to_string(), vec!["a".to_string()], vec![])])
}

fn ow(target: OverwriteTarget, access: Access) -> Overwrite {
    Overwrite { target, access }
}

fn configured(n: usize) -> EscapeRoom {
    let mut r = EscapeRoom::new();
    for _ in 0..n {
        r.questions.push(answerable());
    }
    r.winners.first_winner_role = Some(91);
    r.winners.winner_role = Some(92);
    r
}

#[test]
fn setup_refusals() {
    let mut r = configured(2);
    assert_eq!(r.check_setup(), (false, false));
    assert_eq!(r.setup_refusal(), None);
    r.questions[1].parts[0].answers.clear();
    assert_eq!(r.check_setup(), (false, true));
    assert_eq!(r.setup_refusal(), Some(SetupRefusal::Unanswerable));
    r.questions[0].channel = Some(5);
    assert_eq!(r.setup_refusal(), Some(SetupRefusal::AlreadySetUpAndUnanswerable));
    r.questions[1].parts[0].answers.push("b".to_string());
    assert_eq!(r.setup_refusal(), Some(SetupRefusal::AlreadySetUp));
    let mut r = configured(1);
    r.winners.winner_role = None;
    assert_eq!(r.setup_refusal(), Some(SetupRefusal::WinnerRolesMissing));
    assert_eq!(configured(0).setup_refusal(), Some(SetupRefusal::NoQuestions));
    let mut r = configured(1);
    r.questions[0].parts.clear();
    assert_eq!(r.check_setup(), (false, true));
}

#[test]
fn channel_names_and_tokens() {
    assert_eq!(stage_channel_name(3), "question-3");
    assert_eq!(stage_custom_id(987654321, 0), "987654321_0");
    assert_eq!(stage_custom_id(1, 12), "1_12");
}

#[test]
fn overwrite_plans() {
    assert_eq!(
        stage_overwrites(1, 2, 3),
        vec![
            ow(OverwriteTarget::Role(1), Access::Hidden),
            ow(OverwriteTarget::Member(2), Access::Bot),
            ow(OverwriteTarget::Role(3), Access::View),
        ]
    );
    assert_eq!(
        winner_overwrites(1, 2, 91, 92),
        vec![
            ow(OverwriteTarget::Role(1), Access::Hidden),
            ow(OverwriteTarget::Member(2), Access::Bot),
            ow(OverwriteTarget::Role(91), Access::Full),
            ow(OverwriteTarget::Role(92), Access::Full),
        ]
    );
    let mut r = configured(3);
    r.assign_stage_roles(&vec![20, 30]);
    assert_eq!(r.questions[0].role_id, None);
    assert_eq!(r.questions[1].role_id, Some(20));
    assert_eq!(r.questions[2].role_id, Some(30));
    assert_eq!(
        r.first_stage_overwrites(1, 2, 91, 92),
        vec![
            ow(OverwriteTarget::Role(20), Access::Hidden),
            ow(OverwriteTarget::Role(30), Access::Hidden),
            ow(OverwriteTarget::Role(1), Access::Hidden),
            ow(OverwriteTarget::Role(91), Access::Hidden),
            ow(OverwriteTarget::Role(92), Access::Hidden),
            ow(OverwriteTarget::Member(2), Access::Bot),
        ]
    );
}

#[test]
fn recording_channels_and_unlocking() {
    let mut r = configured(2);
    assert_eq!(r.first_channel_to_unlock(), Err(UnlockError::NotSetUp));
    r.assign_stage_channel(0, 100, "run_0".to_string());
    r.assign_stage_channel(1, 200, "run_1".to_string());
    assert_eq!(r.questions[1].channel, Some(200));
    assert_eq!(r.questions[1].custom_id.as_deref(), Some("run_1"));
    assert_eq!(r.first_channel_to_unlock(), Err(UnlockError::NoGuild));
    r.finish_setup(7, 900);
    assert_eq!(r.winners.winner_channel, Some(900));
    assert_eq!(r.first_channel_to_unlock(), Ok((7, 100)));
    assert_eq!(r.check_setup(), (true, false));
    assert_eq!(EscapeRoom::new().first_channel_to_unlock(), Err(UnlockError::NoQuestions));
}
