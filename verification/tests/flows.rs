use honestly::handlers::{
    FeedbackAction, FeedbackEvent, FeedbackFlow, FeedbackKind, FeedbackStage, GetUserAction,
    GetUserEvent, GetUserFlow, GetUserStage, hidden_username,
};
use honestly::models::User;

fn user(name: &str, cool: usize, bad: usize) -> User {
    User {
        username: name.to_string(),
        fullname: "Full Name".to_string(),
        following_count: 5,
        follower_count: 6,
        cool_comment: (0..cool).map(|i| format!("cool {}", i)).collect(),
        cool_count: 40,
        bad_comment: (0..bad).map(|i| format!("bad {}", i)).collect(),
        bad_count: 9,
    }
}

fn reply_text(a: &FeedbackAction) -> (bool, Option<String>, Option<String>) {
    match a {
        FeedbackAction::Reply(r) => (r.success, r.data.clone(), r.message.clone()),
        other => panic!("expected a reply, got {:?}", other),
    }
}

#[test]
fn hidden_names_are_recognised() {
    assert!(hidden_username(&"nam_2ee.eth".to_string()));
    assert!(hidden_username(&"_gyuuyg_".to_string()));
    assert!(!hidden_username(&"nam_2ee".to_string()));
    assert!(!hidden_username(&"alice".to_string()));
}

#[test]
fn lookup_of_hidden_name_is_answered_at_once() {
    let (flow, action) = GetUserFlow::start("nam_2ee.eth".to_string());
    assert!(matches!(flow.stage, GetUserStage::Finished));
    match action {
        GetUserAction::Reply(r) => {
            assert!(!r.success);
            assert!(r.data.is_none());
            assert_eq!(r.message.as_deref(), Some("그런 User는 없습니다"));
        }
        other => panic!("unexpected {:?}", other),
    }
    assert!(!flow.accepts(&GetUserEvent::StoredUser(None)));
}

#[test]
fn lookup_of_stored_user_shows_it() {
    let (flow, action) = GetUserFlow::start("alice".to_string());
    match action {
        GetUserAction::FindUser(n) => assert_eq!(n, "alice"),
        other => panic!("unexpected {:?}", other),
    }
    let stored = user("alice", 7, 2);
    let all_cool = stored.cool_comment.clone();
    let (flow, action) = flow.next(GetUserEvent::StoredUser(Some(stored)));
    assert!(matches!(flow.stage, GetUserStage::Finished));
    match action {
        GetUserAction::Reply(r) => {
            assert!(r.success);
            assert!(r.message.is_none());
            let d = r.data.unwrap();
            assert_eq!(d.username, "alice");
            assert_eq!(d.positive_votes, 40);
            assert_eq!(d.negative_votes, 9);
            assert_eq!(d.total_comments, 9);
            let p = d.positive_comments.unwrap();
            assert_eq!(p.len(), 4);
            assert!(p.iter().all(|c| all_cool.contains(c)));
            let mut n = d.negative_comments.unwrap();
            n.sort();
            assert_eq!(n, vec!["bad 0".to_string(), "bad 1".to_string()]);
        }
        other => panic!("unexpected {:?}", other),
    }
}

#[test]
fn lookup_of_new_user_saves_and_shows_it() {
    for ok in [true, false] {
        let (flow, _) = GetUserFlow::start("carol".to_string());
        let (flow, action) = flow.next(GetUserEvent::StoredUser(None));
        match action {
            GetUserAction::FetchProfile(n) => assert_eq!(n, "carol"),
            other => panic!("unexpected {:?}", other),
        }
        let (flow, action) = flow.next(GetUserEvent::Profile(Some(user("carol", 0, 0))));
        match action {
            GetUserAction::SaveUser(u) => assert_eq!(u.username, "carol"),
            other => panic!("unexpected {:?}", other),
        }
        assert!(flow.accepts(&GetUserEvent::Saved { ok }));
        let (flow, action) = flow.next(GetUserEvent::Saved { ok });
        assert!(matches!(flow.stage, GetUserStage::Finished));
        match action {
            GetUserAction::Reply(r) => {
                assert!(r.success);
                let d = r.data.unwrap();
                assert_eq!(d.username, "carol");
                assert_eq!(d.positive_comments, Some(vec![]));
                assert_eq!(d.negative_comments, Some(vec![]));
                assert_eq!(d.total_comments, 0);
                assert_eq!(d.positive_votes, 40);
            }
            other => panic!("unexpected {:?}", other),
        }
    }
}

#[test]
fn lookup_of_unknown_user_says_so() {
    let (flow, _) = GetUserFlow::start("nobody".to_string());
    let (flow, _) = flow.next(GetUserEvent::StoredUser(None));
    let (flow, action) = flow.next(GetUserEvent::Profile(None));
    assert!(matches!(flow.stage, GetUserStage::Finished));
    match action {
        GetUserAction::Reply(r) => {
            assert!(!r.success);
            assert_eq!(r.message.as_deref(), Some("그런 User는 없습니다"));
        }
        other => panic!("unexpected {:?}", other),
    }
}

#[test]
fn lookup_store_failure_fails() {
    let (flow, _) = GetUserFlow::start("alice".to_string());
    assert!(!flow.accepts(&GetUserEvent::Saved { ok: true }));
    let (flow, action) = flow.next(GetUserEvent::StoreFailed);
    assert!(matches!(flow.stage, GetUserStage::Finished));
    assert!(matches!(action, GetUserAction::Fail));
}

fn kinds() -> Vec<(FeedbackKind, &'static str)> {
    vec![
        (FeedbackKind::IncrementNegative, "Negative count incremented"),
        (FeedbackKind::IncrementCool, "Cool count incremented"),
        (FeedbackKind::NegativeComment("meh".to_string()), "Negative feedback added successfully"),
        (FeedbackKind::CoolComment("wow".to_string()), "Cool feedback added successfully"),
    ]
}

#[test]
fn feedback_for_stored_user_is_recorded() {
    for (kind, done) in kinds() {
        let (flow, action) = FeedbackFlow::start("alice".to_string(), kind);
        match action {
            FeedbackAction::FindUser(n) => assert_eq!(n, "alice"),
            other => panic!("unexpected {:?}", other),
        }
        let (flow, action) = flow.next(FeedbackEvent::StoredUser { found: true });
        match &action {
            FeedbackAction::ApplyFeedback { username, .. } => assert_eq!(username, "alice"),
            other => panic!("unexpected {:?}", other),
        }
        let (flow, action) = flow.next(FeedbackEvent::Updated { touched: true });
        assert!(matches!(flow.stage, FeedbackStage::Finished));
        assert_eq!(reply_text(&action), (true, Some(done.to_string()), None));
    }
}

#[test]
fn feedback_comment_is_passed_on() {
    let (flow, _) = FeedbackFlow::start("alice".to_string(), FeedbackKind::CoolComment("wow".to_string()));
    let (_, action) = flow.next(FeedbackEvent::StoredUser { found: true });
    match action {
        FeedbackAction::ApplyFeedback { kind: FeedbackKind::CoolComment(c), .. } => assert_eq!(c, "wow"),
        other => panic!("unexpected {:?}", other),
    }
}

#[test]
fn feedback_for_new_user_creates_it_first() {
    let (flow, _) = FeedbackFlow::start("dave".to_string(), FeedbackKind::IncrementNegative);
    let (flow, action) = flow.next(FeedbackEvent::StoredUser { found: false });
    assert!(matches!(action, FeedbackAction::FetchProfile(ref n) if n == "dave"));
    let (flow, action) = flow.next(FeedbackEvent::Profile(Some(user("dave", 0, 0))));
    assert!(matches!(action, FeedbackAction::CreateUser(ref u) if u.username == "dave"));
    let (flow, action) = flow.next(FeedbackEvent::Created);
    assert!(matches!(action, FeedbackAction::ApplyFeedback { ref username, kind: FeedbackKind::IncrementNegative } if username == "dave"));
    let (flow, action) = flow.next(FeedbackEvent::Updated { touched: false });
    assert!(matches!(flow.stage, FeedbackStage::Finished));
    assert_eq!(reply_text(&action), (true, Some("Negative count incremented".to_string()), None));
}

#[test]
fn feedback_for_unknown_user_says_so() {
    let (flow, _) = FeedbackFlow::start("nobody".to_string(), FeedbackKind::IncrementCool);
    let (flow, _) = flow.next(FeedbackEvent::StoredUser { found: false });
    assert!(!flow.accepts(&FeedbackEvent::StoreFailed));
    let (flow, action) = flow.next(FeedbackEvent::Profile(None));
    assert!(matches!(flow.stage, FeedbackStage::Finished));
    assert_eq!(reply_text(&action), (false, None, Some("그런 User는 없습니다".to_string())));
}

#[test]
fn feedback_store_failures_fail() {
    let (flow, _) = FeedbackFlow::start("x".to_string(), FeedbackKind::IncrementCool);
    let (_, action) = flow.next(FeedbackEvent::StoreFailed);
    assert!(matches!(action, FeedbackAction::Fail));

    let (flow, _) = FeedbackFlow::start("x".to_string(), FeedbackKind::IncrementCool);
    let (flow, _) = flow.next(FeedbackEvent::StoredUser { found: false });
    let (flow, _) = flow.next(FeedbackEvent::Profile(Some(user("x", 0, 0))));
    let (flow, action) = flow.next(FeedbackEvent::StoreFailed);
    assert!(matches!(action, FeedbackAction::Fail));
    assert!(matches!(flow.stage, FeedbackStage::Finished));

    let (flow, _) = FeedbackFlow::start("x".to_string(), FeedbackKind::IncrementCool);
    let (flow, _) = flow.next(FeedbackEvent::StoredUser { found: true });
    let (_, action) = flow.next(FeedbackEvent::StoreFailed);
    assert!(matches!(action, FeedbackAction::Fail));
}

#[test]
fn finished_feedback_waits_for_nothing() {
    let (flow, _) = FeedbackFlow::start("x".to_string(), FeedbackKind::IncrementCool);
    let (flow, _) = flow.next(FeedbackEvent::StoreFailed);
    assert!(!flow.accepts(&FeedbackEvent::Created));
    assert!(!flow.accepts(&FeedbackEvent::StoreFailed));
    assert!(!flow.accepts(&FeedbackEvent::Updated { touched: true }));
}

#[test]
fn lookup_after_comment_feedback_shows_it() {
    let before = user("erin", 2, 1);
    let mut after = user("erin", 2, 1);
    after.cool_count += 1;
    after.cool_comment.push("lovely".to_string());
    let r = honestly::handlers::stored_user_reply(after);
    let d = r.data.unwrap();
    assert_eq!(d.positive_votes, before.cool_count + 1);
    assert_eq!(d.negative_votes, before.bad_count);
    assert_eq!(d.total_comments, 4);
    assert!(d.positive_comments.unwrap().contains(&"lovely".to_string()));
}

#[test]
fn feedback_answer_ignores_whether_a_row_matched() {
    let answer = |touched: bool| {
        let (flow, _) = FeedbackFlow::start("f".to_string(), FeedbackKind::IncrementCool);
        let (flow, _) = flow.next(FeedbackEvent::StoredUser { found: true });
        let (_, action) = flow.next(FeedbackEvent::Updated { touched });
        reply_text(&action)
    };
    assert_eq!(answer(true), answer(false));
}

#[test]
fn lookup_answer_ignores_whether_saving_worked() {
    let answer = |ok: bool| {
        let (flow, _) = GetUserFlow::start("g".to_string());
        let (flow, _) = flow.next(GetUserEvent::StoredUser(None));
        let (flow, _) = flow.next(GetUserEvent::Profile(Some(user("g", 0, 0))));
        match flow.next(GetUserEvent::Saved { ok }).1 {
            GetUserAction::Reply(r) => {
                let d = r.data.unwrap();
                (r.success, d.username, d.positive_votes, d.negative_votes, d.total_comments)
            }
            other => panic!("unexpected {:?}", other),
        }
    };
    assert_eq!(answer(true), answer(false));
}
