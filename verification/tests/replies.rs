use honestly::error::{AppError, INTERNAL_ERROR_STATUS};
use honestly::handlers::health_check;
use honestly::models::{new_user_response, no_such_user, stored_user_response, success, User};

fn sample_user() -> User {
    User {
        username: "alice".to_string(),
        fullname: "Alice Kim".to_string(),
        following_count: 12,
        follower_count: 340,
        cool_comment: vec!["nice".to_string(), "great".to_string(), "kind".to_string()],
        cool_count: 17,
        bad_comment: vec!["rude".to_string()],
        bad_count: 3,
    }
}

#[test]
fn no_such_user_reply_is_a_failure_with_message() {
    let r: honestly::models::ApiResponse<String> = no_such_user();
    assert!(!r.success);
    assert!(r.data.is_none());
    assert_eq!(r.message.as_deref(), Some("그런 User는 없습니다"));
}

#[test]
fn success_reply_carries_data() {
    let r = success(7u32);
    assert!(r.success);
    assert_eq!(r.data, Some(7));
    assert!(r.message.is_none());
}

#[test]
fn health_check_reports_healthy() {
    let r = health_check();
    assert!(r.success);
    assert_eq!(r.data.as_deref(), Some("Backend is healthy"));
    assert!(r.message.is_none());
}

#[test]
fn stored_user_response_counts_all_comments() {
    let user = sample_user();
    let shown = vec!["nice".to_string()];
    let r = stored_user_response(user, shown.clone(), vec![]);
    assert_eq!(r.username, "alice");
    assert_eq!(r.fullname, "Alice Kim");
    assert_eq!(r.following_count, 12);
    assert_eq!(r.follower_count, 340);
    assert_eq!(r.positive_votes, 17);
    assert_eq!(r.negative_votes, 3);
    assert_eq!(r.positive_comments, Some(shown));
    assert_eq!(r.negative_comments, Some(vec![]));
    assert_eq!(r.total_comments, 4);
}

#[test]
fn new_user_response_shows_no_comments() {
    let user = sample_user();
    let r = new_user_response(&user);
    assert_eq!(r.username, "alice");
    assert_eq!(r.positive_votes, 17);
    assert_eq!(r.negative_votes, 3);
    assert_eq!(r.positive_comments, Some(vec![]));
    assert_eq!(r.negative_comments, Some(vec![]));
    assert_eq!(r.total_comments, 0);
}

#[test]
fn internal_error_reply_is_fixed() {
    let e = AppError::from(anyhow::Error::msg("connection refused"));
    assert_eq!(e.status(), 500);
    assert_eq!(INTERNAL_ERROR_STATUS, 500);
    let body = e.body();
    assert!(!body.success);
    assert!(body.data.is_none());
    assert_eq!(body.message.as_deref(), Some("서버 내부 오류가 발생했습니다."));
    assert_eq!(e.error().to_string(), "connection refused");
}

#[test]
fn internal_error_reply_does_not_depend_on_cause() {
    let a = AppError::from(anyhow::Error::msg("one")).body();
    let b = AppError::from(anyhow::Error::msg("two")).body();
    assert_eq!(a.success, b.success);
    assert_eq!(a.data, b.data);
    assert_eq!(a.message, b.message);
}
