use honestly::hiker_client::{
    check_hiker_status, hiker_user_url, new_user_from_profile, user_from_profile, HikerError,
    INIT_BAD_MAX, INIT_BAD_MIN, INIT_COOL_MAX, INIT_COOL_MIN,
};
use honestly::models::{HikerApiResponse, HikerUser};

fn profile(full: Option<&str>, followers: Option<i32>, following: Option<i32>) -> HikerApiResponse {
    HikerApiResponse {
        user: HikerUser {
            username: "bob".to_string(),
            full_name: full.map(|s| s.to_string()),
            follower_count: followers,
            following_count: following,
        },
    }
}

#[test]
fn url_appends_the_name() {
    assert_eq!(
        hiker_user_url("bob"),
        "https://api.hikerapi.com/v2/user/by/username?username=bob"
    );
    assert_eq!(
        hiker_user_url("a b"),
        "https://api.hikerapi.com/v2/user/by/username?username=a b"
    );
}

#[test]
fn only_success_statuses_are_read() {
    assert_eq!(check_hiker_status(200), Ok(()));
    assert_eq!(check_hiker_status(204), Ok(()));
    assert_eq!(check_hiker_status(299), Ok(()));
    assert_eq!(check_hiker_status(199), Err(HikerError::UserNotFound));
    assert_eq!(check_hiker_status(300), Err(HikerError::UserNotFound));
    assert_eq!(check_hiker_status(404), Err(HikerError::UserNotFound));
    assert_eq!(check_hiker_status(500), Err(HikerError::UserNotFound));
}

#[test]
fn profile_fields_are_copied() {
    let u = user_from_profile(profile(Some("Bob Lee"), Some(90), Some(12)), 30, 4);
    assert_eq!(u.username, "bob");
    assert_eq!(u.fullname, "Bob Lee");
    assert_eq!(u.follower_count, 90);
    assert_eq!(u.following_count, 12);
    assert_eq!(u.cool_count, 30);
    assert_eq!(u.bad_count, 4);
    assert!(u.cool_comment.is_empty());
    assert!(u.bad_comment.is_empty());
}

#[test]
fn absent_profile_fields_get_defaults() {
    let u = user_from_profile(profile(None, None, None), 1, 1);
    assert_eq!(u.fullname, "");
    assert_eq!(u.follower_count, 0);
    assert_eq!(u.following_count, 0);
}

#[test]
fn new_users_start_with_counts_in_range() {
    let mut cools = Vec::new();
    for _ in 0..300 {
        let u = new_user_from_profile(profile(Some("Bob"), Some(1), Some(2)));
        assert!(INIT_COOL_MIN <= u.cool_count && u.cool_count <= INIT_COOL_MAX);
        assert!(INIT_BAD_MIN <= u.bad_count && u.bad_count <= INIT_BAD_MAX);
        assert_eq!(u.fullname, "Bob");
        assert!(u.cool_comment.is_empty() && u.bad_comment.is_empty());
        cools.push(u.cool_count);
    }
    assert_eq!((INIT_COOL_MIN, INIT_COOL_MAX, INIT_BAD_MIN, INIT_BAD_MAX), (1, 50, 1, 10));
    assert!(cools.iter().any(|&c| c != cools[0]), "the starting counts never varied");
}
