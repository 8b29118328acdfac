use vstd::prelude::*;

verus! {

/// A user as the store keeps it.
#[derive(Debug, Clone)]
pub struct User {
    pub username: String,
    pub fullname: String,
    pub following_count: i32,
    pub follower_count: i32,
    pub cool_comment: Vec<String>,
    pub cool_count: i32,
    pub bad_comment: Vec<String>,
    pub bad_count: i32,
}

/// The body the profile service answers with.
#[derive(Debug)]
pub struct HikerApiResponse {
    pub user: HikerUser,
}

/// The profile part of the profile service's answer; every field but the name may be absent.
#[derive(Debug)]
pub struct HikerUser {
    pub username: String,
    pub full_name: Option<String>,
    pub follower_count: Option<i32>,
    pub following_count: Option<i32>,
}

/// What a lookup of a user answers with.
#[derive(Debug)]
pub struct UserResponse {
    pub username: String,
    pub fullname: String,
    pub following_count: i32,
    pub follower_count: i32,
    pub positive_votes: i32,
    pub negative_votes: i32,
    pub positive_comments: Option<Vec<String>>,
    pub negative_comments: Option<Vec<String>>,
    pub total_comments: i32,
}

/// The envelope of every reply.
#[derive(Debug)]
pub struct ApiResponse<T> {
    pub success: bool,
    pub data: Option<T>,
    pub message: Option<String>,
}

/// The text of the reply to a request about a user that does not exist.
pub open spec fn no_such_user_text() -> Seq<char> {
    "그런 User는 없습니다"@
}

/// A reply is the "no such user" reply.
pub open spec fn is_no_such_user<T>(r: ApiResponse<T>) -> bool {
    &&& !r.success
    &&& r.data is None
    &&& r.message matches Some(m) && m@ == no_such_user_text()
}

/// A reply is a successful one carrying `data` and no message.
pub open spec fn is_success_with<T>(r: ApiResponse<T>, data: T) -> bool {
    &&& r.success
    &&& r.data == Some(data)
    &&& r.message is None
}

/// The reply to a request about a user that does not exist.
pub fn no_such_user<T>() -> (r: ApiResponse<T>)
    ensures
        is_no_such_user(r),
{
    ApiResponse { success: false, data: None, message: Some(String::from_str("그런 User는 없습니다")) }
}

/// A successful reply carrying `data`.
pub fn success<T>(data: T) -> (r: ApiResponse<T>)
    ensures
        is_success_with(r, data),
{
    ApiResponse { success: true, data: Some(data), message: None }
}

/// The number of comments a user has received, as the reply's `i32` field holds it
/// (the count wraps as a cast to `i32` does).
pub open spec fn comment_total(user: User) -> i32 {
    (user.cool_comment.len() + user.bad_comment.len()) as i32
}

/// The reply's view of a stored user, carrying the comments picked for display.
pub fn stored_user_response(user: User, positive: Vec<String>, negative: Vec<String>) -> (r: UserResponse)
    ensures
        r.username == user.username,
        r.fullname == user.fullname,
        r.following_count == user.following_count,
        r.follower_count == user.follower_count,
        r.positive_votes == user.cool_count,
        r.negative_votes == user.bad_count,
        r.positive_comments == Some(positive),
        r.negative_comments == Some(negative),
        r.total_comments == comment_total(user),
{
    let cool_len = user.cool_comment.len() as u128;
    let bad_len = user.bad_comment.len() as u128;
    let total = (cool_len + bad_len) as i32;
    UserResponse {
        username: user.username,
        fullname: user.fullname,
        following_count: user.following_count,
        follower_count: user.follower_count,
        positive_votes: user.cool_count,
        negative_votes: user.bad_count,
        positive_comments: Some(positive),
        negative_comments: Some(negative),
        total_comments: total,
    }
}

/// The reply's view of a user just learnt from the profile service: its comments are
/// not shown, and none are counted.
pub fn new_user_response(user: &User) -> (r: UserResponse)
    ensures
        r.username == user.username,
        r.fullname == user.fullname,
        r.following_count == user.following_count,
        r.follower_count == user.follower_count,
        r.positive_votes == user.cool_count,
        r.negative_votes == user.bad_count,
        r.positive_comments matches Some(p) && p@.len() == 0,
        r.negative_comments matches Some(n) && n@.len() == 0,
        r.total_comments == 0,
{
    UserResponse {
        username: user.username.clone(),
        fullname: user.fullname.clone(),
        following_count: user.following_count,
        follower_count: user.follower_count,
        positive_votes: user.cool_count,
        negative_votes: user.bad_count,
        positive_comments: Some(Vec::new()),
        negative_comments: Some(Vec::new()),
        total_comments: 0,
    }
}

} // verus!
