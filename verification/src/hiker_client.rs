use vstd::prelude::*;
use rand::Rng;
use crate::models::{HikerApiResponse, User};

verus! {

/// The address of the profile service's lookup by user name, up to the name itself.
pub open spec fn hiker_user_url_prefix() -> Seq<char> {
    "https://api.hikerapi.com/v2/user/by/username?username="@
}

/// Smallest and largest "cool" count a newly learnt user starts with.
pub const INIT_COOL_MIN: i32 = 1;
pub const INIT_COOL_MAX: i32 = 50;
/// Smallest and largest "bad" count a newly learnt user starts with.
pub const INIT_BAD_MIN: i32 = 1;
pub const INIT_BAD_MAX: i32 = 10;

/// Why the profile service gave no user.
#[derive(Debug, Clone, Copy, PartialEq, Eq)]
pub enum HikerError {
    /// The service answered with a status outside 200..=299.
    UserNotFound,
}

/// The address at which the profile service is asked for `username`: the name is
/// appended to the query as it is, without escaping.
pub fn hiker_user_url(username: &str) -> (url: String)
    ensures
        url@ == hiker_user_url_prefix() + username@,
{
    let mut url = String::from_str("https://api.hikerapi.com/v2/user/by/username?username=");
    url.append(username);
    url
}

/// An HTTP status is a success when it lies in 200..=299.
pub open spec fn is_success_status(status: u16) -> bool {
    200 <= status && status < 300
}

/// Whether the profile service's answer is to be read: only a success status is.
pub fn check_hiker_status(status: u16) -> (r: Result<(), HikerError>)
    ensures
        r is Ok <==> is_success_status(status),
        r is Ok <==> 200 <= status <= 299,
        r matches Err(e) ==> e == HikerError::UserNotFound,
{
    if 200 <= status && status < 300 {
        Ok(())
    } else {
        Err(HikerError::UserNotFound)
    }
}

/// `rand`'s `Rng::gen_range` over an inclusive range, on the thread-local generator.
/// rand 0.8 panics on an empty range (hence the `requires`) and otherwise returns a
/// value inside it; which one is left to chance and is not stated here.
#[verifier::external_body]
fn random_in_inclusive(low: i32, high: i32) -> (x: i32)
    requires
        low <= high,
    ensures
        low <= x <= high,
{
    rand::thread_rng().gen_range(low..=high)
}

/// The user a profile describes, with the given starting counts: absent name parts
/// become empty, absent follow counts become zero, and there are no comments yet.
pub fn user_from_profile(profile: HikerApiResponse, cool_count: i32, bad_count: i32) -> (user: User)
    ensures
        user.username == profile.user.username,
        match profile.user.full_name {
            Some(n) => user.fullname == n,
            None => user.fullname@ == Seq::<char>::empty(),
        },
        user.following_count == (match profile.user.following_count {
            Some(c) => c,
            None => 0,
        }),
        user.follower_count == (match profile.user.follower_count {
            Some(c) => c,
            None => 0,
        }),
        user.cool_comment@.len() == 0,
        user.bad_comment@.len() == 0,
        user.cool_count == cool_count,
        user.bad_count == bad_count,
{
    let hiker_user = profile.user;
    let fullname = match hiker_user.full_name {
        Some(n) => n,
        None => String::new(),
    };
    let following_count = match hiker_user.following_count {
        Some(c) => c,
        None => 0,
    };
    let follower_count = match hiker_user.follower_count {
        Some(c) => c,
        None => 0,
    };
    User {
        username: hiker_user.username,
        fullname,
        following_count,
        follower_count,
        cool_comment: Vec::new(),
        cool_count,
        bad_comment: Vec::new(),
        bad_count,
    }
}

/// The user a profile describes, starting with a random "cool" count in
/// `INIT_COOL_MIN..=INIT_COOL_MAX` and a random "bad" count in `INIT_BAD_MIN..=INIT_BAD_MAX`.
pub fn new_user_from_profile(profile: HikerApiResponse) -> (user: User)
    ensures
        user.username == profile.user.username,
        match profile.user.full_name {
            Some(n) => user.fullname == n,
            None => user.fullname@ == Seq::<char>::empty(),
        },
        user.following_count == (match profile.user.following_count {
            Some(c) => c,
            None => 0,
        }),
        user.follower_count == (match profile.user.follower_count {
            Some(c) => c,
            None => 0,
        }),
        user.cool_comment@.len() == 0,
        user.bad_comment@.len() == 0,
        INIT_COOL_MIN <= user.cool_count <= INIT_COOL_MAX,
        INIT_BAD_MIN <= user.bad_count <= INIT_BAD_MAX,
{
    let cool_count = random_in_inclusive(INIT_COOL_MIN, INIT_COOL_MAX);
    let bad_count = random_in_inclusive(INIT_BAD_MIN, INIT_BAD_MAX);
    user_from_profile(profile, cool_count, bad_count)
}

/// Exactly the statuses 200 through 299 are success statuses: an answer with any
/// other status (a redirect, a client error such as 404 or 429, a server error) is
/// never read as a profile.
pub proof fn lemma_success_statuses(status: u16)
    ensures
        is_success_status(status) <==> 200 <= status <= 299,
        status < 200 ==> !is_success_status(status),
        status >= 300 ==> !is_success_status(status),
{
}

} // verus!
