use vstd::prelude::*;
use crate::models::{
    ApiResponse, User, UserResponse, is_no_such_user, comment_total, no_such_user, success,
    stored_user_response, new_user_response,
};
use crate::utils::{get_random_comments, is_selection};
use crate::hiker_client::{INIT_COOL_MIN, INIT_COOL_MAX, INIT_BAD_MIN, INIT_BAD_MAX};

verus! {

/// The body of a request that leaves a comment.
#[derive(Debug)]
pub struct FeedbackRequest {
    pub comment: String,
}

/// How many comments of each kind a lookup shows at most.
pub const DISPLAYED_COMMENTS: usize = 4;

/// A reply is a successful one whose data is a text with view `text`.
pub open spec fn is_success_text(r: ApiResponse<String>, text: Seq<char>) -> bool {
    &&& r.success
    &&& r.message is None
    &&& r.data matches Some(d) && d@ == text
}

/// The reply to a health check.
pub fn health_check() -> (r: ApiResponse<String>)
    ensures
        is_success_text(r, "Backend is healthy"@),
{
    success(String::from_str("Backend is healthy"))
}

// ---------------------------------------------------------------------------
// Feedback requests: make sure the user is known, then record the feedback.
// ---------------------------------------------------------------------------

/// What a feedback request records.
#[derive(Debug)]
pub enum FeedbackKind {
    /// One more negative vote.
    IncrementNegative,
    /// One more positive vote.
    IncrementCool,
    /// One more negative vote, with this comment.
    NegativeComment(String),
    /// One more positive vote, with this comment.
    CoolComment(String),
}

/// The text a feedback request answers with once its feedback is recorded.
pub open spec fn feedback_done_text(kind: FeedbackKind) -> Seq<char> {
    match kind {
        FeedbackKind::IncrementNegative => "Negative count incremented"@,
        FeedbackKind::IncrementCool => "Cool count incremented"@,
        FeedbackKind::NegativeComment(_) => "Negative feedback added successfully"@,
        FeedbackKind::CoolComment(_) => "Cool feedback added successfully"@,
    }
}

impl FeedbackKind {
    /// A copy of this kind.
    pub fn duplicate(&self) -> (r: FeedbackKind)
        ensures
            r == *self,
    {
        match self {
            FeedbackKind::IncrementNegative => FeedbackKind::IncrementNegative,
            FeedbackKind::IncrementCool => FeedbackKind::IncrementCool,
            FeedbackKind::NegativeComment(c) => FeedbackKind::NegativeComment(c.clone()),
            FeedbackKind::CoolComment(c) => FeedbackKind::CoolComment(c.clone()),
        }
    }

    /// The reply once this feedback is recorded.
    pub fn done_reply(&self) -> (r: ApiResponse<String>)
        ensures
            is_success_text(r, feedback_done_text(*self)),
    {
        match self {
            FeedbackKind::IncrementNegative => success(String::from_str("Negative count incremented")),
            FeedbackKind::IncrementCool => success(String::from_str("Cool count incremented")),
            FeedbackKind::NegativeComment(_) => success(
                String::from_str("Negative feedback added successfully"),
            ),
            FeedbackKind::CoolComment(_) => success(String::from_str("Cool feedback added successfully")),
        }
    }
}

/// Where a feedback request stands.
#[derive(Debug)]
pub enum FeedbackStage {
    /// Waiting for the store to say whether it knows the user.
    AwaitingStoredUser,
    /// Waiting for the profile service to describe the user.
    AwaitingProfile,
    /// Waiting for the store to add the user.
    AwaitingCreate,
    /// Waiting for the store to record the feedback.
    AwaitingUpdate,
    /// Answered.
    Finished,
}

/// What happened since the last action.
#[derive(Debug)]
pub enum FeedbackEvent {
    /// The store answered whether it knows the user.
    StoredUser { found: bool },
    /// The profile service described the user (`Some`), or gave no user (`None`).
    Profile(Option<User>),
    /// The store added the user.
    Created,
    /// The store ran the update; `touched` tells whether a row matched.
    Updated { touched: bool },
    /// The store reported an error.
    StoreFailed,
}

/// What to do next.
#[derive(Debug)]
pub enum FeedbackAction {
    /// Ask the store for the user of this name.
    FindUser(String),
    /// Ask the profile service for the user of this name.
    FetchProfile(String),
    /// Add this user to the store.
    CreateUser(User),
    /// Record this feedback for the user of this name.
    ApplyFeedback { username: String, kind: FeedbackKind },
    /// Answer with this reply.
    Reply(ApiResponse<String>),
    /// Answer with the internal error reply.
    Fail,
}

/// A feedback request in progress.
#[derive(Debug)]
pub struct FeedbackFlow {
    pub username: String,
    pub kind: FeedbackKind,
    pub stage: FeedbackStage,
}

/// The events a stage waits for.
pub open spec fn feedback_accepts(stage: FeedbackStage, event: FeedbackEvent) -> bool {
    match stage {
        FeedbackStage::AwaitingStoredUser => event is StoredUser || event is StoreFailed,
        FeedbackStage::AwaitingProfile => event is Profile,
        FeedbackStage::AwaitingCreate => event is Created || event is StoreFailed,
        FeedbackStage::AwaitingUpdate => event is Updated || event is StoreFailed,
        FeedbackStage::Finished => false,
    }
}

/// How many steps at most a stage is from its answer.
pub open spec fn feedback_rank(stage: FeedbackStage) -> nat {
    match stage {
        FeedbackStage::AwaitingStoredUser => 4,
        FeedbackStage::AwaitingProfile => 3,
        FeedbackStage::AwaitingCreate => 2,
        FeedbackStage::AwaitingUpdate => 1,
        FeedbackStage::Finished => 0,
    }
}

/// The action that records the flow's feedback.
pub open spec fn applies_feedback(flow: FeedbackFlow, action: FeedbackAction) -> bool {
    action == (FeedbackAction::ApplyFeedback { username: flow.username, kind: flow.kind })
}

/// One step of a feedback request: from `flow`, on `event`, to `next`, doing `action`.
pub open spec fn feedback_step(
    flow: FeedbackFlow,
    event: FeedbackEvent,
    next: FeedbackFlow,
    action: FeedbackAction,
) -> bool {
    &&& next.username == flow.username
    &&& next.kind == flow.kind
    &&& match (flow.stage, event) {
        (FeedbackStage::AwaitingStoredUser, FeedbackEvent::StoredUser { found }) => if found {
            next.stage is AwaitingUpdate && applies_feedback(flow, action)
        } else {
            next.stage is AwaitingProfile && action == FeedbackAction::FetchProfile(flow.username)
        },
        (FeedbackStage::AwaitingProfile, FeedbackEvent::Profile(Some(user))) => {
            next.stage is AwaitingCreate && action == FeedbackAction::CreateUser(user)
        },
        (FeedbackStage::AwaitingProfile, FeedbackEvent::Profile(None)) => {
            &&& next.stage is Finished
            &&& action matches FeedbackAction::Reply(r) && is_no_such_user(r)
        },
        (FeedbackStage::AwaitingCreate, FeedbackEvent::Created) => {
            next.stage is AwaitingUpdate && applies_feedback(flow, action)
        },
        (FeedbackStage::AwaitingUpdate, FeedbackEvent::Updated { .. }) => {
            &&& next.stage is Finished
            &&& action matches FeedbackAction::Reply(r) && is_success_text(r, feedback_done_text(flow.kind))
        },
        (_, FeedbackEvent::StoreFailed) => next.stage is Finished && action is Fail,
        _ => false,
    }
}

impl FeedbackFlow {
    /// Whether the flow waits for `event` now.
    pub fn accepts(&self, event: &FeedbackEvent) -> (b: bool)
        ensures
            b == feedback_accepts(self.stage, *event),
    {
        match self.stage {
            FeedbackStage::AwaitingStoredUser => match event {
                FeedbackEvent::StoredUser { .. } | FeedbackEvent::StoreFailed => true,
                _ => false,
            },
            FeedbackStage::AwaitingProfile => match event {
                FeedbackEvent::Profile(_) => true,
                _ => false,
            },
            FeedbackStage::AwaitingCreate => match event {
                FeedbackEvent::Created | FeedbackEvent::StoreFailed => true,
                _ => false,
            },
            FeedbackStage::AwaitingUpdate => match event {
                FeedbackEvent::Updated { .. } | FeedbackEvent::StoreFailed => true,
                _ => false,
            },
            FeedbackStage::Finished => false,
        }
    }

    /// A feedback request for `username`: first ask the store for the user.
    pub fn start(username: String, kind: FeedbackKind) -> (r: (FeedbackFlow, FeedbackAction))
        ensures
            r.0.username == username,
            r.0.kind == kind,
            r.0.stage is AwaitingStoredUser,
            r.1 == FeedbackAction::FindUser(username),
    {
        let find = FeedbackAction::FindUser(username.clone());
        (FeedbackFlow { username, kind, stage: FeedbackStage::AwaitingStoredUser }, find)
    }

    /// The next step of the request on `event`.
    pub fn next(self, event: FeedbackEvent) -> (r: (FeedbackFlow, FeedbackAction))
        requires
            feedback_accepts(self.stage, event),
        ensures
            feedback_step(self, event, r.0, r.1),
    {
        let FeedbackFlow { username, kind, stage } = self;
        match (stage, event) {
            (FeedbackStage::AwaitingStoredUser, FeedbackEvent::StoredUser { found }) => {
                if found {
                    let apply = FeedbackAction::ApplyFeedback {
                        username: username.clone(),
                        kind: kind.duplicate(),
                    };
                    (FeedbackFlow { username, kind, stage: FeedbackStage::AwaitingUpdate }, apply)
                } else {
                    let fetch = FeedbackAction::FetchProfile(username.clone());
                    (FeedbackFlow { username, kind, stage: FeedbackStage::AwaitingProfile }, fetch)
                }
            },
            (FeedbackStage::AwaitingProfile, FeedbackEvent::Profile(profile)) => match profile {
                Some(user) => (
                    FeedbackFlow { username, kind, stage: FeedbackStage::AwaitingCreate },
                    FeedbackAction::CreateUser(user),
                ),
                None => (
                    FeedbackFlow { username, kind, stage: FeedbackStage::Finished },
                    FeedbackAction::Reply(no_such_user()),
                ),
            },
            (FeedbackStage::AwaitingCreate, FeedbackEvent::Created) => {
                let apply = FeedbackAction::ApplyFeedback {
                    username: username.clone(),
                    kind: kind.duplicate(),
                };
                (FeedbackFlow { username, kind, stage: FeedbackStage::AwaitingUpdate }, apply)
            },
            (FeedbackStage::AwaitingUpdate, FeedbackEvent::Updated { .. }) => {
                let reply = kind.done_reply();
                (
                    FeedbackFlow { username, kind, stage: FeedbackStage::Finished },
                    FeedbackAction::Reply(reply),
                )
            },
            (_, _) => (
                FeedbackFlow { username, kind, stage: FeedbackStage::Finished },
                FeedbackAction::Fail,
            ),
        }
    }
}


// ---------------------------------------------------------------------------
// Lookups: answer from the store, or learn the user from the profile service.
// ---------------------------------------------------------------------------

/// The names a lookup never reveals.
pub open spec fn is_hidden_username(name: Seq<char>) -> bool {
    name == "nam_2ee.eth"@ || name == "_gyuuyg_"@
}

/// Whether `username` is one of the names a lookup never reveals.
pub fn hidden_username(username: &String) -> (b: bool)
    ensures
        b == is_hidden_username(username@),
{
    let first = String::from_str("nam_2ee.eth");
    let second = String::from_str("_gyuuyg_");
    *username == first || *username == second
}

/// The number of comments of one kind a lookup shows: all of them, up to `DISPLAYED_COMMENTS`.
pub open spec fn shown_count(comments: Seq<String>) -> nat {
    if comments.len() < DISPLAYED_COMMENTS { comments.len() } else { DISPLAYED_COMMENTS as nat }
}

/// `d` shows the stored user `u`: its fields, its vote counts, up to `DISPLAYED_COMMENTS`
/// of each kind of its comments (picked at distinct positions), and how many comments it has.
pub open spec fn shows_stored_user(d: UserResponse, u: User) -> bool {
    &&& d.username == u.username
    &&& d.fullname == u.fullname
    &&& d.following_count == u.following_count
    &&& d.follower_count == u.follower_count
    &&& d.positive_votes == u.cool_count
    &&& d.negative_votes == u.bad_count
    &&& d.positive_comments matches Some(p) && is_selection(p@, u.cool_comment@, shown_count(u.cool_comment@))
    &&& d.negative_comments matches Some(n) && is_selection(n@, u.bad_comment@, shown_count(u.bad_comment@))
    &&& d.total_comments == comment_total(u)
}

/// `d` shows the user `u` just learnt from the profile service, with no comments.
pub open spec fn shows_new_user(d: UserResponse, u: User) -> bool {
    &&& d.username == u.username
    &&& d.fullname == u.fullname
    &&& d.following_count == u.following_count
    &&& d.follower_count == u.follower_count
    &&& d.positive_votes == u.cool_count
    &&& d.negative_votes == u.bad_count
    &&& d.positive_comments matches Some(p) && p@.len() == 0
    &&& d.negative_comments matches Some(n) && n@.len() == 0
    &&& d.total_comments == 0
}

/// A successful lookup reply whose data satisfies `shows`.
pub open spec fn is_user_reply(r: ApiResponse<UserResponse>, u: User, stored: bool) -> bool {
    &&& r.success
    &&& r.message is None
    &&& r.data matches Some(d) && if stored { shows_stored_user(d, u) } else { shows_new_user(d, u) }
}

/// The reply to a lookup of a user the store knows.
pub fn stored_user_reply(user: User) -> (r: ApiResponse<UserResponse>)
    ensures
        is_user_reply(r, user, true),
{
    let positive = get_random_comments(user.cool_comment.as_slice(), DISPLAYED_COMMENTS);
    let negative = get_random_comments(user.bad_comment.as_slice(), DISPLAYED_COMMENTS);
    success(stored_user_response(user, positive, negative))
}

/// Where a lookup stands.
#[derive(Debug)]
pub enum GetUserStage {
    /// Waiting for the store to answer with the user, if it knows it.
    AwaitingStoredUser,
    /// Waiting for the profile service to describe the user.
    AwaitingProfile,
    /// Waiting for the store to add the user; the reply is ready.
    AwaitingSave(ApiResponse<UserResponse>),
    /// Answered.
    Finished,
}

/// What happened since the last action.
#[derive(Debug)]
pub enum GetUserEvent {
    /// The store answered with the user of that name, or with none.
    StoredUser(Option<User>),
    /// The profile service described the user (`Some`), or gave no user (`None`).
    Profile(Option<User>),
    /// The store tried to add the user; `ok` tells whether it did.
    Saved { ok: bool },
    /// The store reported an error.
    StoreFailed,
}

/// What to do next.
#[derive(Debug)]
pub enum GetUserAction {
    /// Ask the store for the user of this name.
    FindUser(String),
    /// Ask the profile service for the user of this name.
    FetchProfile(String),
    /// Add this user to the store (a failure is only reported, not answered).
    SaveUser(User),
    /// Answer with this reply.
    Reply(ApiResponse<UserResponse>),
    /// Answer with the internal error reply.
    Fail,
}

/// A lookup in progress.
#[derive(Debug)]
pub struct GetUserFlow {
    pub username: String,
    pub stage: GetUserStage,
}

/// The events a stage waits for.
pub open spec fn get_user_accepts(stage: GetUserStage, event: GetUserEvent) -> bool {
    match stage {
        GetUserStage::AwaitingStoredUser => event is StoredUser || event is StoreFailed,
        GetUserStage::AwaitingProfile => event is Profile,
        GetUserStage::AwaitingSave(_) => event is Saved,
        GetUserStage::Finished => false,
    }
}

/// How many steps at most a stage is from its answer.
pub open spec fn get_user_rank(stage: GetUserStage) -> nat {
    match stage {
        GetUserStage::AwaitingStoredUser => 3,
        GetUserStage::AwaitingProfile => 2,
        GetUserStage::AwaitingSave(_) => 1,
        GetUserStage::Finished => 0,
    }
}

/// How a lookup begins for `username`: `flow` and `action`.
pub open spec fn get_user_begins(username: String, flow: GetUserFlow, action: GetUserAction) -> bool {
    &&& flow.username == username
    &&& if is_hidden_username(username@) {
        &&& flow.stage is Finished
        &&& action matches GetUserAction::Reply(r) && is_no_such_user(r)
    } else {
        flow.stage is AwaitingStoredUser && action == GetUserAction::FindUser(username)
    }
}

/// One step of a lookup: from `flow`, on `event`, to `next`, doing `action`.
pub open spec fn get_user_step(
    flow: GetUserFlow,
    event: GetUserEvent,
    next: GetUserFlow,
    action: GetUserAction,
) -> bool {
    &&& next.username == flow.username
    &&& match (flow.stage, event) {
        (GetUserStage::AwaitingStoredUser, GetUserEvent::StoredUser(Some(user))) => {
            &&& next.stage is Finished
            &&& action matches GetUserAction::Reply(r) && is_user_reply(r, user, true)
        },
        (GetUserStage::AwaitingStoredUser, GetUserEvent::StoredUser(None)) => {
            next.stage is AwaitingProfile && action == GetUserAction::FetchProfile(flow.username)
        },
        (GetUserStage::AwaitingProfile, GetUserEvent::Profile(Some(user))) => {
            &&& next.stage matches GetUserStage::AwaitingSave(r) && is_user_reply(r, user, false)
            &&& action == GetUserAction::SaveUser(user)
        },
        (GetUserStage::AwaitingProfile, GetUserEvent::Profile(None)) => {
            &&& next.stage is Finished
            &&& action matches GetUserAction::Reply(r) && is_no_such_user(r)
        },
        (GetUserStage::AwaitingSave(reply), GetUserEvent::Saved { .. }) => {
            next.stage is Finished && action == GetUserAction::Reply(reply)
        },
        (_, GetUserEvent::StoreFailed) => next.stage is Finished && action is Fail,
        _ => false,
    }
}

impl GetUserFlow {
    /// Whether the flow waits for `event` now.
    pub fn accepts(&self, event: &GetUserEvent) -> (b: bool)
        ensures
            b == get_user_accepts(self.stage, *event),
    {
        match self.stage {
            GetUserStage::AwaitingStoredUser => match event {
                GetUserEvent::StoredUser(_) | GetUserEvent::StoreFailed => true,
                _ => false,
            },
            GetUserStage::AwaitingProfile => match event {
                GetUserEvent::Profile(_) => true,
                _ => false,
            },
            GetUserStage::AwaitingSave(_) => match event {
                GetUserEvent::Saved { .. } => true,
                _ => false,
            },
            GetUserStage::Finished => false,
        }
    }

    /// A lookup of `username`: a hidden name is answered at once as unknown;
    /// any other is first looked for in the store.
    pub fn start(username: String) -> (r: (GetUserFlow, GetUserAction))
        ensures
            get_user_begins(username, r.0, r.1),
    {
        if hidden_username(&username) {
            (GetUserFlow { username, stage: GetUserStage::Finished }, GetUserAction::Reply(no_such_user()))
        } else {
            let find = GetUserAction::FindUser(username.clone());
            (GetUserFlow { username, stage: GetUserStage::AwaitingStoredUser }, find)
        }
    }

    /// The next step of the lookup on `event`.
    pub fn next(self, event: GetUserEvent) -> (r: (GetUserFlow, GetUserAction))
        requires
            get_user_accepts(self.stage, event),
        ensures
            get_user_step(self, event, r.0, r.1),
    {
        let GetUserFlow { username, stage } = self;
        match (stage, event) {
            (GetUserStage::AwaitingStoredUser, GetUserEvent::StoredUser(found)) => match found {
                Some(user) => (
                    GetUserFlow { username, stage: GetUserStage::Finished },
                    GetUserAction::Reply(stored_user_reply(user)),
                ),
                None => {
                    let fetch = GetUserAction::FetchProfile(username.clone());
                    (GetUserFlow { username, stage: GetUserStage::AwaitingProfile }, fetch)
                },
            },
            (GetUserStage::AwaitingProfile, GetUserEvent::Profile(profile)) => match profile {
                Some(user) => {
                    let reply = success(new_user_response(&user));
                    (
                        GetUserFlow { username, stage: GetUserStage::AwaitingSave(reply) },
                        GetUserAction::SaveUser(user),
                    )
                },
                None => (
                    GetUserFlow { username, stage: GetUserStage::Finished },
                    GetUserAction::Reply(no_such_user()),
                ),
            },
            (GetUserStage::AwaitingSave(reply), GetUserEvent::Saved { .. }) => (
                GetUserFlow { username, stage: GetUserStage::Finished },
                GetUserAction::Reply(reply),
            ),
            (_, _) => (GetUserFlow { username, stage: GetUserStage::Finished }, GetUserAction::Fail),
        }
    }
}


// ---------------------------------------------------------------------------
// Laws of the request flows.
// ---------------------------------------------------------------------------

/// An action that answers the request.
pub open spec fn feedback_answers(a: FeedbackAction) -> bool {
    a is Reply || a is Fail
}

/// `flows`, `events` and `actions` are a run of a feedback request: each event is
/// one the flow waited for, and each step goes from one flow to the next.
pub open spec fn is_feedback_run(
    flows: Seq<FeedbackFlow>,
    events: Seq<FeedbackEvent>,
    actions: Seq<FeedbackAction>,
) -> bool {
    &&& flows.len() == events.len() + 1
    &&& actions.len() == events.len()
    &&& forall|i: int| 0 <= i < events.len() ==> #[trigger] feedback_accepts(flows[i].stage, events[i])
    &&& forall|i: int| 0 <= i < events.len() ==> feedback_step(flows[i], events[i], flows[i + 1], #[trigger] actions[i])
}

/// Each step of a feedback request brings it closer to its answer, and it is
/// answered exactly on the step that finishes it; a finished request waits for nothing.
pub proof fn lemma_feedback_step_progress(
    flow: FeedbackFlow,
    event: FeedbackEvent,
    next: FeedbackFlow,
    action: FeedbackAction,
)
    requires
        feedback_accepts(flow.stage, event),
        feedback_step(flow, event, next, action),
    ensures
        feedback_rank(next.stage) < feedback_rank(flow.stage),
        feedback_answers(action) <==> next.stage is Finished,
        next.stage is Finished ==> forall|e: FeedbackEvent| !feedback_accepts(next.stage, e),
{
}

/// A feedback request is answered within four events, once, by the last action of its run.
pub proof fn lemma_feedback_answered_once(
    flows: Seq<FeedbackFlow>,
    events: Seq<FeedbackEvent>,
    actions: Seq<FeedbackAction>,
)
    requires
        is_feedback_run(flows, events, actions),
    ensures
        events.len() <= feedback_rank(flows[0].stage) <= 4,
        forall|i: int| 0 <= i < actions.len() - 1 ==> !feedback_answers(#[trigger] actions[i]),
    decreases events.len(),
{
    if events.len() > 0 {
        let (f, e, a) = (flows.drop_first(), events.drop_first(), actions.drop_first());
        assert(feedback_accepts(flows[0].stage, events[0]));
        assert(feedback_step(flows[0], events[0], flows[1], actions[0]));
        assert forall|i: int| 0 <= i < e.len() implies #[trigger] feedback_accepts(f[i].stage, e[i]) by {
            assert(feedback_accepts(flows[i + 1].stage, events[i + 1]));
        }
        assert forall|i: int| 0 <= i < e.len() implies feedback_step(f[i], e[i], f[i + 1], #[trigger] a[i]) by {
            assert(feedback_step(flows[i + 1], events[i + 1], flows[i + 2], actions[i + 1]));
        }
        lemma_feedback_answered_once(f, e, a);
        lemma_feedback_step_progress(flows[0], events[0], flows[1], actions[0]);
        if events.len() > 1 {
            assert(feedback_accepts(flows[1].stage, events[1]));
            assert(!feedback_answers(actions[0]));
        }
        assert forall|i: int| 0 <= i < actions.len() - 1 implies !feedback_answers(#[trigger] actions[i]) by {
            if i > 0 {
                assert(a[i - 1] == actions[i]);
            }
        }
    }
}

/// A feedback request records its feedback only for a user the store has just said
/// it knows, or has just added.
pub proof fn lemma_feedback_only_for_known_users(
    flow: FeedbackFlow,
    event: FeedbackEvent,
    next: FeedbackFlow,
    action: FeedbackAction,
)
    requires
        feedback_step(flow, event, next, action),
        action is ApplyFeedback,
    ensures
        event == (FeedbackEvent::StoredUser { found: true }) || event is Created,
        applies_feedback(flow, action),
{
}

/// A user the profile service does not know is answered as unknown, and nothing is
/// written for it.
pub proof fn lemma_feedback_unknown_user(
    flow: FeedbackFlow,
    next: FeedbackFlow,
    action: FeedbackAction,
)
    requires
        flow.stage is AwaitingProfile,
        feedback_step(flow, FeedbackEvent::Profile(None), next, action),
    ensures
        next.stage is Finished,
        action matches FeedbackAction::Reply(r) && is_no_such_user(r),
{
}

/// The answer to a feedback request does not depend on whether its update matched a row.
pub proof fn lemma_feedback_answer_ignores_touched(
    flow: FeedbackFlow,
    next1: FeedbackFlow,
    action1: FeedbackAction,
    next2: FeedbackFlow,
    action2: FeedbackAction,
)
    requires
        flow.stage is AwaitingUpdate,
        feedback_step(flow, FeedbackEvent::Updated { touched: true }, next1, action1),
        feedback_step(flow, FeedbackEvent::Updated { touched: false }, next2, action2),
    ensures
        action1 matches FeedbackAction::Reply(r1) && action2 matches FeedbackAction::Reply(r2) && {
            &&& r1.success == r2.success
            &&& r1.message == r2.message
            &&& r1.data matches Some(d1) && r2.data matches Some(d2) && d1@ == d2@
        },
{
}

/// An action that answers the lookup.
pub open spec fn get_user_answers(a: GetUserAction) -> bool {
    a is Reply || a is Fail
}

/// `flows`, `events` and `actions` are a run of a lookup.
pub open spec fn is_get_user_run(
    flows: Seq<GetUserFlow>,
    events: Seq<GetUserEvent>,
    actions: Seq<GetUserAction>,
) -> bool {
    &&& flows.len() == events.len() + 1
    &&& actions.len() == events.len()
    &&& forall|i: int| 0 <= i < events.len() ==> #[trigger] get_user_accepts(flows[i].stage, events[i])
    &&& forall|i: int| 0 <= i < events.len() ==> get_user_step(flows[i], events[i], flows[i + 1], #[trigger] actions[i])
}

/// Each step of a lookup brings it closer to its answer, and it is answered exactly on
/// the step that finishes it; a finished lookup waits for nothing.
pub proof fn lemma_get_user_step_progress(
    flow: GetUserFlow,
    event: GetUserEvent,
    next: GetUserFlow,
    action: GetUserAction,
)
    requires
        get_user_accepts(flow.stage, event),
        get_user_step(flow, event, next, action),
    ensures
        get_user_rank(next.stage) < get_user_rank(flow.stage),
        get_user_answers(action) <==> next.stage is Finished,
        next.stage is Finished ==> forall|e: GetUserEvent| !get_user_accepts(next.stage, e),
{
}

/// A lookup is answered within three events, once, by the last action of its run.
pub proof fn lemma_get_user_answered_once(
    flows: Seq<GetUserFlow>,
    events: Seq<GetUserEvent>,
    actions: Seq<GetUserAction>,
)
    requires
        is_get_user_run(flows, events, actions),
    ensures
        events.len() <= get_user_rank(flows[0].stage) <= 3,
        forall|i: int| 0 <= i < actions.len() - 1 ==> !get_user_answers(#[trigger] actions[i]),
    decreases events.len(),
{
    if events.len() > 0 {
        let (f, e, a) = (flows.drop_first(), events.drop_first(), actions.drop_first());
        assert(get_user_accepts(flows[0].stage, events[0]));
        assert(get_user_step(flows[0], events[0], flows[1], actions[0]));
        assert forall|i: int| 0 <= i < e.len() implies #[trigger] get_user_accepts(f[i].stage, e[i]) by {
            assert(get_user_accepts(flows[i + 1].stage, events[i + 1]));
        }
        assert forall|i: int| 0 <= i < e.len() implies get_user_step(f[i], e[i], f[i + 1], #[trigger] a[i]) by {
            assert(get_user_step(flows[i + 1], events[i + 1], flows[i + 2], actions[i + 1]));
        }
        lemma_get_user_answered_once(f, e, a);
        lemma_get_user_step_progress(flows[0], events[0], flows[1], actions[0]);
        if events.len() > 1 {
            assert(get_user_accepts(flows[1].stage, events[1]));
            assert(!get_user_answers(actions[0]));
        }
        assert forall|i: int| 0 <= i < actions.len() - 1 implies !get_user_answers(#[trigger] actions[i]) by {
            if i > 0 {
                assert(a[i - 1] == actions[i]);
            }
        }
    }
}

/// A hidden name is answered as unknown at once: the store and the profile service
/// are never asked about it.
pub proof fn lemma_hidden_name_never_looked_up(username: String, flow: GetUserFlow, action: GetUserAction)
    requires
        get_user_begins(username, flow, action),
        is_hidden_username(username@),
    ensures
        action matches GetUserAction::Reply(r) && is_no_such_user(r),
        forall|e: GetUserEvent| !get_user_accepts(flow.stage, e),
{
}

/// A user first learnt from the profile service is saved, and the lookup answers
/// with that user whether or not saving it succeeded.
pub proof fn lemma_new_user_saved_and_shown(
    flow: GetUserFlow,
    user: User,
    saving: GetUserFlow,
    save: GetUserAction,
    ok: bool,
    done: GetUserFlow,
    answer: GetUserAction,
)
    requires
        flow.stage is AwaitingProfile,
        get_user_step(flow, GetUserEvent::Profile(Some(user)), saving, save),
        get_user_step(saving, GetUserEvent::Saved { ok }, done, answer),
    ensures
        save == GetUserAction::SaveUser(user),
        done.stage is Finished,
        answer matches GetUserAction::Reply(r) && is_user_reply(r, user, false),
{
}

/// A user first learnt from the profile service, with its starting counts, is shown
/// with positive votes in `INIT_COOL_MIN..=INIT_COOL_MAX`, negative votes in
/// `INIT_BAD_MIN..=INIT_BAD_MAX`, and no comments.
pub proof fn lemma_new_user_starting_votes(
    flow: GetUserFlow,
    user: User,
    saving: GetUserFlow,
    save: GetUserAction,
    ok: bool,
    done: GetUserFlow,
    answer: GetUserAction,
)
    requires
        INIT_COOL_MIN <= user.cool_count <= INIT_COOL_MAX,
        INIT_BAD_MIN <= user.bad_count <= INIT_BAD_MAX,
        flow.stage is AwaitingProfile,
        get_user_step(flow, GetUserEvent::Profile(Some(user)), saving, save),
        get_user_step(saving, GetUserEvent::Saved { ok }, done, answer),
    ensures
        answer matches GetUserAction::Reply(r) && r.data matches Some(d) && {
            &&& INIT_COOL_MIN <= d.positive_votes <= INIT_COOL_MAX
            &&& INIT_BAD_MIN <= d.negative_votes <= INIT_BAD_MAX
            &&& d.total_comments == 0
        },
{
}

/// `after` is `before` once the store has recorded feedback of `kind`: the vote of
/// that kind counts one more, a comment goes at the end of that kind's comments, and
/// nothing else changes. (The store does this; this library only asks for it.)
pub open spec fn records_feedback(kind: FeedbackKind, before: User, after: User) -> bool {
    &&& after.username == before.username
    &&& after.fullname == before.fullname
    &&& after.following_count == before.following_count
    &&& after.follower_count == before.follower_count
    &&& match kind {
        FeedbackKind::IncrementNegative => {
            &&& after.bad_count == before.bad_count + 1
            &&& after.bad_comment@ == before.bad_comment@
            &&& after.cool_count == before.cool_count
            &&& after.cool_comment@ == before.cool_comment@
        },
        FeedbackKind::IncrementCool => {
            &&& after.cool_count == before.cool_count + 1
            &&& after.cool_comment@ == before.cool_comment@
            &&& after.bad_count == before.bad_count
            &&& after.bad_comment@ == before.bad_comment@
        },
        FeedbackKind::NegativeComment(c) => {
            &&& after.bad_count == before.bad_count + 1
            &&& after.bad_comment@ == before.bad_comment@.push(c)
            &&& after.cool_count == before.cool_count
            &&& after.cool_comment@ == before.cool_comment@
        },
        FeedbackKind::CoolComment(c) => {
            &&& after.cool_count == before.cool_count + 1
            &&& after.cool_comment@ == before.cool_comment@.push(c)
            &&& after.bad_count == before.bad_count
            &&& after.bad_comment@ == before.bad_comment@
        },
    }
}

/// Whether feedback of `kind` carries a comment.
pub open spec fn has_comment(kind: FeedbackKind) -> bool {
    kind is NegativeComment || kind is CoolComment
}

/// A lookup after feedback is recorded shows it: the vote of that kind counts one
/// more, the other is unchanged, and the comment total grows by one exactly when the
/// feedback carried a comment.
pub proof fn lemma_lookup_shows_recorded_feedback(
    kind: FeedbackKind,
    before: User,
    after: User,
    shown: UserResponse,
)
    requires
        records_feedback(kind, before, after),
        shows_stored_user(shown, after),
    ensures
        shown.username == before.username,
        (kind is IncrementCool || kind is CoolComment) ==> {
            &&& shown.positive_votes == before.cool_count + 1
            &&& shown.negative_votes == before.bad_count
        },
        (kind is IncrementNegative || kind is NegativeComment) ==> {
            &&& shown.negative_votes == before.bad_count + 1
            &&& shown.positive_votes == before.cool_count
        },
        shown.total_comments == (before.cool_comment.len() + before.bad_comment.len() + if has_comment(kind) {
            1int
        } else {
            0int
        }) as i32,
{
}

/// Only the two names `nam_2ee.eth` and `_gyuuyg_` are hidden: both are, and any
/// other name, whatever characters it holds, is not.
pub proof fn lemma_hidden_names_are_exactly_two(name: Seq<char>)
    ensures
        is_hidden_username("nam_2ee.eth"@),
        is_hidden_username("_gyuuyg_"@),
        name != "nam_2ee.eth"@ && name != "_gyuuyg_"@ ==> !is_hidden_username(name),
{
}

/// A lookup of any name other than the two hidden ones begins by asking the store for
/// that very name, and then accepts every answer the store can give: a user, none, or
/// a failure.
pub proof fn lemma_visible_name_is_looked_up(username: String, flow: GetUserFlow, action: GetUserAction)
    requires
        get_user_begins(username, flow, action),
        username@ != "nam_2ee.eth"@,
        username@ != "_gyuuyg_"@,
    ensures
        flow.username == username,
        action == GetUserAction::FindUser(username),
        forall|found: Option<User>| #[trigger] get_user_accepts(flow.stage, GetUserEvent::StoredUser(found)),
        get_user_accepts(flow.stage, GetUserEvent::StoreFailed),
{
}

/// Each stage of a lookup accepts every event of the kinds it waits for, whatever
/// the event carries: the store's answer (any user or none) and its failure, any
/// profile answer, and the end of saving whether or not it succeeded.
pub proof fn lemma_get_user_accepts_awaited_events(reply: ApiResponse<UserResponse>)
    ensures
        forall|found: Option<User>|
            #[trigger] get_user_accepts(GetUserStage::AwaitingStoredUser, GetUserEvent::StoredUser(found)),
        get_user_accepts(GetUserStage::AwaitingStoredUser, GetUserEvent::StoreFailed),
        forall|profile: Option<User>|
            #[trigger] get_user_accepts(GetUserStage::AwaitingProfile, GetUserEvent::Profile(profile)),
        forall|ok: bool|
            #[trigger] get_user_accepts(GetUserStage::AwaitingSave(reply), GetUserEvent::Saved { ok }),
{
}

/// A stored user's lookup goes through: after asking the store, the answer with the
/// user is accepted, and the step answers with a successful reply that shows that user.
pub proof fn lemma_stored_user_is_shown(
    flow: GetUserFlow,
    user: User,
    next: GetUserFlow,
    action: GetUserAction,
)
    requires
        flow.stage is AwaitingStoredUser,
        get_user_step(flow, GetUserEvent::StoredUser(Some(user)), next, action),
    ensures
        get_user_accepts(flow.stage, GetUserEvent::StoredUser(Some(user))),
        next.stage is Finished,
        action matches GetUserAction::Reply(r) && {
            &&& r.success
            &&& r.message is None
            &&& r.data matches Some(d) && {
                &&& d.username == user.username
                &&& d.positive_votes == user.cool_count
                &&& d.negative_votes == user.bad_count
                &&& d.total_comments == (user.cool_comment.len() + user.bad_comment.len()) as i32
            }
        },
{
}

/// Each stage of a feedback request accepts every event of the kinds it waits for,
/// whatever the event carries: the store's answer (found or not) and its failure,
/// any profile answer, the creation of the user, and the update whether or not it
/// matched a row.
pub proof fn lemma_feedback_accepts_awaited_events()
    ensures
        forall|found: bool|
            #[trigger] feedback_accepts(FeedbackStage::AwaitingStoredUser, FeedbackEvent::StoredUser { found }),
        feedback_accepts(FeedbackStage::AwaitingStoredUser, FeedbackEvent::StoreFailed),
        forall|profile: Option<User>|
            #[trigger] feedback_accepts(FeedbackStage::AwaitingProfile, FeedbackEvent::Profile(profile)),
        feedback_accepts(FeedbackStage::AwaitingCreate, FeedbackEvent::Created),
        feedback_accepts(FeedbackStage::AwaitingCreate, FeedbackEvent::StoreFailed),
        forall|touched: bool|
            #[trigger] feedback_accepts(FeedbackStage::AwaitingUpdate, FeedbackEvent::Updated { touched }),
        feedback_accepts(FeedbackStage::AwaitingUpdate, FeedbackEvent::StoreFailed),
{
}

/// Once the update is done, whether or not it matched a row, a feedback request is
/// answered with success and the text of its kind.
pub proof fn lemma_update_is_answered_with_success(
    flow: FeedbackFlow,
    touched: bool,
    next: FeedbackFlow,
    action: FeedbackAction,
)
    requires
        flow.stage is AwaitingUpdate,
        feedback_step(flow, FeedbackEvent::Updated { touched }, next, action),
    ensures
        feedback_accepts(flow.stage, FeedbackEvent::Updated { touched }),
        next.stage is Finished,
        action matches FeedbackAction::Reply(r) && {
            &&& r.success
            &&& r.message is None
            &&& r.data matches Some(d) && match flow.kind {
                FeedbackKind::IncrementNegative => d@ == "Negative count incremented"@,
                FeedbackKind::IncrementCool => d@ == "Cool count incremented"@,
                FeedbackKind::NegativeComment(_) => d@ == "Negative feedback added successfully"@,
                FeedbackKind::CoolComment(_) => d@ == "Cool feedback added successfully"@,
            }
        },
{
}

} // verus!
