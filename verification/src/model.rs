//! Typed representations of `users` and `subscriptions` rows and the
//! DTOs exchanged over HTTP, together with their mathematical views.

use vstd::prelude::*;
use vstd::string::StringExecFns;

verus! {

/// A 128-bit identifier, standing for a UUID value.
#[derive(Clone, Copy, PartialEq, Eq, Structural, Debug)]
pub struct Uid(pub u128);

/// Failure kinds of the data-access component.
#[derive(Clone, Copy, PartialEq, Eq, Structural, Debug)]
pub enum StorageError {
    /// A primary-key or foreign-key constraint would be violated.
    ConstraintViolation,
    /// No row matches the requested id and owner. Nonexistence and
    /// ownership by a different user are indistinguishable by design,
    /// so that existence is not leaked to non-owners.
    NotFound,
}

/// A row of the `subscriptions` table.
#[derive(Debug)]
pub struct Subscription {
    pub id: Uid,
    pub user_id: Uid,
    pub name: String,
    pub created_at: u64,
    pub updated_at: u64,
}

/// Mathematical image of a subscription row.
pub struct SubscriptionView {
    pub id: Uid,
    pub user_id: Uid,
    pub name: Seq<char>,
    pub created_at: u64,
    pub updated_at: u64,
}

impl View for Subscription {
    type V = SubscriptionView;

    open spec fn view(&self) -> SubscriptionView {
        SubscriptionView {
            id: self.id,
            user_id: self.user_id,
            name: self.name@,
            created_at: self.created_at,
            updated_at: self.updated_at,
        }
    }
}

/// A row of the `users` table; read-only from this service's view.
#[derive(Debug)]
pub struct User {
    pub id: Uid,
    pub email: Option<String>,
    pub hashed_password: Option<String>,
    pub created_at: Option<u64>,
    pub updated_at: Option<u64>,
}

/// Mathematical image of a user row.
pub struct UserView {
    pub id: Uid,
    pub email: Option<Seq<char>>,
    pub hashed_password: Option<Seq<char>>,
    pub created_at: Option<u64>,
    pub updated_at: Option<u64>,
}

/// The view of an optional string.
pub open spec fn opt_str_view(s: Option<String>) -> Option<Seq<char>> {
    match s {
        Some(t) => Some(t@),
        None => None,
    }
}

impl View for User {
    type V = UserView;

    open spec fn view(&self) -> UserView {
        UserView {
            id: self.id,
            email: opt_str_view(self.email),
            hashed_password: opt_str_view(self.hashed_password),
            created_at: self.created_at,
            updated_at: self.updated_at,
        }
    }
}

/// Read projection of a subscription joined with its owning user's email.
#[derive(Debug)]
pub struct SubscriptionJoinedUser {
    pub id: Uid,
    pub name: String,
    pub created_at: u64,
    pub updated_at: u64,
    pub email: Option<String>,
}

/// Mathematical image of a joined row.
pub struct SubscriptionJoinedUserView {
    pub id: Uid,
    pub name: Seq<char>,
    pub created_at: u64,
    pub updated_at: u64,
    pub email: Option<Seq<char>>,
}

impl View for SubscriptionJoinedUser {
    type V = SubscriptionJoinedUserView;

    open spec fn view(&self) -> SubscriptionJoinedUserView {
        SubscriptionJoinedUserView {
            id: self.id,
            name: self.name@,
            created_at: self.created_at,
            updated_at: self.updated_at,
            email: opt_str_view(self.email),
        }
    }
}

/// Body of the create endpoint: `{ "name": string }`.
#[derive(Debug)]
pub struct CreateSubscriptionBody {
    pub name: String,
}

/// Partial update accepted by the update endpoint.
#[derive(Debug)]
pub struct SubscriptionUpdateParams {
    pub name: Option<String>,
}

impl View for SubscriptionUpdateParams {
    type V = Option<Seq<char>>;

    open spec fn view(&self) -> Option<Seq<char>> {
        opt_str_view(self.name)
    }
}

/// Identity record decoded from a successful identity-service response.
#[derive(Clone, Copy, PartialEq, Eq, Structural, Debug)]
pub struct UserResponse {
    pub id: Uid,
}

/// JSON error body returned to the caller on a failed request.
#[derive(Debug)]
pub struct ErrorResponse {
    pub message: String,
    pub status: String,
}

/// Mathematical image of an error body.
pub struct ErrorResponseView {
    pub message: Seq<char>,
    pub status: Seq<char>,
}

impl View for ErrorResponse {
    type V = ErrorResponseView;

    open spec fn view(&self) -> ErrorResponseView {
        ErrorResponseView { message: self.message@, status: self.status@ }
    }
}

/// The view of an optional byte string, such as a header value.
pub open spec fn opt_bytes_view(b: Option<Vec<u8>>) -> Option<Seq<u8>> {
    match b {
        Some(v) => Some(v@),
        None => None,
    }
}

/// JSON body of an HTTP response of the service.
#[derive(Debug)]
pub enum ResponseBody {
    Subscription(Subscription),
    Subscriptions(Vec<Subscription>),
    JoinedSubscriptions(Vec<SubscriptionJoinedUser>),
    Error(ErrorResponse),
}

/// Mathematical image of a response body.
pub enum ResponseBodyView {
    Subscription(SubscriptionView),
    Subscriptions(Seq<SubscriptionView>),
    JoinedSubscriptions(Seq<SubscriptionJoinedUserView>),
    Error(ErrorResponseView),
}

impl View for ResponseBody {
    type V = ResponseBodyView;

    open spec fn view(&self) -> ResponseBodyView {
        match self {
            ResponseBody::Subscription(s) => ResponseBodyView::Subscription(s@),
            ResponseBody::Subscriptions(v) => ResponseBodyView::Subscriptions(subs_view(v@)),
            ResponseBody::JoinedSubscriptions(v) => ResponseBodyView::JoinedSubscriptions(
                joined_view(v@),
            ),
            ResponseBody::Error(e) => ResponseBodyView::Error(e@),
        }
    }
}

/// An HTTP response of the service: a status code and a JSON body.
#[derive(Debug)]
pub struct Response {
    pub status: u16,
    pub body: ResponseBody,
}

/// Mathematical image of a response.
pub struct ResponseView {
    pub status: u16,
    pub body: ResponseBodyView,
}

impl View for Response {
    type V = ResponseView;

    open spec fn view(&self) -> ResponseView {
        ResponseView { status: self.status, body: self.body@ }
    }
}

/// The views of a sequence of subscription rows.
pub open spec fn subs_view(s: Seq<Subscription>) -> Seq<SubscriptionView> {
    s.map_values(|x: Subscription| x@)
}

/// The views of a sequence of user rows.
pub open spec fn users_view(s: Seq<User>) -> Seq<UserView> {
    s.map_values(|x: User| x@)
}

/// The views of a sequence of joined rows.
pub open spec fn joined_view(s: Seq<SubscriptionJoinedUser>) -> Seq<SubscriptionJoinedUserView> {
    s.map_values(|x: SubscriptionJoinedUser| x@)
}

/// Copies a string, preserving its characters.
pub fn clone_string(s: &String) -> (r: String)
    ensures
        r@ == s@,
{
    String::from_str(s.as_str())
}

/// Copies an optional string, preserving its characters.
pub fn clone_opt_string(s: &Option<String>) -> (r: Option<String>)
    ensures
        opt_str_view(r) == opt_str_view(*s),
{
    match s {
        Some(t) => Some(clone_string(t)),
        None => None,
    }
}

/// Copies a subscription row, preserving its view.
pub fn clone_subscription(s: &Subscription) -> (r: Subscription)
    ensures
        r@ == s@,
{
    Subscription {
        id: s.id,
        user_id: s.user_id,
        name: clone_string(&s.name),
        created_at: s.created_at,
        updated_at: s.updated_at,
    }
}

} // verus!

