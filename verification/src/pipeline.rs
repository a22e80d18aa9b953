//! The request pipeline: one handler per endpoint, composing the
//! auth-verification component with the data-access component, and the
//! route dispatcher. Connection pooling, JSON serialization and the
//! HTTP server itself are outside collaborators of this library.

use vstd::prelude::*;
use vstd::string::StringExecFns;
use crate::model::{
    opt_bytes_view, CreateSubscriptionBody, ErrorResponse, Response, ResponseBody,
    ResponseBodyView, ResponseView, SubscriptionUpdateParams, Uid,
};
use crate::auth::{auth_outcome, verify_and_get_user, IdentityReply};
use crate::store::{
    create_ok, created_row, joined_rows, matches_owned, owned_subs, patched_row, store_wf, Store,
};

verus! {

/// An inbound HTTP request, decoded to plain values: the endpoint, the
/// raw `Authorization` header value where the endpoint is
/// authenticated, and the endpoint's parameters.
#[derive(Debug)]
pub enum Request {
    /// POST /create
    Create { authorization: Option<Vec<u8>>, body: CreateSubscriptionBody },
    /// GET /
    ListOwned { authorization: Option<Vec<u8>> },
    /// PATCH /update/{subscription_id}
    Update {
        authorization: Option<Vec<u8>>,
        subscription_id: Uid,
        update_set: SubscriptionUpdateParams,
    },
    /// DELETE /delete/{subscription_id}
    Delete { authorization: Option<Vec<u8>>, subscription_id: Uid },
    /// GET /subs_user/{user_id} — takes an arbitrary user id from the
    /// path and checks no identity: a deliberate privilege-boundary
    /// gap of the service, preserved as-is rather than silently fixed.
    ListJoined { user_id: Uid },
}

/// Mathematical image of a request.
pub enum RequestView {
    Create { authorization: Option<Seq<u8>>, name: Seq<char> },
    ListOwned { authorization: Option<Seq<u8>> },
    Update { authorization: Option<Seq<u8>>, subscription_id: Uid, update_set: Option<Seq<char>> },
    Delete { authorization: Option<Seq<u8>>, subscription_id: Uid },
    ListJoined { user_id: Uid },
}

impl View for Request {
    type V = RequestView;

    open spec fn view(&self) -> RequestView {
        match self {
            Request::Create { authorization, body } => RequestView::Create {
                authorization: opt_bytes_view(*authorization),
                name: body.name@,
            },
            Request::ListOwned { authorization } => RequestView::ListOwned {
                authorization: opt_bytes_view(*authorization),
            },
            Request::Update { authorization, subscription_id, update_set } => RequestView::Update {
                authorization: opt_bytes_view(*authorization),
                subscription_id: *subscription_id,
                update_set: update_set@,
            },
            Request::Delete { authorization, subscription_id } => RequestView::Delete {
                authorization: opt_bytes_view(*authorization),
                subscription_id: *subscription_id,
            },
            Request::ListJoined { user_id } => RequestView::ListJoined { user_id: *user_id },
        }
    }
}

/// The 500 response for any data-access failure: generic, with no
/// detail leaked about why the operation failed.
pub open spec fn storage_error_response() -> ResponseView {
    ResponseView {
        status: 500,
        body: ResponseBodyView::Error(
            crate::model::ErrorResponseView { message: "Internal Server Error"@, status: "500"@ },
        ),
    }
}

/// Builds the generic 500 response for a data-access failure.
pub fn storage_error_response_exec() -> (r: Response)
    ensures
        r@ == storage_error_response(),
{
    Response {
        status: 500,
        body: ResponseBody::Error(
            ErrorResponse {
                message: String::from_str("Internal Server Error"),
                status: String::from_str("500"),
            },
        ),
    }
}

/// What the create endpoint leaves in the store and answers, once the
/// caller's identity is verified.
pub open spec fn create_applied(
    v: crate::store::StoreView,
    uid: Uid,
    name: Seq<char>,
    new_id: Uid,
    now: u64,
) -> (crate::store::StoreView, ResponseView) {
    if create_ok(v, uid, new_id) {
        (
            crate::store::StoreView {
                users: v.users,
                subs: v.subs.push(created_row(uid, name, new_id, now)),
            },
            ResponseView {
                status: 201,
                body: ResponseBodyView::Subscription(created_row(uid, name, new_id, now)),
            },
        )
    } else {
        (v, storage_error_response())
    }
}

/// Route handler for POST /create: verify the caller, insert a row
/// owned by the verified identity, answer 201 with the persisted row —
/// or the auth failure response, or the generic 500, with the store
/// untouched.
pub fn handle_create(
    store: &mut Store,
    authorization: Option<Vec<u8>>,
    reply: IdentityReply,
    body: CreateSubscriptionBody,
    new_id: Uid,
    now: u64,
) -> (r: Response)
    requires
        store_wf(old(store)@),
    ensures
        store_wf(final(store)@),
        final(store)@.users == old(store)@.users,
        match auth_outcome(opt_bytes_view(authorization), reply@) {
            Err(resp) => r@ == resp && final(store)@ == old(store)@,
            Ok(uid) => (final(store)@, r@) == create_applied(
                old(store)@,
                uid,
                body.name@,
                new_id,
                now,
            ),
        },
{
    let uid = match verify_and_get_user(authorization, reply) {
        Err(resp) => {
            return resp;
        },
        Ok(u) => u.id,
    };
    match store.create_new_subscription(body, uid, new_id, now) {
        Ok(sub) => Response { status: 201, body: ResponseBody::Subscription(sub) },
        Err(_) => storage_error_response_exec(),
    }
}

/// Route handler for GET /: verify the caller and answer 200 with
/// exactly the rows the verified identity owns — or the auth failure
/// response. The store is never changed.
pub fn handle_list_owned(store: &Store, authorization: Option<Vec<u8>>, reply: IdentityReply) -> (r:
    Response)
    ensures
        match auth_outcome(opt_bytes_view(authorization), reply@) {
            Err(resp) => r@ == resp,
            Ok(uid) => r@ == ResponseView {
                status: 200,
                body: ResponseBodyView::Subscriptions(owned_subs(store@.subs, uid)),
            },
        },
{
    let uid = match verify_and_get_user(authorization, reply) {
        Err(resp) => {
            return resp;
        },
        Ok(u) => u.id,
    };
    let subs = store.fetch_subscriptions_by_user(uid);
    Response { status: 200, body: ResponseBody::Subscriptions(subs) }
}

/// What the update endpoint leaves in the store and answers, once the
/// caller's identity is verified: the row matching both the requested
/// id and the verified owner is patched, or nothing changes and the
/// failure is generic — a row owned by someone else and a missing row
/// are indistinguishable.
pub open spec fn update_applied_ok(
    v: crate::store::StoreView,
    uid: Uid,
    subscription_id: Uid,
    patch: Option<Seq<char>>,
    now: u64,
    v2: crate::store::StoreView,
    r: ResponseView,
) -> bool {
    exists|i: int| {
        &&& 0 <= i < v.subs.len()
        &&& #[trigger] matches_owned(v.subs[i], subscription_id, uid)
        &&& r == ResponseView {
            status: 200,
            body: ResponseBodyView::Subscription(patched_row(v.subs[i], patch, now)),
        }
        &&& v2.subs == v.subs.update(i, patched_row(v.subs[i], patch, now))
    }
}

/// What the delete endpoint leaves in the store and answers, once the
/// caller's identity is verified and a row matches: the row is removed
/// and its prior state is returned.
pub open spec fn delete_applied_ok(
    v: crate::store::StoreView,
    uid: Uid,
    subscription_id: Uid,
    v2: crate::store::StoreView,
    r: ResponseView,
) -> bool {
    exists|i: int| {
        &&& 0 <= i < v.subs.len()
        &&& #[trigger] matches_owned(v.subs[i], subscription_id, uid)
        &&& r == ResponseView {
            status: 200,
            body: ResponseBodyView::Subscription(v.subs[i]),
        }
        &&& v2.subs == v.subs.remove(i)
    }
}

/// Route handler for PATCH /update/{subscription_id}.
pub fn handle_update(
    store: &mut Store,
    authorization: Option<Vec<u8>>,
    reply: IdentityReply,
    subscription_id: Uid,
    update_set: SubscriptionUpdateParams,
    now: u64,
) -> (r: Response)
    requires
        store_wf(old(store)@),
    ensures
        store_wf(final(store)@),
        final(store)@.users == old(store)@.users,
        match auth_outcome(opt_bytes_view(authorization), reply@) {
            Err(resp) => r@ == resp && final(store)@ == old(store)@,
            Ok(uid) => {
                if exists|i: int|
                    0 <= i < old(store)@.subs.len() && #[trigger] matches_owned(
                        old(store)@.subs[i],
                        subscription_id,
                        uid,
                    ) {
                    update_applied_ok(
                        old(store)@,
                        uid,
                        subscription_id,
                        update_set@,
                        now,
                        final(store)@,
                        r@,
                    )
                } else {
                    r@ == storage_error_response() && final(store)@ == old(store)@
                }
            },
        },
{
    let uid = match verify_and_get_user(authorization, reply) {
        Err(resp) => {
            return resp;
        },
        Ok(u) => u.id,
    };
    match store.update_subscription(update_set, subscription_id, uid, now) {
        Ok(sub) => Response { status: 200, body: ResponseBody::Subscription(sub) },
        Err(_) => storage_error_response_exec(),
    }
}

/// Route handler for DELETE /delete/{subscription_id}: the row matching
/// both the requested id and the verified owner is removed and answered
/// with its prior state, or nothing changes and the failure is generic.
pub fn handle_delete(
    store: &mut Store,
    authorization: Option<Vec<u8>>,
    reply: IdentityReply,
    subscription_id: Uid,
) -> (r: Response)
    requires
        store_wf(old(store)@),
    ensures
        store_wf(final(store)@),
        final(store)@.users == old(store)@.users,
        match auth_outcome(opt_bytes_view(authorization), reply@) {
            Err(resp) => r@ == resp && final(store)@ == old(store)@,
            Ok(uid) => {
                if exists|i: int|
                    0 <= i < old(store)@.subs.len() && #[trigger] matches_owned(
                        old(store)@.subs[i],
                        subscription_id,
                        uid,
                    ) {
                    delete_applied_ok(old(store)@, uid, subscription_id, final(store)@, r@)
                } else {
                    r@ == storage_error_response() && final(store)@ == old(store)@
                }
            },
        },
{
    let uid = match verify_and_get_user(authorization, reply) {
        Err(resp) => {
            return resp;
        },
        Ok(u) => u.id,
    };
    match store.delete_subscription(subscription_id, uid) {
        Ok(sub) => Response { status: 200, body: ResponseBody::Subscription(sub) },
        Err(_) => storage_error_response_exec(),
    }
}

/// Route handler for GET /subs_user/{user_id}: answers 200 with the
/// joined rows for the path's user id. Its result is a function of the
/// store and that id alone — no identity is checked, whatever
/// credentials the request presents (the preserved privilege gap).
pub fn handle_list_joined(store: &Store, user_id: Uid) -> (r: Response)
    ensures
        r@ == (ResponseView {
            status: 200,
            body: ResponseBodyView::JoinedSubscriptions(joined_rows(store@, user_id)),
        }),
{
    let rows = store.fetch_subscriptions_joined_by_user(user_id);
    Response { status: 200, body: ResponseBody::JoinedSubscriptions(rows) }
}

/// The unscoped diagnostic listing of every row, kept off the route
/// table exactly as the service keeps it off its registered routes.
pub fn handle_list_all(store: &Store) -> (r: Response)
    ensures
        r@ == (ResponseView {
            status: 200,
            body: ResponseBodyView::Subscriptions(store@.subs),
        }),
{
    let subs = store.fetch_subscriptions();
    Response { status: 200, body: ResponseBody::Subscriptions(subs) }
}

/// The contract of the route table, one case per registered endpoint:
/// what dispatching the request leaves in the store (`post`) and
/// answers (`r`), given what the identity service replied for the
/// request's token.
pub open spec fn route_ensures(
    pre: crate::store::StoreView,
    req: RequestView,
    reply: crate::auth::IdentityReplyView,
    new_id: Uid,
    now: u64,
    post: crate::store::StoreView,
    r: ResponseView,
) -> bool {
    match req {
        RequestView::Create { authorization, name } => match auth_outcome(authorization, reply) {
            Err(resp) => r == resp && post == pre,
            Ok(uid) => (post, r) == create_applied(pre, uid, name, new_id, now),
        },
        RequestView::ListOwned { authorization } => post == pre && match auth_outcome(
            authorization,
            reply,
        ) {
            Err(resp) => r == resp,
            Ok(uid) => r == ResponseView {
                status: 200,
                body: ResponseBodyView::Subscriptions(owned_subs(pre.subs, uid)),
            },
        },
        RequestView::Update { authorization, subscription_id, update_set } => match auth_outcome(
            authorization,
            reply,
        ) {
            Err(resp) => r == resp && post == pre,
            Ok(uid) => {
                if exists|i: int|
                    0 <= i < pre.subs.len() && #[trigger] matches_owned(
                        pre.subs[i],
                        subscription_id,
                        uid,
                    ) {
                    update_applied_ok(pre, uid, subscription_id, update_set, now, post, r)
                } else {
                    r == storage_error_response() && post == pre
                }
            },
        },
        RequestView::Delete { authorization, subscription_id } => match auth_outcome(
            authorization,
            reply,
        ) {
            Err(resp) => r == resp && post == pre,
            Ok(uid) => {
                if exists|i: int|
                    0 <= i < pre.subs.len() && #[trigger] matches_owned(
                        pre.subs[i],
                        subscription_id,
                        uid,
                    ) {
                    delete_applied_ok(pre, uid, subscription_id, post, r)
                } else {
                    r == storage_error_response() && post == pre
                }
            },
        },
        RequestView::ListJoined { user_id } => post == pre && r == ResponseView {
            status: 200,
            body: ResponseBodyView::JoinedSubscriptions(joined_rows(pre, user_id)),
        },
    }
}

/// The route table: dispatches a decoded request to its handler.
/// `reply` is what the identity service answered for the request's
/// token (unused by the unauthenticated joined listing); `new_id` and
/// `now` stand for the server-assigned id and instant.
pub fn route_request(
    store: &mut Store,
    req: Request,
    reply: IdentityReply,
    new_id: Uid,
    now: u64,
) -> (r: Response)
    requires
        store_wf(old(store)@),
    ensures
        store_wf(final(store)@),
        final(store)@.users == old(store)@.users,
        route_ensures(old(store)@, req@, reply@, new_id, now, final(store)@, r@),
{
    match req {
        Request::Create { authorization, body } => {
            let ghost auth = opt_bytes_view(authorization);
            let ghost name = body.name@;
            let resp = handle_create(store, authorization, reply, body, new_id, now);
            proof {
                assert(req@ == (RequestView::Create { authorization: auth, name: name }));
                assert(route_ensures(old(store)@, req@, reply@, new_id, now, store@, resp@));
            }
            resp
        },
        Request::ListOwned { authorization } => {
            let ghost auth = opt_bytes_view(authorization);
            let resp = handle_list_owned(store, authorization, reply);
            proof {
                assert(req@ == (RequestView::ListOwned { authorization: auth }));
                assert(route_ensures(old(store)@, req@, reply@, new_id, now, store@, resp@));
            }
            resp
        },
        Request::Update { authorization, subscription_id, update_set } => {
            let ghost auth = opt_bytes_view(authorization);
            let ghost patch = update_set@;
            let resp = handle_update(store, authorization, reply, subscription_id, update_set, now);
            proof {
                assert(req@ == (RequestView::Update {
                    authorization: auth,
                    subscription_id: subscription_id,
                    update_set: patch,
                }));
                assert(route_ensures(
                    old(store)@,
                    RequestView::Update {
                        authorization: auth,
                        subscription_id: subscription_id,
                        update_set: patch,
                    },
                    reply@,
                    new_id,
                    now,
                    store@,
                    resp@,
                ));
                assert(route_ensures(old(store)@, req@, reply@, new_id, now, store@, resp@));
            }
            resp
        },
        Request::Delete { authorization, subscription_id } => {
            let ghost auth = opt_bytes_view(authorization);
            let resp = handle_delete(store, authorization, reply, subscription_id);
            proof {
                assert(req@ == (RequestView::Delete {
                    authorization: auth,
                    subscription_id: subscription_id,
                }));
                assert(route_ensures(
                    old(store)@,
                    RequestView::Delete { authorization: auth, subscription_id: subscription_id },
                    reply@,
                    new_id,
                    now,
                    store@,
                    resp@,
                ));
                assert(route_ensures(old(store)@, req@, reply@, new_id, now, store@, resp@));
            }
            resp
        },
        Request::ListJoined { user_id } => {
            let resp = handle_list_joined(store, user_id);
            proof {
                assert(req@ == (RequestView::ListJoined { user_id: user_id }));
                assert(route_ensures(old(store)@, req@, reply@, new_id, now, store@, resp@));
            }
            resp
        },
    }
}

} // verus!
