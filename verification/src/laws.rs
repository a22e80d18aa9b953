//! The laws the library states of itself, each proved from the spec
//! functions that the other modules' contracts are written over.

use vstd::prelude::*;
use crate::model::{ErrorResponseView, ResponseBodyView, ResponseView, SubscriptionView, Uid};
use crate::auth::{
    auth_outcome, missing_token_response, rejected_response, token_of, IdentityReplyView,
};
use crate::store::{
    create_ok, created_row, find_user, joined_of, joined_rows, matches_owned, owned_subs,
    sub_id_taken, sub_ids_unique, StoreView,
};
use crate::pipeline::{route_ensures, RequestView};

verus! {

/// Law: the owner-scoped listing holds exactly the caller's rows.
/// Every listed row is owned by the caller and stands in the table,
/// and every table row owned by the caller is listed.
pub proof fn lemma_owner_scoped_listing(subs: Seq<SubscriptionView>, owner: Uid)
    ensures
        forall|j: int|
            0 <= j < owned_subs(subs, owner).len() ==> (#[trigger] owned_subs(subs, owner)[j]).user_id
                == owner,
        forall|j: int|
            0 <= j < owned_subs(subs, owner).len() ==> subs.contains(
                #[trigger] owned_subs(subs, owner)[j],
            ),
        forall|i: int|
            0 <= i < subs.len() && (#[trigger] subs[i]).user_id == owner ==> owned_subs(
                subs,
                owner,
            ).contains(subs[i]),
    decreases subs.len(),
{
    broadcast use vstd::seq_lib::group_filter_ensures;

    reveal(Seq::filter);
    let pred = |s: SubscriptionView| s.user_id == owner;
    if subs.len() > 0 {
        lemma_owner_scoped_listing(subs.drop_last(), owner);
        let f = owned_subs(subs, owner);
        let fd = owned_subs(subs.drop_last(), owner);
        assert forall|j: int| 0 <= j < f.len() implies subs.contains(#[trigger] f[j]) by {
            if j < fd.len() {
                assert(subs.drop_last().contains(fd[j]));
                let k = choose|k: int|
                    0 <= k < subs.drop_last().len() && subs.drop_last()[k] == fd[j];
                assert(subs[k] == fd[j]);
            } else {
                assert(pred(subs.last()));
                assert(f[j] == subs.last());
                assert(subs[subs.len() - 1] == subs.last());
            }
        }
    }
}

/// Law: an update or delete aimed at a subscription owned by a
/// different user than the caller matches no row: with unique ids, the
/// one row carrying the requested id is not the caller's. By the
/// update and delete contracts, the operation then fails with
/// `NotFound` and leaves every row unchanged.
pub proof fn lemma_foreign_row_never_matched(
    subs: Seq<SubscriptionView>,
    k: int,
    subscription_id: Uid,
    caller: Uid,
)
    requires
        sub_ids_unique(subs),
        0 <= k < subs.len(),
        subs[k].id == subscription_id,
        subs[k].user_id != caller,
    ensures
        forall|i: int|
            0 <= i < subs.len() ==> !matches_owned(#[trigger] subs[i], subscription_id, caller),
{
    assert forall|i: int|
        0 <= i < subs.len() implies !matches_owned(#[trigger] subs[i], subscription_id, caller) by {
        if i < k {
            assert(subs[i].id != subs[k].id);
        } else if k < i {
            assert(subs[k].id != subs[i].id);
        }
    }
}

/// The first row carrying the given id, if any: what a fetch by id
/// reads from the table.
pub open spec fn row_by_id(subs: Seq<SubscriptionView>, id: Uid) -> Option<SubscriptionView>
    decreases subs.len(),
{
    if subs.len() == 0 {
        None
    } else if subs[0].id == id {
        Some(subs[0])
    } else {
        row_by_id(subs.drop_first(), id)
    }
}

/// A fresh row appended to a table that nowhere carries its id is
/// exactly what a fetch by that id then reads.
proof fn lemma_row_by_id_after_push(subs: Seq<SubscriptionView>, row: SubscriptionView, id: Uid)
    requires
        !sub_id_taken(subs, id),
        row.id == id,
    ensures
        row_by_id(subs.push(row), id) == Some(row),
    decreases subs.len(),
{
    if subs.len() == 0 {
        assert(subs.push(row)[0] == row);
    } else {
        assert(subs.push(row)[0] == subs[0]);
        assert(subs[0].id != id);
        assert(subs.push(row).drop_first() =~= subs.drop_first().push(row));
        assert(!sub_id_taken(subs.drop_first(), id)) by {
            assert forall|i: int|
                0 <= i < subs.drop_first().len() implies (#[trigger] subs.drop_first()[i]).id
                != id by {
                assert(subs.drop_first()[i] == subs[i + 1]);
            }
        }
        lemma_row_by_id_after_push(subs.drop_first(), row, id);
    }
}

/// Law: the create/fetch round trip. After a successful insert of a
/// row named `name` under a fresh id, fetching by that id yields
/// exactly the inserted row: the same name, the generated id, and
/// `created_at == updated_at` at creation.
pub proof fn lemma_create_round_trip(
    v: StoreView,
    owner: Uid,
    name: Seq<char>,
    new_id: Uid,
    now: u64,
)
    requires
        create_ok(v, owner, new_id),
    ensures
        ({
            let row = created_row(owner, name, new_id, now);
            &&& row_by_id(v.subs.push(row), new_id) == Some(row)
            &&& row.name == name
            &&& row.id == new_id
            &&& row.user_id == owner
            &&& row.created_at == row.updated_at
        }),
{
    lemma_row_by_id_after_push(v.subs, created_row(owner, name, new_id, now), new_id);
}

/// Law: a request without an `Authorization` header is turned away by
/// the auth-verification step with the 400 response, whatever the
/// identity service would have replied. By the handlers' contracts the
/// store is then untouched, and the server behind them never reaches
/// the identity service or the database on this path.
pub proof fn lemma_missing_header_rejected(reply: IdentityReplyView)
    ensures
        auth_outcome(Option::<Seq<u8>>::None, reply) == Err::<Uid, ResponseView>(
            missing_token_response(),
        ),
        missing_token_response().status == 400,
{
}

/// Law: when the identity service rejects a presented token, the
/// caller receives the failure response carrying the upstream-provided
/// detail message, and — by the handlers' contracts — the store is
/// untouched.
pub proof fn lemma_upstream_rejection_surfaced(authorization: Option<Seq<u8>>, detail: Seq<char>)
    requires
        token_of(authorization) is Some,
    ensures
        auth_outcome(authorization, IdentityReplyView::Rejected(detail)) == Err::<
            Uid,
            ResponseView,
        >(rejected_response(detail)),
        rejected_response(detail).body == ResponseBodyView::Error(
            ErrorResponseView { message: detail, status: "400"@ },
        ),
{
}

/// Law: the joined listing endpoint is blind to authentication. A
/// store-and-response pair that satisfies the dispatch contract for
/// one identity-service reply satisfies it for every other reply, the
/// store is never changed, and the answer is the 200 listing.
pub proof fn lemma_joined_listing_ignores_identity(
    pre: StoreView,
    user_id: Uid,
    r1: IdentityReplyView,
    r2: IdentityReplyView,
    post: StoreView,
    resp: ResponseView,
    new_id: Uid,
    now: u64,
)
    requires
        route_ensures(pre, RequestView::ListJoined { user_id }, r1, new_id, now, post, resp),
    ensures
        route_ensures(pre, RequestView::ListJoined { user_id }, r2, new_id, now, post, resp),
        post == pre,
        resp.status == 200,
{
}

/// Law: when the target user exists, the joined listing's rows are the
/// target's subscriptions in table order, each joined with that user's
/// email; the rows depend on no other input.
pub proof fn lemma_joined_rows_structure(v: StoreView, target: Uid)
    requires
        find_user(v.users, target) is Some,
    ensures
        joined_rows(v, target).len() == owned_subs(v.subs, target).len(),
        forall|j: int|
            0 <= j < owned_subs(v.subs, target).len() ==> #[trigger] joined_rows(v, target)[j]
                == joined_of(
                owned_subs(v.subs, target)[j],
                find_user(v.users, target)->Some_0.email,
            ),
{
}

} // verus!
