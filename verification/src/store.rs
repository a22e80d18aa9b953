//! The data-access component: owner-scoped operations on subscription
//! rows, with the table invariants of the persisted schema (unique
//! primary keys, and every subscription owned by an existing user).

use vstd::prelude::*;
use crate::model::{
    clone_opt_string, clone_string, clone_subscription, joined_view, opt_str_view, subs_view,
    users_view, CreateSubscriptionBody, StorageError, Subscription, SubscriptionJoinedUser,
    SubscriptionJoinedUserView, SubscriptionUpdateParams, SubscriptionView, Uid, User, UserView,
};

verus! {

/// Mathematical image of the whole store.
pub struct StoreView {
    pub users: Seq<UserView>,
    pub subs: Seq<SubscriptionView>,
}

/// The relational store: a `users` table (read-only reference data
/// from this service's perspective) and a `subscriptions` table.
pub struct Store {
    pub users: Vec<User>,
    pub subscriptions: Vec<Subscription>,
}

impl View for Store {
    type V = StoreView;

    open spec fn view(&self) -> StoreView {
        StoreView { users: users_view(self.users@), subs: subs_view(self.subscriptions@) }
    }
}

/// No two user rows share an id (primary key).
pub open spec fn user_ids_unique(users: Seq<UserView>) -> bool {
    forall|i: int, j: int|
        0 <= i < j < users.len() ==> #[trigger] users[i].id != #[trigger] users[j].id
}

/// No two subscription rows share an id (primary key).
pub open spec fn sub_ids_unique(subs: Seq<SubscriptionView>) -> bool {
    forall|i: int, j: int|
        0 <= i < j < subs.len() ==> #[trigger] subs[i].id != #[trigger] subs[j].id
}

/// Some user row carries the given id.
pub open spec fn user_exists(users: Seq<UserView>, id: Uid) -> bool {
    exists|k: int| 0 <= k < users.len() && #[trigger] users[k].id == id
}

/// Some subscription row carries the given id.
pub open spec fn sub_id_taken(subs: Seq<SubscriptionView>, id: Uid) -> bool {
    exists|i: int| 0 <= i < subs.len() && #[trigger] subs[i].id == id
}

/// Every subscription is owned by an existing user (foreign key).
pub open spec fn fk_holds(v: StoreView) -> bool {
    forall|i: int| 0 <= i < v.subs.len() ==> user_exists(v.users, (#[trigger] v.subs[i]).user_id)
}

/// Well-formedness of the store: both primary keys and the foreign key.
pub open spec fn store_wf(v: StoreView) -> bool {
    user_ids_unique(v.users) && sub_ids_unique(v.subs) && fk_holds(v)
}

/// The row matches the requested subscription id and owner.
pub open spec fn matches_owned(s: SubscriptionView, subscription_id: Uid, owner: Uid) -> bool {
    s.id == subscription_id && s.user_id == owner
}

/// The row that a successful insert persists: both timestamps are
/// server-assigned to the same instant.
pub open spec fn created_row(owner: Uid, name: Seq<char>, new_id: Uid, now: u64) -> SubscriptionView {
    SubscriptionView { id: new_id, user_id: owner, name: name, created_at: now, updated_at: now }
}

/// An insert succeeds exactly when the owner exists and the new id is free.
pub open spec fn create_ok(v: StoreView, owner: Uid, new_id: Uid) -> bool {
    user_exists(v.users, owner) && !sub_id_taken(v.subs, new_id)
}

/// The rows owned by the given user, in table order.
pub open spec fn owned_subs(subs: Seq<SubscriptionView>, owner: Uid) -> Seq<SubscriptionView> {
    subs.filter(|s: SubscriptionView| s.user_id == owner)
}

/// The first user row with the given id, if any.
pub open spec fn find_user(users: Seq<UserView>, id: Uid) -> Option<UserView>
    decreases users.len(),
{
    if users.len() == 0 {
        None
    } else if users[0].id == id {
        Some(users[0])
    } else {
        find_user(users.drop_first(), id)
    }
}

/// A subscription row joined with its owner's email.
pub open spec fn joined_of(s: SubscriptionView, email: Option<Seq<char>>) -> SubscriptionJoinedUserView {
    SubscriptionJoinedUserView {
        id: s.id,
        name: s.name,
        created_at: s.created_at,
        updated_at: s.updated_at,
        email: email,
    }
}

/// The joined listing for a target user id: the inner join of the user
/// table and the subscription table, filtered to that id. Empty when no
/// such user exists.
pub open spec fn joined_rows(v: StoreView, target: Uid) -> Seq<SubscriptionJoinedUserView> {
    match find_user(v.users, target) {
        None => Seq::empty(),
        Some(u) => owned_subs(v.subs, target).map_values(
            |s: SubscriptionView| joined_of(s, u.email),
        ),
    }
}

/// A row after a partial update: the name is replaced when the patch
/// carries one, and `updated_at` is set to the update instant.
pub open spec fn patched_row(s: SubscriptionView, patch: Option<Seq<char>>, now: u64) -> SubscriptionView {
    SubscriptionView {
        id: s.id,
        user_id: s.user_id,
        name: match patch {
            Some(n) => n,
            None => s.name,
        },
        created_at: s.created_at,
        updated_at: now,
    }
}

impl Store {
    /// An empty store.
    pub fn new() -> (r: Store)
        ensures
            r@.users == Seq::<UserView>::empty(),
            r@.subs == Seq::<SubscriptionView>::empty(),
            store_wf(r@),
    {
        let r = Store { users: Vec::new(), subscriptions: Vec::new() };
        proof {
            assert(r@.users =~= Seq::<UserView>::empty());
            assert(r@.subs =~= Seq::<SubscriptionView>::empty());
        }
        r
    }

    /// Whether some user row carries the given id.
    pub fn user_exists_exec(&self, id: Uid) -> (r: bool)
        ensures
            r == user_exists(self@.users, id),
    {
        let mut k: usize = 0;
        while k < self.users.len()
            invariant
                k <= self.users.len(),
                forall|j: int| 0 <= j < k ==> #[trigger] users_view(self.users@)[j].id != id,
            decreases self.users.len() - k,
        {
            if self.users[k].id == id {
                proof {
                    assert(users_view(self.users@)[k as int].id == id);
                }
                return true;
            }
            k += 1;
        }
        false
    }

    /// Whether some subscription row carries the given id.
    fn sub_id_taken_exec(&self, id: Uid) -> (r: bool)
        ensures
            r == sub_id_taken(self@.subs, id),
    {
        let mut k: usize = 0;
        while k < self.subscriptions.len()
            invariant
                k <= self.subscriptions.len(),
                forall|j: int| 0 <= j < k ==> #[trigger] subs_view(self.subscriptions@)[j].id != id,
            decreases self.subscriptions.len() - k,
        {
            if self.subscriptions[k].id == id {
                proof {
                    assert(subs_view(self.subscriptions@)[k as int].id == id);
                }
                return true;
            }
            k += 1;
        }
        false
    }

    /// The index of the first user row with the given id, if any.
    fn find_user_exec(&self, id: Uid) -> (r: Option<usize>)
        ensures
            match r {
                Some(k) => {
                    &&& k < self.users.len()
                    &&& find_user(self@.users, id) == Some(self@.users[k as int])
                    &&& self@.users[k as int].id == id
                },
                None => find_user(self@.users, id) is None,
            },
    {
        let mut k: usize = 0;
        proof {
            assert(self@.users.skip(0) =~= self@.users);
        }
        while k < self.users.len()
            invariant
                k <= self.users.len(),
                find_user(self@.users, id) == find_user(self@.users.skip(k as int), id),
            decreases self.users.len() - k,
        {
            if self.users[k].id == id {
                proof {
                    let s = self@.users.skip(k as int);
                    assert(s[0] == self@.users[k as int]);
                }
                return Some(k);
            }
            proof {
                let s = self@.users.skip(k as int);
                assert(s[0] == self@.users[k as int]);
                assert(s.drop_first() =~= self@.users.skip(k as int + 1));
            }
            k += 1;
        }
        proof {
            assert(self@.users.skip(k as int) =~= Seq::<UserView>::empty());
        }
        None
    }

    /// The index of the subscription row matching both the requested id
    /// and the owner, if any; at most one such row exists in a
    /// well-formed store.
    fn find_owned(&self, subscription_id: Uid, uid: Uid) -> (r: Option<usize>)
        ensures
            match r {
                Some(i) => {
                    &&& i < self.subscriptions.len()
                    &&& matches_owned(self@.subs[i as int], subscription_id, uid)
                },
                None => forall|i: int|
                    0 <= i < self@.subs.len()
                        ==> !matches_owned(#[trigger] self@.subs[i], subscription_id, uid),
            },
    {
        let mut k: usize = 0;
        while k < self.subscriptions.len()
            invariant
                k <= self.subscriptions.len(),
                forall|j: int|
                    0 <= j < k ==> !matches_owned(
                        #[trigger] subs_view(self.subscriptions@)[j],
                        subscription_id,
                        uid,
                    ),
            decreases self.subscriptions.len() - k,
        {
            if self.subscriptions[k].id == subscription_id && self.subscriptions[k].user_id == uid {
                proof {
                    assert(matches_owned(subs_view(self.subscriptions@)[k as int], subscription_id, uid));
                }
                return Some(k);
            }
            k += 1;
        }
        None
    }

    /// Adds a user row; rejected when the id is already taken.
    pub fn insert_user(&mut self, user: User) -> (r: Result<(), StorageError>)
        requires
            store_wf(old(self)@),
        ensures
            store_wf(final(self)@),
            final(self)@.subs == old(self)@.subs,
            if user_exists(old(self)@.users, user.id) {
                r is Err && r->Err_0 == StorageError::ConstraintViolation
                    && final(self)@.users == old(self)@.users
            } else {
                r is Ok && final(self)@.users == old(self)@.users.push(user@)
            },
    {
        if self.user_exists_exec(user.id) {
            return Err(StorageError::ConstraintViolation);
        }
        let ghost pre = self@;
        let ghost uv = user@;
        self.users.push(user);
        proof {
            assert(users_view(self.users@) =~= pre.users.push(uv));
            assert(subs_view(self.subscriptions@) =~= pre.subs);
            assert forall|i: int, j: int|
                0 <= i < j < self@.users.len() implies #[trigger] self@.users[i].id
                != #[trigger] self@.users[j].id by {
                if j < pre.users.len() {
                } else {
                    assert(self@.users[i] == pre.users[i]);
                }
            }
            assert forall|i: int|
                0 <= i < self@.subs.len() implies user_exists(
                self@.users,
                (#[trigger] self@.subs[i]).user_id,
            ) by {
                assert(user_exists(pre.users, pre.subs[i].user_id));
                let k = choose|k: int|
                    0 <= k < pre.users.len() && #[trigger] pre.users[k].id == pre.subs[i].user_id;
                assert(self@.users[k].id == pre.subs[i].user_id);
            }
        }
        Ok(())
    }

    /// Inserts a new subscription row for the given owner. The id and
    /// both timestamps are server-assigned; at creation
    /// `created_at == updated_at`. Fails with a constraint violation
    /// when the id is taken or the owner does not exist, leaving the
    /// store unchanged.
    pub fn create_new_subscription(
        &mut self,
        body: CreateSubscriptionBody,
        uid: Uid,
        new_id: Uid,
        now: u64,
    ) -> (r: Result<Subscription, StorageError>)
        requires
            store_wf(old(self)@),
        ensures
            store_wf(final(self)@),
            final(self)@.users == old(self)@.users,
            if create_ok(old(self)@, uid, new_id) {
                &&& r is Ok
                &&& r->Ok_0@ == created_row(uid, body.name@, new_id, now)
                &&& final(self)@.subs == old(self)@.subs.push(
                    created_row(uid, body.name@, new_id, now),
                )
            } else {
                &&& r is Err
                &&& r->Err_0 == StorageError::ConstraintViolation
                &&& final(self)@.subs == old(self)@.subs
            },
    {
        if !self.user_exists_exec(uid) || self.sub_id_taken_exec(new_id) {
            return Err(StorageError::ConstraintViolation);
        }
        let ghost pre = self@;
        let row = Subscription {
            id: new_id,
            user_id: uid,
            name: body.name,
            created_at: now,
            updated_at: now,
        };
        let result = clone_subscription(&row);
        let ghost rv = row@;
        self.subscriptions.push(row);
        proof {
            assert(users_view(self.users@) =~= pre.users);
            assert(subs_view(self.subscriptions@) =~= pre.subs.push(rv));
            assert forall|i: int, j: int|
                0 <= i < j < self@.subs.len() implies #[trigger] self@.subs[i].id
                != #[trigger] self@.subs[j].id by {
                if j < pre.subs.len() {
                } else {
                    assert(self@.subs[i] == pre.subs[i]);
                    assert(self@.subs[i].id != new_id);
                }
            }
            assert forall|i: int|
                0 <= i < self@.subs.len() implies user_exists(
                self@.users,
                (#[trigger] self@.subs[i]).user_id,
            ) by {
                if i < pre.subs.len() {
                    assert(self@.subs[i] == pre.subs[i]);
                    assert(user_exists(pre.users, pre.subs[i].user_id));
                } else {
                    assert(user_exists(pre.users, uid));
                }
            }
        }
        Ok(result)
    }

    /// The unscoped listing of every subscription row, in table order.
    /// Diagnostic only: the request pipeline does not dispatch to it.
    pub fn fetch_subscriptions(&self) -> (r: Vec<Subscription>)
        ensures
            subs_view(r@) == self@.subs,
    {
        let mut out: Vec<Subscription> = Vec::new();
        let mut i: usize = 0;
        while i < self.subscriptions.len()
            invariant
                i <= self.subscriptions.len(),
                subs_view(out@) == subs_view(self.subscriptions@).take(i as int),
            decreases self.subscriptions.len() - i,
        {
            let ghost pre_out = out@;
            let row = clone_subscription(&self.subscriptions[i]);
            let ghost rv = row@;
            out.push(row);
            proof {
                let sv = subs_view(self.subscriptions@);
                assert(rv == sv[i as int]);
                assert(subs_view(out@) =~= subs_view(pre_out).push(rv));
                assert(sv.take(i as int).push(sv[i as int]) =~= sv.take(i as int + 1));
            }
            i += 1;
        }
        proof {
            assert(subs_view(self.subscriptions@).take(self.subscriptions@.len() as int) =~= self@.subs);
        }
        out
    }

    /// The rows owned by the given user, and only those, in table order.
    pub fn fetch_subscriptions_by_user(&self, uid: Uid) -> (r: Vec<Subscription>)
        ensures
            subs_view(r@) == owned_subs(self@.subs, uid),
    {
        let mut out: Vec<Subscription> = Vec::new();
        let mut i: usize = 0;
        proof {
            reveal(Seq::filter);
            assert(subs_view(self.subscriptions@).take(0) =~= Seq::<SubscriptionView>::empty());
        }
        while i < self.subscriptions.len()
            invariant
                i <= self.subscriptions.len(),
                subs_view(out@) == owned_subs(subs_view(self.subscriptions@).take(i as int), uid),
            decreases self.subscriptions.len() - i,
        {
            proof {
                reveal(Seq::filter);
                let sv = subs_view(self.subscriptions@);
                assert(sv.take(i as int + 1).drop_last() =~= sv.take(i as int));
                assert(sv.take(i as int + 1).last() == sv[i as int]);
            }
            if self.subscriptions[i].user_id == uid {
                out.push(clone_subscription(&self.subscriptions[i]));
            }
            i += 1;
        }
        proof {
            let sv = subs_view(self.subscriptions@);
            assert(sv.take(sv.len() as int) =~= sv);
        }
        out
    }

    /// The joined listing: subscription fields plus the owner's email,
    /// for the target user id taken from the path — not for the
    /// authenticated caller. Empty when no such user exists.
    pub fn fetch_subscriptions_joined_by_user(&self, uid: Uid) -> (r: Vec<SubscriptionJoinedUser>)
        ensures
            joined_view(r@) == joined_rows(self@, uid),
    {
        let k = match self.find_user_exec(uid) {
            None => {
                let out: Vec<SubscriptionJoinedUser> = Vec::new();
                proof {
                    assert(joined_view(out@) =~= joined_rows(self@, uid));
                }
                return out;
            },
            Some(k) => k,
        };
        let ghost owner = self@.users[k as int];
        let email = clone_opt_string(&self.users[k].email);
        let mut out: Vec<SubscriptionJoinedUser> = Vec::new();
        let mut i: usize = 0;
        proof {
            reveal(Seq::filter);
            assert(subs_view(self.subscriptions@).take(0) =~= Seq::<SubscriptionView>::empty());
        }
        while i < self.subscriptions.len()
            invariant
                i <= self.subscriptions.len(),
                opt_str_view(email) == owner.email,
                joined_view(out@) == owned_subs(
                    subs_view(self.subscriptions@).take(i as int),
                    uid,
                ).map_values(|s: SubscriptionView| joined_of(s, owner.email)),
            decreases self.subscriptions.len() - i,
        {
            proof {
                reveal(Seq::filter);
                let sv = subs_view(self.subscriptions@);
                assert(sv.take(i as int + 1).drop_last() =~= sv.take(i as int));
                assert(sv.take(i as int + 1).last() == sv[i as int]);
            }
            if self.subscriptions[i].user_id == uid {
                let ghost pre_out = out@;
                let s = &self.subscriptions[i];
                let row = SubscriptionJoinedUser {
                    id: s.id,
                    name: clone_string(&s.name),
                    created_at: s.created_at,
                    updated_at: s.updated_at,
                    email: clone_opt_string(&email),
                };
                let ghost rv = row@;
                out.push(row);
                proof {
                    let sv = subs_view(self.subscriptions@);
                    assert(rv == joined_of(sv[i as int], owner.email));
                    assert(joined_view(out@) =~= joined_view(pre_out).push(rv));
                    assert(owned_subs(sv.take(i as int), uid).push(sv[i as int]) =~= owned_subs(
                        sv.take(i as int + 1),
                        uid,
                    ));
                    assert(owned_subs(sv.take(i as int + 1), uid).map_values(
                        |s: SubscriptionView| joined_of(s, owner.email),
                    ) =~= owned_subs(sv.take(i as int), uid).map_values(
                        |s: SubscriptionView| joined_of(s, owner.email),
                    ).push(joined_of(sv[i as int], owner.email)));
                }
            }
            i += 1;
        }
        proof {
            let sv = subs_view(self.subscriptions@);
            assert(sv.take(sv.len() as int) =~= sv);
        }
        out
    }

    /// Applies a partial update to the row matching both the requested
    /// subscription id and the owner. Fails with `NotFound` — leaving
    /// every row unchanged — when no row matches; an ownership mismatch
    /// is indistinguishable from nonexistence.
    pub fn update_subscription(
        &mut self,
        update_set: SubscriptionUpdateParams,
        subscription_id: Uid,
        uid: Uid,
        now: u64,
    ) -> (r: Result<Subscription, StorageError>)
        requires
            store_wf(old(self)@),
        ensures
            store_wf(final(self)@),
            final(self)@.users == old(self)@.users,
            r is Ok ==> exists|i: int| {
                &&& 0 <= i < old(self)@.subs.len()
                &&& #[trigger] matches_owned(old(self)@.subs[i], subscription_id, uid)
                &&& r->Ok_0@ == patched_row(old(self)@.subs[i], update_set@, now)
                &&& final(self)@.subs == old(self)@.subs.update(
                    i,
                    patched_row(old(self)@.subs[i], update_set@, now),
                )
            },
            r is Err ==> {
                &&& r->Err_0 == StorageError::NotFound
                &&& final(self)@ == old(self)@
                &&& forall|i: int|
                    0 <= i < old(self)@.subs.len()
                        ==> !matches_owned(#[trigger] old(self)@.subs[i], subscription_id, uid)
            },
    {
        let i = match self.find_owned(subscription_id, uid) {
            None => {
                return Err(StorageError::NotFound);
            },
            Some(i) => i,
        };
        let ghost pre = self@;
        let old_row = self.subscriptions.remove(i);
        let name = match update_set.name {
            Some(n) => n,
            None => old_row.name,
        };
        let new_row = Subscription {
            id: old_row.id,
            user_id: old_row.user_id,
            name: name,
            created_at: old_row.created_at,
            updated_at: now,
        };
        let result = clone_subscription(&new_row);
        let ghost nv = new_row@;
        self.subscriptions.insert(i, new_row);
        proof {
            assert(nv == patched_row(pre.subs[i as int], update_set@, now));
            assert(users_view(self.users@) =~= pre.users);
            assert(subs_view(self.subscriptions@) =~= pre.subs.update(i as int, nv));
            assert forall|p: int, q: int|
                0 <= p < q < self@.subs.len() implies #[trigger] self@.subs[p].id
                != #[trigger] self@.subs[q].id by {
                assert(pre.subs[p].id != pre.subs[q].id);
            }
            assert forall|p: int|
                0 <= p < self@.subs.len() implies user_exists(
                self@.users,
                (#[trigger] self@.subs[p]).user_id,
            ) by {
                assert(user_exists(pre.users, pre.subs[p].user_id));
            }
        }
        Ok(result)
    }

    /// Removes the row matching both the requested subscription id and
    /// the owner, returning its prior state. Fails with `NotFound` —
    /// leaving every row unchanged — when no row matches.
    pub fn delete_subscription(
        &mut self,
        subscription_id: Uid,
        uid: Uid,
    ) -> (r: Result<Subscription, StorageError>)
        requires
            store_wf(old(self)@),
        ensures
            store_wf(final(self)@),
            final(self)@.users == old(self)@.users,
            r is Ok ==> exists|i: int| {
                &&& 0 <= i < old(self)@.subs.len()
                &&& #[trigger] matches_owned(old(self)@.subs[i], subscription_id, uid)
                &&& r->Ok_0@ == old(self)@.subs[i]
                &&& final(self)@.subs == old(self)@.subs.remove(i)
            },
            r is Err ==> {
                &&& r->Err_0 == StorageError::NotFound
                &&& final(self)@ == old(self)@
                &&& forall|i: int|
                    0 <= i < old(self)@.subs.len()
                        ==> !matches_owned(#[trigger] old(self)@.subs[i], subscription_id, uid)
            },
    {
        let i = match self.find_owned(subscription_id, uid) {
            None => {
                return Err(StorageError::NotFound);
            },
            Some(i) => i,
        };
        let ghost pre = self@;
        let removed = self.subscriptions.remove(i);
        proof {
            assert(users_view(self.users@) =~= pre.users);
            assert(subs_view(self.subscriptions@) =~= pre.subs.remove(i as int));
            assert forall|p: int, q: int|
                0 <= p < q < self@.subs.len() implies #[trigger] self@.subs[p].id
                != #[trigger] self@.subs[q].id by {
                let pp = if p < i as int { p } else { p + 1 };
                let qq = if q < i as int { q } else { q + 1 };
                assert(pre.subs[pp].id != pre.subs[qq].id);
            }
            assert forall|p: int|
                0 <= p < self@.subs.len() implies user_exists(
                self@.users,
                (#[trigger] self@.subs[p]).user_id,
            ) by {
                let pp = if p < i as int { p } else { p + 1 };
                assert(user_exists(pre.users, pre.subs[pp].user_id));
            }
        }
        Ok(removed)
    }
}

} // verus!
