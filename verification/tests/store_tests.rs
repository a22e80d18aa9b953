use subscription_service::model::{
    CreateSubscriptionBody, StorageError, SubscriptionUpdateParams, Uid, User,
};
use subscription_service::store::Store;

fn user(id: u128, email: Option<&str>) -> User {
    User {
        id: Uid(id),
        email: email.map(|e| e.to_string()),
        hashed_password: None,
        created_at: Some(1),
        updated_at: Some(1),
    }
}

fn store_with_two_users() -> Store {
    let mut s = Store::new();
    s.insert_user(user(1, Some("u1@example.com"))).unwrap();
    s.insert_user(user(2, Some("u2@example.com"))).unwrap();
    s
}

#[test]
fn create_round_trip_keeps_name_and_timestamps() {
    let mut s = store_with_two_users();
    let body = CreateSubscriptionBody { name: "x".to_string() };
    let row = s.create_new_subscription(body, Uid(1), Uid(100), 42).unwrap();
    assert_eq!(row.id, Uid(100));
    assert_eq!(row.user_id, Uid(1));
    assert_eq!(row.name, "x");
    assert_eq!(row.created_at, 42);
    assert_eq!(row.updated_at, 42);
    assert_eq!(row.created_at, row.updated_at);

    let fetched: Vec<_> = s
        .fetch_subscriptions()
        .into_iter()
        .filter(|r| r.id == Uid(100))
        .collect();
    assert_eq!(fetched.len(), 1);
    assert_eq!(fetched[0].name, "x");
    assert_eq!(fetched[0].created_at, fetched[0].updated_at);
}

#[test]
fn create_fails_for_unknown_owner() {
    let mut s = store_with_two_users();
    let body = CreateSubscriptionBody { name: "x".to_string() };
    let r = s.create_new_subscription(body, Uid(99), Uid(100), 42);
    assert_eq!(r.unwrap_err(), StorageError::ConstraintViolation);
    assert!(s.fetch_subscriptions().is_empty());
}

#[test]
fn create_fails_for_duplicate_id() {
    let mut s = store_with_two_users();
    let first = CreateSubscriptionBody { name: "a".to_string() };
    let second = CreateSubscriptionBody { name: "b".to_string() };
    s.create_new_subscription(first, Uid(1), Uid(100), 1).unwrap();
    let r = s.create_new_subscription(second, Uid(2), Uid(100), 2);
    assert_eq!(r.unwrap_err(), StorageError::ConstraintViolation);
    assert_eq!(s.fetch_subscriptions().len(), 1);
}

#[test]
fn listing_by_owner_is_exactly_the_owners_rows() {
    let mut s = store_with_two_users();
    s.create_new_subscription(CreateSubscriptionBody { name: "a".to_string() }, Uid(1), Uid(100), 1)
        .unwrap();
    s.create_new_subscription(CreateSubscriptionBody { name: "b".to_string() }, Uid(2), Uid(101), 2)
        .unwrap();
    s.create_new_subscription(CreateSubscriptionBody { name: "c".to_string() }, Uid(1), Uid(102), 3)
        .unwrap();

    let mine = s.fetch_subscriptions_by_user(Uid(1));
    assert_eq!(mine.len(), 2);
    assert_eq!(mine[0].name, "a");
    assert_eq!(mine[1].name, "c");
    assert!(mine.iter().all(|r| r.user_id == Uid(1)));

    let theirs = s.fetch_subscriptions_by_user(Uid(2));
    assert_eq!(theirs.len(), 1);
    assert_eq!(theirs[0].name, "b");

    assert!(s.fetch_subscriptions_by_user(Uid(3)).is_empty());
}

#[test]
fn unscoped_listing_holds_every_row() {
    let mut s = store_with_two_users();
    s.create_new_subscription(CreateSubscriptionBody { name: "a".to_string() }, Uid(1), Uid(100), 1)
        .unwrap();
    s.create_new_subscription(CreateSubscriptionBody { name: "b".to_string() }, Uid(2), Uid(101), 2)
        .unwrap();
    let all = s.fetch_subscriptions();
    assert_eq!(all.len(), 2);
    assert_eq!(all[0].name, "a");
    assert_eq!(all[1].name, "b");
}

#[test]
fn update_patches_name_and_updated_at() {
    let mut s = store_with_two_users();
    s.create_new_subscription(CreateSubscriptionBody { name: "a".to_string() }, Uid(1), Uid(100), 10)
        .unwrap();
    let patch = SubscriptionUpdateParams { name: Some("y".to_string()) };
    let row = s.update_subscription(patch, Uid(100), Uid(1), 20).unwrap();
    assert_eq!(row.name, "y");
    assert_eq!(row.created_at, 10);
    assert_eq!(row.updated_at, 20);
    let listed = s.fetch_subscriptions_by_user(Uid(1));
    assert_eq!(listed[0].name, "y");
    assert_eq!(listed[0].updated_at, 20);
}

#[test]
fn update_without_patch_keeps_name() {
    let mut s = store_with_two_users();
    s.create_new_subscription(CreateSubscriptionBody { name: "a".to_string() }, Uid(1), Uid(100), 10)
        .unwrap();
    let patch = SubscriptionUpdateParams { name: None };
    let row = s.update_subscription(patch, Uid(100), Uid(1), 20).unwrap();
    assert_eq!(row.name, "a");
    assert_eq!(row.updated_at, 20);
}

#[test]
fn update_by_non_owner_fails_and_mutates_nothing() {
    let mut s = store_with_two_users();
    s.create_new_subscription(CreateSubscriptionBody { name: "a".to_string() }, Uid(1), Uid(100), 10)
        .unwrap();
    let patch = SubscriptionUpdateParams { name: Some("stolen".to_string()) };
    let r = s.update_subscription(patch, Uid(100), Uid(2), 20);
    assert_eq!(r.unwrap_err(), StorageError::NotFound);
    let listed = s.fetch_subscriptions_by_user(Uid(1));
    assert_eq!(listed[0].name, "a");
    assert_eq!(listed[0].updated_at, 10);
}

#[test]
fn update_of_missing_row_fails() {
    let mut s = store_with_two_users();
    let patch = SubscriptionUpdateParams { name: Some("y".to_string()) };
    let r = s.update_subscription(patch, Uid(100), Uid(1), 20);
    assert_eq!(r.unwrap_err(), StorageError::NotFound);
}

#[test]
fn delete_returns_prior_state() {
    let mut s = store_with_two_users();
    s.create_new_subscription(CreateSubscriptionBody { name: "a".to_string() }, Uid(1), Uid(100), 10)
        .unwrap();
    let row = s.delete_subscription(Uid(100), Uid(1)).unwrap();
    assert_eq!(row.name, "a");
    assert_eq!(row.created_at, 10);
    assert!(s.fetch_subscriptions_by_user(Uid(1)).is_empty());
}

#[test]
fn delete_by_non_owner_fails_and_row_survives() {
    let mut s = store_with_two_users();
    s.create_new_subscription(CreateSubscriptionBody { name: "a".to_string() }, Uid(1), Uid(100), 10)
        .unwrap();
    let r = s.delete_subscription(Uid(100), Uid(2));
    assert_eq!(r.unwrap_err(), StorageError::NotFound);
    assert_eq!(s.fetch_subscriptions_by_user(Uid(1)).len(), 1);
}

#[test]
fn joined_listing_carries_owner_email() {
    let mut s = store_with_two_users();
    s.create_new_subscription(CreateSubscriptionBody { name: "a".to_string() }, Uid(1), Uid(100), 1)
        .unwrap();
    s.create_new_subscription(CreateSubscriptionBody { name: "b".to_string() }, Uid(2), Uid(101), 2)
        .unwrap();
    s.create_new_subscription(CreateSubscriptionBody { name: "c".to_string() }, Uid(1), Uid(102), 3)
        .unwrap();

    let rows = s.fetch_subscriptions_joined_by_user(Uid(1));
    assert_eq!(rows.len(), 2);
    assert_eq!(rows[0].name, "a");
    assert_eq!(rows[1].name, "c");
    assert_eq!(rows[0].email.as_deref(), Some("u1@example.com"));
    assert_eq!(rows[1].email.as_deref(), Some("u1@example.com"));
}

#[test]
fn joined_listing_for_unknown_user_is_empty() {
    let mut s = store_with_two_users();
    s.create_new_subscription(CreateSubscriptionBody { name: "a".to_string() }, Uid(1), Uid(100), 1)
        .unwrap();
    assert!(s.fetch_subscriptions_joined_by_user(Uid(9)).is_empty());
}

#[test]
fn joined_listing_keeps_absent_email() {
    let mut s = Store::new();
    s.insert_user(user(5, None)).unwrap();
    s.create_new_subscription(CreateSubscriptionBody { name: "a".to_string() }, Uid(5), Uid(100), 1)
        .unwrap();
    let rows = s.fetch_subscriptions_joined_by_user(Uid(5));
    assert_eq!(rows.len(), 1);
    assert_eq!(rows[0].email, None);
}

#[test]
fn duplicate_user_id_is_rejected() {
    let mut s = Store::new();
    s.insert_user(user(1, None)).unwrap();
    let r = s.insert_user(user(1, Some("again@example.com")));
    assert_eq!(r.unwrap_err(), StorageError::ConstraintViolation);
}
