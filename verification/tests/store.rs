use authcore::dto::EditUserForm;
use authcore::error::{Error, UniqueField};
use authcore::store::{User, UserStore};

fn record(id: u128, username: &str, email: &str) -> User {
    User {
        id,
        username: username.to_string(),
        first_name: None,
        last_name: None,
        email: email.to_string(),
        pwd_hash: "$argon2id$fake".to_string(),
        age: None,
        about: None,
        verified: false,
        created_at: 100,
        updated_at: 100,
    }
}

#[test]
fn create_then_get_by_id_round_trips() {
    let mut store = UserStore::new();
    let mut user = record(1, "alice", "a@x.com");
    user.first_name = Some("Alice".to_string());
    user.age = Some(30);
    assert_eq!(store.create(user), Ok(()));

    let got = store.get_by_id(1).expect("record should be found");
    assert_eq!(got.id, 1);
    assert_eq!(got.username, "alice");
    assert_eq!(got.first_name, Some("Alice".to_string()));
    assert_eq!(got.last_name, None);
    assert_eq!(got.email, "a@x.com");
    assert_eq!(got.pwd_hash, "$argon2id$fake");
    assert_eq!(got.age, Some(30));
    assert_eq!(got.about, None);
    assert!(!got.verified);
    assert_eq!(got.created_at, 100);
    assert_eq!(got.updated_at, 100);
}

#[test]
fn lookups_by_each_key_find_the_same_record() {
    let mut store = UserStore::new();
    assert_eq!(store.create(record(1, "alice", "a@x.com")), Ok(()));
    assert_eq!(store.create(record(2, "bob", "b@x.com")), Ok(()));

    assert_eq!(store.get_by_username(&"bob".to_string()).unwrap().id, 2);
    assert_eq!(store.get_by_email(&"a@x.com".to_string()).unwrap().id, 1);
    assert_eq!(store.len(), 2);
    let all = store.get_all();
    assert_eq!(all.len(), 2);
    assert_eq!(all[0].username, "alice");
    assert_eq!(all[1].username, "bob");
}

#[test]
fn missing_records_are_not_found() {
    let store = UserStore::new();
    assert_eq!(store.get_by_id(9).unwrap_err(), Error::NotFound);
    assert_eq!(store.get_by_username(&"ghost".to_string()).unwrap_err(), Error::NotFound);
    assert_eq!(store.get_by_email(&"g@x.com".to_string()).unwrap_err(), Error::NotFound);
}

#[test]
fn create_names_the_conflicting_field() {
    let mut store = UserStore::new();
    assert_eq!(store.create(record(1, "alice", "a@x.com")), Ok(()));

    // same username, different email: the username conflicts
    assert_eq!(
        store.create(record(2, "alice", "other@x.com")),
        Err(Error::Conflict(UniqueField::Username))
    );
    // different username, same email: the email conflicts
    assert_eq!(
        store.create(record(3, "carol", "a@x.com")),
        Err(Error::Conflict(UniqueField::Email))
    );
    // the failed inserts left the store untouched
    assert_eq!(store.len(), 1);
}

#[test]
fn edit_replaces_profile_fields_and_stamps() {
    let mut store = UserStore::new();
    assert_eq!(store.create(record(1, "alice", "a@x.com")), Ok(()));
    let form = EditUserForm {
        username: "alicia".to_string(),
        first_name: Some("Alice".to_string()),
        last_name: Some("Liddell".to_string()),
        age: Some(28),
        about: Some("hello".to_string()),
    };
    assert_eq!(store.edit(1, form, 250), Ok(()));

    let got = store.get_by_id(1).unwrap();
    assert_eq!(got.username, "alicia");
    assert_eq!(got.first_name, Some("Alice".to_string()));
    assert_eq!(got.last_name, Some("Liddell".to_string()));
    assert_eq!(got.age, Some(28));
    assert_eq!(got.about, Some("hello".to_string()));
    // untouched fields survive, and only the update stamp moved
    assert_eq!(got.email, "a@x.com");
    assert_eq!(got.pwd_hash, "$argon2id$fake");
    assert_eq!(got.created_at, 100);
    assert_eq!(got.updated_at, 250);
}

#[test]
fn edit_rejects_a_username_held_by_another_record() {
    let mut store = UserStore::new();
    assert_eq!(store.create(record(1, "alice", "a@x.com")), Ok(()));
    assert_eq!(store.create(record(2, "bob", "b@x.com")), Ok(()));
    let form = EditUserForm {
        username: "alice".to_string(),
        first_name: None,
        last_name: None,
        age: None,
        about: None,
    };
    assert_eq!(store.edit(2, form, 300), Err(Error::Conflict(UniqueField::Username)));
    // keeping one's own username is no conflict
    let keep = EditUserForm {
        username: "bob".to_string(),
        first_name: None,
        last_name: None,
        age: None,
        about: None,
    };
    assert_eq!(store.edit(2, keep, 300), Ok(()));
}

#[test]
fn edit_email_replaces_only_the_email() {
    let mut store = UserStore::new();
    assert_eq!(store.create(record(1, "alice", "a@x.com")), Ok(()));
    assert_eq!(store.create(record(2, "bob", "b@x.com")), Ok(()));

    assert_eq!(
        store.edit_email(2, "a@x.com".to_string(), 300),
        Err(Error::Conflict(UniqueField::Email))
    );
    assert_eq!(store.edit_email(2, "new@x.com".to_string(), 300), Ok(()));
    let got = store.get_by_id(2).unwrap();
    assert_eq!(got.email, "new@x.com");
    assert_eq!(got.username, "bob");
    assert_eq!(got.updated_at, 300);
    assert_eq!(store.edit_email(9, "x@x.com".to_string(), 300), Err(Error::NotFound));
}

#[test]
fn edit_password_replaces_only_the_hash() {
    let mut store = UserStore::new();
    assert_eq!(store.create(record(1, "alice", "a@x.com")), Ok(()));
    assert_eq!(store.edit_password(1, "$argon2id$other".to_string(), 400), Ok(()));
    let got = store.get_by_id(1).unwrap();
    assert_eq!(got.pwd_hash, "$argon2id$other");
    assert_eq!(got.username, "alice");
    assert_eq!(got.updated_at, 400);
    assert_eq!(store.edit_password(9, "h".to_string(), 400), Err(Error::NotFound));
}

#[test]
fn delete_removes_the_record() {
    let mut store = UserStore::new();
    assert_eq!(store.create(record(1, "alice", "a@x.com")), Ok(()));
    assert_eq!(store.create(record(2, "bob", "b@x.com")), Ok(()));
    assert_eq!(store.delete(1), Ok(()));
    assert_eq!(store.get_by_id(1).unwrap_err(), Error::NotFound);
    assert_eq!(store.len(), 1);
    assert_eq!(store.delete(1), Err(Error::NotFound));
    // the freed username can be taken again
    assert_eq!(store.create(record(3, "alice", "c@x.com")), Ok(()));
}

#[test]
fn profile_carries_no_identifier_and_no_hash() {
    let mut user = record(1, "alice", "a@x.com");
    user.about = Some("hi".to_string());
    let p = user.profile();
    assert_eq!(p.username, "alice");
    assert_eq!(p.email, "a@x.com");
    assert_eq!(p.about, Some("hi".to_string()));
    assert_eq!(p.created_at, 100);
    // UserProfile has no id and no pwd_hash field at all; what it carries
    // is exactly the client-safe remainder of the record.
}
