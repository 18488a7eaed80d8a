use authcore::dto::{EditUserEmailForm, EditUserForm, EditUserPasswordForm};
use authcore::error::{Error, Field, TokenFault, UniqueField};
use authcore::validate::{
    check_email, check_password, check_username, is_lowercase_alphanumeric,
};

#[test]
fn username_characters_are_lowercase_alphanumeric_or_underscore() {
    assert!(is_lowercase_alphanumeric("alice"));
    assert!(is_lowercase_alphanumeric("alice_07"));
    assert!(is_lowercase_alphanumeric(""));
    assert!(!is_lowercase_alphanumeric("Alice"));
    assert!(!is_lowercase_alphanumeric("alice!"));
    assert!(!is_lowercase_alphanumeric("al ice"));
}

#[test]
fn username_rule_bounds_the_length() {
    assert!(check_username("abcd"));
    assert!(check_username("a234567890123456"));
    assert!(!check_username("abc"));
    assert!(!check_username("a2345678901234567"));
}

#[test]
fn email_rule_wants_an_interior_separator() {
    assert!(check_email("a@x.com"));
    assert!(check_email("a@b"));
    assert!(!check_email("ax.com"));
    assert!(!check_email("@x.com"));
    assert!(!check_email("ax.com@"));
    assert!(!check_email("@"));
    assert!(!check_email(""));
}

#[test]
fn password_rule_wants_at_least_eight_characters() {
    assert!(check_password("pw123456"));
    assert!(!check_password("pw12345"));
    assert!(!check_password(""));
}

#[test]
fn edit_form_validation_names_the_field() {
    let ok = EditUserForm {
        username: "alice".to_string(),
        first_name: None,
        last_name: None,
        age: Some(30),
        about: Some("x".repeat(512)),
    };
    assert_eq!(ok.validate(), Ok(()));

    let bad_username = EditUserForm { username: "Al".to_string(), ..clone_form(&ok) };
    assert_eq!(bad_username.validate(), Err(Error::Validation(Field::Username)));

    let bad_age = EditUserForm { age: Some(129), ..clone_form(&ok) };
    assert_eq!(bad_age.validate(), Err(Error::Validation(Field::Age)));

    let negative_age = EditUserForm { age: Some(-1), ..clone_form(&ok) };
    assert_eq!(negative_age.validate(), Err(Error::Validation(Field::Age)));

    let bad_about = EditUserForm { about: Some("x".repeat(513)), ..clone_form(&ok) };
    assert_eq!(bad_about.validate(), Err(Error::Validation(Field::About)));
}

fn clone_form(f: &EditUserForm) -> EditUserForm {
    EditUserForm {
        username: f.username.clone(),
        first_name: f.first_name.clone(),
        last_name: f.last_name.clone(),
        age: f.age,
        about: f.about.clone(),
    }
}

#[test]
fn email_form_validation() {
    assert_eq!(EditUserEmailForm { email: "a@x.com".to_string() }.validate(), Ok(()));
    assert_eq!(
        EditUserEmailForm { email: "ax.com".to_string() }.validate(),
        Err(Error::Validation(Field::Email))
    );
}

#[test]
fn password_form_validation() {
    let ok = EditUserPasswordForm {
        password: "pw123456".to_string(),
        repeat_password: "pw123456".to_string(),
    };
    assert_eq!(ok.validate(), Ok(()));
    let short = EditUserPasswordForm {
        password: "pw1234".to_string(),
        repeat_password: "pw1234".to_string(),
    };
    assert_eq!(short.validate(), Err(Error::Validation(Field::Password)));
    let mismatch = EditUserPasswordForm {
        password: "pw123456".to_string(),
        repeat_password: "pw123457".to_string(),
    };
    assert_eq!(mismatch.validate(), Err(Error::Validation(Field::Password)));
}

#[test]
fn errors_map_to_their_status_codes() {
    assert_eq!(Error::Validation(Field::Email).status_code(), 400);
    assert_eq!(Error::Conflict(UniqueField::Username).status_code(), 409);
    assert_eq!(Error::WrongCredentials.status_code(), 401);
    assert_eq!(Error::NotFound.status_code(), 404);
    assert_eq!(Error::Unauthorized(TokenFault::Expired).status_code(), 401);
    assert_eq!(Error::Internal.status_code(), 500);
}

#[test]
fn errors_have_client_safe_messages() {
    assert_eq!(Error::Conflict(UniqueField::Username).message(), "This username is already taken.");
    assert_eq!(Error::Conflict(UniqueField::Email).message(), "This email is already taken.");
    assert_eq!(Error::WrongCredentials.message(), "Wrong credentials.");
    assert!(!Error::Internal.message().is_empty());
}
