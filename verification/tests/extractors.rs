use authcore::dto::{AuthBody, SignupForm};
use authcore::error::{Error, TokenFault};
use authcore::extractors::{authenticate, authenticate_id, parse_bearer};
use authcore::service::AuthService;
use authcore::store::UserStore;
use authcore::token::{Claims, TOKEN_TTL_SECONDS};

const SECRET: &str = "server-signing-secret";

fn signup_alice(store: &mut UserStore, now: u64) -> u128 {
    let form = SignupForm {
        username: "alice".to_string(),
        email: "a@x.com".to_string(),
        password: "pw123456".to_string(),
        repeat_password: "pw123456".to_string(),
    };
    AuthService::signup(store, form, now).expect("signup should succeed")
}

#[test]
fn parse_bearer_splits_scheme_and_token() {
    assert_eq!(parse_bearer("Bearer abc.def.ghi"), Some("abc.def.ghi"));
    assert_eq!(parse_bearer("Bearer "), Some(""));
    assert_eq!(parse_bearer("bearer abc"), None);
    assert_eq!(parse_bearer("Basic abc"), None);
    assert_eq!(parse_bearer(""), None);
    assert_eq!(parse_bearer("Bearer"), None);
}

#[test]
fn signup_token_grants_access_to_own_profile() {
    // the signup flow of the HTTP surface: signup, wrap the token, then use
    // it as a bearer credential on a protected request
    let mut store = UserStore::new();
    let id = signup_alice(&mut store, 1_000);
    let token = Claims::new(id, 1_000).sign(SECRET).expect("signing should succeed");
    let body = AuthBody::new(token);

    let header = format!("{} {}", body.token_type, body.access_token);
    let me = authenticate(&store, SECRET, &header, 2_000).expect("request should authenticate");
    assert_eq!(me.0.id, id);
    let profile = me.0.profile();
    assert_eq!(profile.username, "alice");
    assert_eq!(profile.email, "a@x.com");

    let just_id = authenticate_id(SECRET, &header, 2_000).expect("request should authenticate");
    assert_eq!(just_id.0, id);
}

#[test]
fn missing_or_foreign_scheme_short_circuits() {
    let store = UserStore::new();
    assert_eq!(
        authenticate(&store, SECRET, "", 0).unwrap_err(),
        Error::Unauthorized(TokenFault::MissingBearer)
    );
    assert_eq!(
        authenticate(&store, SECRET, "Basic abc", 0).unwrap_err(),
        Error::Unauthorized(TokenFault::MissingBearer)
    );
}

#[test]
fn expired_token_is_rejected_at_the_door() {
    let mut store = UserStore::new();
    let id = signup_alice(&mut store, 1_000);
    let token = Claims::new(id, 1_000).sign(SECRET).expect("signing should succeed");
    let header = format!("Bearer {token}");
    let after_expiry = 1_000 + TOKEN_TTL_SECONDS;
    assert_eq!(
        authenticate(&store, SECRET, &header, after_expiry).unwrap_err(),
        Error::Unauthorized(TokenFault::Expired)
    );
}

#[test]
fn token_of_a_deleted_user_no_longer_authenticates() {
    let mut store = UserStore::new();
    let id = signup_alice(&mut store, 1_000);
    let token = Claims::new(id, 1_000).sign(SECRET).expect("signing should succeed");
    let header = format!("Bearer {token}");
    assert!(authenticate(&store, SECRET, &header, 2_000).is_ok());

    store.delete(id).expect("delete should succeed");
    assert_eq!(authenticate(&store, SECRET, &header, 2_000).unwrap_err(), Error::WrongCredentials);
    // the identity-only extractor does not consult the store, so the token
    // alone still decodes
    assert!(authenticate_id(SECRET, &header, 2_000).is_ok());
}

#[test]
fn forged_token_is_rejected() {
    let mut store = UserStore::new();
    let id = signup_alice(&mut store, 1_000);
    let forged = Claims::new(id, 1_000)
        .sign("another-signing-secret")
        .expect("signing should succeed");
    let header = format!("Bearer {forged}");
    assert_eq!(
        authenticate(&store, SECRET, &header, 2_000).unwrap_err(),
        Error::Unauthorized(TokenFault::Invalid)
    );
}
