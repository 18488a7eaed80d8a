//! The auth service: signup (validate, hash, persist) and login (lookup,
//! verify, yield the identity for token issuance).
//!
//! Signup reports validation faults with field-level detail and uniqueness
//! conflicts by name. Login is deliberately coarse: an unknown username and
//! a wrong password are both `WrongCredentials`, so the error cannot be
//! used to enumerate accounts. Token issuance stays with the token codec;
//! both flows yield the user identifier.

use vstd::prelude::*;

use crate::dto::{LoginForm, SignupForm};
use crate::error::{Error, UniqueField};
use crate::password::{hash, hash_of, pwd_check, verify, MAX_PASSWORD_LEN};
use crate::store::{
    create_outcome,
    distinct_users,
    has_email,
    has_id,
    has_username,
    lemma_username_determines_record,
    user_with_username,
    User,
    UserStore,
};

verus! {

/// Relies on `uuid::Uuid::new_v4`: a freshly generated random (version 4)
/// UUID, taken as its 128-bit value. Nothing is assumed of it; the store
/// checks freshness itself.
#[verifier::external_body]
fn fresh_id() -> u128 {
    uuid::Uuid::new_v4().as_u128()
}

/// The record a signup at time `now` persists: the caller-supplied unique
/// fields and password hash, empty profile, an unverified email, and both
/// timestamps set to `now`.
pub open spec fn signup_record(
    id: u128,
    username: String,
    email: String,
    pwd_hash: String,
    now: u64,
) -> User {
    User {
        id,
        username,
        first_name: None,
        last_name: None,
        email,
        pwd_hash,
        age: None,
        about: None,
        verified: false,
        created_at: now,
        updated_at: now,
    }
}

/// Everything `signup` ensures, relating the store before (`s`) and after
/// (`s2`), the form, the time, and the result: a success appends exactly
/// one fresh record whose hash verifies the form's password; every failure
/// leaves the store unchanged and is accounted for — a named validation
/// fault, the username conflict, the email conflict when the username was
/// free, or a resource failure of the hasher or identifier generator.
pub open spec fn signup_post(
    s: Seq<User>,
    s2: Seq<User>,
    form: SignupForm,
    now: u64,
    r: Result<u128, Error>,
) -> bool {
    match r {
        Ok(id) => {
            &&& form.valid()
            &&& !has_username(s, form.username@)
            &&& !has_email(s, form.email@)
            &&& !has_id(s, id)
            &&& exists|h: String|
                #![trigger hash_of(h@, form.password@)]
                {
                    &&& hash_of(h@, form.password@)
                    &&& s2 == s.push(signup_record(id, form.username, form.email, h, now))
                }
        },
        Err(e) => {
            &&& s2 == s
            &&& match e {
                Error::Validation(f) => form.first_fault() == Some(f),
                Error::Conflict(UniqueField::Username) => form.valid() && has_username(
                    s,
                    form.username@,
                ),
                Error::Conflict(UniqueField::Email) => form.valid() && !has_username(
                    s,
                    form.username@,
                ) && has_email(s, form.email@),
                Error::Internal => form.valid(),
                _ => false,
            }
        },
    }
}

/// Everything `login` ensures: a password over the hashing limit or an
/// unknown username is rejected as `WrongCredentials`; otherwise the result
/// follows the check of the password against the stored record's hash,
/// except that a resource or corruption failure inside the verifier
/// surfaces as `Internal`.
pub open spec fn login_post(s: Seq<User>, form: LoginForm, r: Result<u128, Error>) -> bool {
    if form.password@.len() > MAX_PASSWORD_LEN {
        r == Err::<u128, Error>(Error::WrongCredentials)
    } else if !has_username(s, form.username@) {
        r == Err::<u128, Error>(Error::WrongCredentials)
    } else {
        let u = user_with_username(s, form.username@);
        match pwd_check(form.password@, u.pwd_hash@) {
            Some(true) => r == Ok::<u128, Error>(u.id) || r == Err::<u128, Error>(Error::Internal),
            Some(false) => r == Err::<u128, Error>(Error::WrongCredentials) || r == Err::<
                u128,
                Error,
            >(Error::Internal),
            None => r == Err::<u128, Error>(Error::Internal),
        }
    }
}

/// The two request/response flows of authentication.
pub struct AuthService;

impl AuthService {
    /// Sign a new user up: validate the form, hash the password, persist
    /// the record under a fresh identifier, and return that identifier.
    pub fn signup(store: &mut UserStore, form: SignupForm, now: u64) -> (r: Result<u128, Error>)
        requires
            old(store).wf(),
        ensures
            final(store).wf(),
            signup_post(old(store)@, final(store)@, form, now, r),
    {
        if let Err(e) = form.validate() {
            return Err(e);
        }
        let pwd_hash = match hash(form.password.as_str()) {
            Ok(h) => h,
            Err(_) => { return Err(Error::Internal) },
        };
        let ghost h = pwd_hash;
        let id = fresh_id();
        let user = User {
            id,
            username: form.username,
            first_name: None,
            last_name: None,
            email: form.email,
            pwd_hash,
            age: None,
            about: None,
            verified: false,
            created_at: now,
            updated_at: now,
        };
        match store.create(user) {
            Ok(()) => {
                proof {
                    assert(hash_of(h@, form.password@));
                }
                Ok(id)
            },
            Err(e) => Err(e),
        }
    }

    /// Log a user in: look the username up, check the password against the
    /// stored hash, and return the user's identifier for token issuance.
    /// Unknown username and failed check are the same coarse error.
    pub fn login(store: &UserStore, form: &LoginForm) -> (r: Result<u128, Error>)
        requires
            store.wf(),
        ensures
            login_post(store@, *form, r),
    {
        if form.password.as_str().unicode_len() > MAX_PASSWORD_LEN {
            return Err(Error::WrongCredentials);
        }
        let user = match store.get_by_username(&form.username) {
            Ok(u) => u,
            Err(_) => { return Err(Error::WrongCredentials) },
        };
        proof {
            let i = choose|i: int|
                0 <= i < store@.len() && (#[trigger] store@[i]) == user && user.username@
                    == form.username@;
            lemma_username_determines_record(store@, i);
        }
        match verify(form.password.as_str(), user.pwd_hash.as_str()) {
            Ok(true) => Ok(user.id),
            Ok(false) => Err(Error::WrongCredentials),
            Err(_) => Err(Error::Internal),
        }
    }
}

/// Signup then login: once a signup has succeeded, a login with the same
/// username and password cannot be rejected as wrong credentials — it
/// yields exactly the identifier the signup created, short of a resource
/// failure inside the password verifier. Issuing a token for that
/// identifier then embeds it as the subject (see the token codec's
/// contracts).
pub proof fn lemma_signup_then_login(
    s0: Seq<User>,
    s1: Seq<User>,
    form: SignupForm,
    lf: LoginForm,
    now: u64,
    id: u128,
    r_login: Result<u128, Error>,
)
    requires
        signup_post(s0, s1, form, now, Ok(id)),
        distinct_users(s1),
        lf.username@ == form.username@,
        lf.password@ == form.password@,
        login_post(s1, lf, r_login),
    ensures
        r_login == Ok::<u128, Error>(id) || r_login == Err::<u128, Error>(Error::Internal),
        r_login != Err::<u128, Error>(Error::WrongCredentials),
{
    let h = choose|h: String|
        #![trigger hash_of(h@, form.password@)]
        {
            &&& hash_of(h@, form.password@)
            &&& s1 == s0.push(signup_record(id, form.username, form.email, h, now))
        };
    let u = signup_record(id, form.username, form.email, h, now);
    assert(s1[s0.len() as int] == u);
    assert(has_username(s1, lf.username@));
    lemma_username_determines_record(s1, s0.len() as int);
    assert(user_with_username(s1, lf.username@) == u);
    assert(pwd_check(lf.password@, u.pwd_hash@) == Some(true));
}

/// Duplicate unique fields across two signups: at most one can succeed.
/// Once the first has appended its record, a second signup reusing its
/// username cannot succeed and, short of a resource failure, reports
/// exactly the conflict naming the username; a second signup with a fresh
/// username but the first's email likewise reports the conflict naming the
/// email.
pub proof fn lemma_signup_duplicate_unique_fields(
    s0: Seq<User>,
    s1: Seq<User>,
    s2: Seq<User>,
    form1: SignupForm,
    form2: SignupForm,
    now1: u64,
    now2: u64,
    id1: u128,
    r2: Result<u128, Error>,
)
    requires
        signup_post(s0, s1, form1, now1, Ok(id1)),
        signup_post(s1, s2, form2, now2, r2),
        form2.valid(),
    ensures
        form2.username@ == form1.username@ ==> r2 is Err && (r2 == Err::<u128, Error>(
            Error::Conflict(UniqueField::Username),
        ) || r2 == Err::<u128, Error>(Error::Internal)),
        form2.username@ != form1.username@ && !has_username(s0, form2.username@) && form2.email@
            == form1.email@ ==> r2 is Err && (r2 == Err::<u128, Error>(
            Error::Conflict(UniqueField::Email),
        ) || r2 == Err::<u128, Error>(Error::Internal)),
{
    let h = choose|h: String|
        #![trigger hash_of(h@, form1.password@)]
        {
            &&& hash_of(h@, form1.password@)
            &&& s1 == s0.push(signup_record(id1, form1.username, form1.email, h, now1))
        };
    let u = signup_record(id1, form1.username, form1.email, h, now1);
    assert(s1[s0.len() as int] == u);
    if form2.username@ == form1.username@ {
        assert(has_username(s1, form2.username@));
    } else {
        assert(has_email(s1, form1.email@));
        if !has_username(s0, form2.username@) {
            assert forall|i: int| 0 <= i < s1.len() implies (#[trigger] s1[i]).username@
                != form2.username@ by {
                if i < s0.len() {
                    assert(s1[i] == s0[i]);
                } else {
                    assert(s1[i] == u);
                }
            }
        }
    }
}

/// Enumeration resistance: a login with an unknown username and a login
/// with a known username but a non-matching password are rejected with the
/// same error kind — both `WrongCredentials`, the latter only giving way to
/// `Internal` on a resource failure inside the verifier. Neither can
/// succeed or leak a more specific error.
pub proof fn lemma_login_rejections_coincide(
    s: Seq<User>,
    f1: LoginForm,
    f2: LoginForm,
    r1: Result<u128, Error>,
    r2: Result<u128, Error>,
)
    requires
        distinct_users(s),
        !has_username(s, f1.username@),
        has_username(s, f2.username@),
        f2.password@.len() <= MAX_PASSWORD_LEN,
        pwd_check(f2.password@, user_with_username(s, f2.username@).pwd_hash@) == Some(false),
        login_post(s, f1, r1),
        login_post(s, f2, r2),
    ensures
        r1 == Err::<u128, Error>(Error::WrongCredentials),
        r2 == Err::<u128, Error>(Error::WrongCredentials) || r2 == Err::<u128, Error>(
            Error::Internal,
        ),
        r1 is Err && r2 is Err,
{
}

} // verus!
