//! The credential store: user records keyed by identifier, username or
//! email, with store-enforced uniqueness of all three.
//!
//! Every operation is a single atomic unit: an insert either appends the
//! whole record or reports which unique field collided, and leaves the store
//! untouched; point lookups report `NotFound` as a first-class outcome,
//! distinct from any other failure. Each mutation touches exactly the fields
//! it is about, plus the `updated_at` timestamp.

use vstd::prelude::*;

use crate::dto::EditUserForm;
use crate::error::{Error, UniqueField};

verus! {

/// A stored user/credential record. The identifier and the creation
/// timestamp are assigned by the service at creation and never change; the
/// password hash is opaque here and only replaced whole.
#[derive(Debug)]
pub struct User {
    /// Unique, immutable identifier.
    pub id: u128,
    /// Unique, immutable business key.
    pub username: String,
    /// Optional profile field.
    pub first_name: Option<String>,
    /// Optional profile field.
    pub last_name: Option<String>,
    /// Unique, mutable through the email-change flow only.
    pub email: String,
    /// Encoded password hash; opaque to the store.
    pub pwd_hash: String,
    /// Optional profile field.
    pub age: Option<i32>,
    /// Optional profile field.
    pub about: Option<String>,
    /// Whether the email was confirmed; defaults to false.
    pub verified: bool,
    /// Set once at creation, in seconds.
    pub created_at: u64,
    /// Set at creation and on each mutation, in seconds.
    pub updated_at: u64,
}

/// What a user sees of a record: every field except the identifier and the
/// password hash, which are never serialized out.
#[derive(Debug)]
pub struct UserProfile {
    /// Unique business key.
    pub username: String,
    /// Optional profile field.
    pub first_name: Option<String>,
    /// Optional profile field.
    pub last_name: Option<String>,
    /// Contact email.
    pub email: String,
    /// Optional profile field.
    pub age: Option<i32>,
    /// Optional profile field.
    pub about: Option<String>,
    /// Whether the email was confirmed.
    pub verified: bool,
    /// Creation time, in seconds.
    pub created_at: u64,
    /// Last mutation time, in seconds.
    pub updated_at: u64,
}

fn clone_opt_string(s: &Option<String>) -> (r: Option<String>)
    ensures
        r == *s,
{
    match s {
        Some(x) => Some(x.clone()),
        None => None,
    }
}

impl Clone for User {
    /// A field-for-field copy.
    fn clone(&self) -> (res: Self)
        ensures
            res == *self,
    {
        User {
            id: self.id,
            username: self.username.clone(),
            first_name: clone_opt_string(&self.first_name),
            last_name: clone_opt_string(&self.last_name),
            email: self.email.clone(),
            pwd_hash: self.pwd_hash.clone(),
            age: self.age,
            about: clone_opt_string(&self.about),
            verified: self.verified,
            created_at: self.created_at,
            updated_at: self.updated_at,
        }
    }
}

impl User {
    /// The client-facing view of the record: all fields but the identifier
    /// and the password hash, copied unchanged.
    pub fn profile(&self) -> (p: UserProfile)
        ensures
            p.username == self.username,
            p.first_name == self.first_name,
            p.last_name == self.last_name,
            p.email == self.email,
            p.age == self.age,
            p.about == self.about,
            p.verified == self.verified,
            p.created_at == self.created_at,
            p.updated_at == self.updated_at,
    {
        UserProfile {
            username: self.username.clone(),
            first_name: clone_opt_string(&self.first_name),
            last_name: clone_opt_string(&self.last_name),
            email: self.email.clone(),
            age: self.age,
            about: clone_opt_string(&self.about),
            verified: self.verified,
            created_at: self.created_at,
            updated_at: self.updated_at,
        }
    }
}

/// Some record in `s` has identifier `id`.
pub open spec fn has_id(s: Seq<User>, id: u128) -> bool {
    exists|i: int| 0 <= i < s.len() && (#[trigger] s[i]).id == id
}

/// Some record in `s` has username `u`.
pub open spec fn has_username(s: Seq<User>, u: Seq<char>) -> bool {
    exists|i: int| 0 <= i < s.len() && (#[trigger] s[i]).username@ == u
}

/// Some record in `s` has email `e`.
pub open spec fn has_email(s: Seq<User>, e: Seq<char>) -> bool {
    exists|i: int| 0 <= i < s.len() && (#[trigger] s[i]).email@ == e
}

/// No two records of `s` share an identifier, a username or an email: the
/// store's uniqueness invariant.
pub open spec fn distinct_users(s: Seq<User>) -> bool {
    forall|i: int, j: int|
        0 <= i < j < s.len() ==> {
            &&& (#[trigger] s[i]).id != (#[trigger] s[j]).id
            &&& s[i].username@ != s[j].username@
            &&& s[i].email@ != s[j].email@
        }
}

/// What inserting `user` into a store holding `s` returns: the conflicting
/// unique field if there is one, username taking precedence over email, an
/// internal error on an identifier collision, success otherwise.
pub open spec fn create_outcome(s: Seq<User>, user: User) -> Result<(), Error> {
    if has_username(s, user.username@) {
        Err(Error::Conflict(UniqueField::Username))
    } else if has_email(s, user.email@) {
        Err(Error::Conflict(UniqueField::Email))
    } else if has_id(s, user.id) {
        Err(Error::Internal)
    } else {
        Ok(())
    }
}

/// Some record other than the one with identifier `id` has username `u`.
pub open spec fn username_taken_by_other(s: Seq<User>, id: u128, u: Seq<char>) -> bool {
    exists|i: int| 0 <= i < s.len() && (#[trigger] s[i]).username@ == u && s[i].id != id
}

/// Some record other than the one with identifier `id` has email `e`.
pub open spec fn email_taken_by_other(s: Seq<User>, id: u128, e: Seq<char>) -> bool {
    exists|i: int| 0 <= i < s.len() && (#[trigger] s[i]).email@ == e && s[i].id != id
}

/// `u` with exactly its profile fields replaced from `f` and its update
/// timestamp set to `now`.
pub open spec fn edited_profile(u: User, f: EditUserForm, now: u64) -> User {
    User {
        id: u.id,
        username: f.username,
        first_name: f.first_name,
        last_name: f.last_name,
        email: u.email,
        pwd_hash: u.pwd_hash,
        age: f.age,
        about: f.about,
        verified: u.verified,
        created_at: u.created_at,
        updated_at: now,
    }
}

/// `u` with exactly its email replaced and its update timestamp set.
pub open spec fn edited_email(u: User, email: String, now: u64) -> User {
    User {
        id: u.id,
        username: u.username,
        first_name: u.first_name,
        last_name: u.last_name,
        email: email,
        pwd_hash: u.pwd_hash,
        age: u.age,
        about: u.about,
        verified: u.verified,
        created_at: u.created_at,
        updated_at: now,
    }
}

/// `u` with exactly its password hash replaced and its update timestamp
/// set.
pub open spec fn edited_password(u: User, pwd_hash: String, now: u64) -> User {
    User {
        id: u.id,
        username: u.username,
        first_name: u.first_name,
        last_name: u.last_name,
        email: u.email,
        pwd_hash: pwd_hash,
        age: u.age,
        about: u.about,
        verified: u.verified,
        created_at: u.created_at,
        updated_at: now,
    }
}

/// The record of `s` holding username `name`; meaningful when
/// `has_username(s, name)` holds and `s` satisfies the uniqueness
/// invariant, under which it does not depend on the witness chosen.
pub open spec fn user_with_username(s: Seq<User>, name: Seq<char>) -> User {
    s[choose|i: int| 0 <= i < s.len() && (#[trigger] s[i]).username@ == name]
}

/// Under the uniqueness invariant, any record with username `name` is
/// `user_with_username(s, name)`.
pub proof fn lemma_username_determines_record(s: Seq<User>, i: int)
    requires
        distinct_users(s),
        0 <= i < s.len(),
    ensures
        user_with_username(s, s[i].username@) == s[i],
{
    let name = s[i].username@;
    assert(has_username(s, name));
    let j = choose|j: int| 0 <= j < s.len() && (#[trigger] s[j]).username@ == name;
    if i < j {
        assert(s[i].username@ != s[j].username@);
    } else if j < i {
        assert(s[j].username@ != s[i].username@);
    }
}

/// The in-memory credential store.
pub struct UserStore {
    users: Vec<User>,
}

impl View for UserStore {
    type V = Seq<User>;

    /// The store is modelled as the sequence of its records, in insertion
    /// order.
    closed spec fn view(&self) -> Seq<User> {
        self.users@
    }
}

impl UserStore {
    /// The uniqueness invariant; constructors establish it and every
    /// operation preserves it.
    pub open spec fn wf(&self) -> bool {
        distinct_users(self@)
    }

    /// An empty store.
    pub fn new() -> (s: UserStore)
        ensures
            s@ == Seq::<User>::empty(),
            s.wf(),
    {
        UserStore { users: Vec::new() }
    }

    /// How many records the store holds.
    pub fn len(&self) -> (n: usize)
        ensures
            n == self@.len(),
    {
        self.users.len()
    }

    fn contains_id(&self, id: u128) -> (r: bool)
        ensures
            r == has_id(self@, id),
    {
        let n = self.users.len();
        let mut i: usize = 0;
        while i < n
            invariant
                n == self@.len(),
                i <= n,
                forall|j: int| 0 <= j < i ==> (#[trigger] self@[j]).id != id,
            decreases n - i,
        {
            if self.users[i].id == id {
                return true;
            }
            i += 1;
        }
        false
    }

    fn contains_username(&self, u: &String) -> (r: bool)
        ensures
            r == has_username(self@, u@),
    {
        let n = self.users.len();
        let mut i: usize = 0;
        while i < n
            invariant
                n == self@.len(),
                i <= n,
                forall|j: int| 0 <= j < i ==> (#[trigger] self@[j]).username@ != u@,
            decreases n - i,
        {
            if self.users[i].username == *u {
                return true;
            }
            i += 1;
        }
        false
    }

    fn contains_email(&self, e: &String) -> (r: bool)
        ensures
            r == has_email(self@, e@),
    {
        let n = self.users.len();
        let mut i: usize = 0;
        while i < n
            invariant
                n == self@.len(),
                i <= n,
                forall|j: int| 0 <= j < i ==> (#[trigger] self@[j]).email@ != e@,
            decreases n - i,
        {
            if self.users[i].email == *e {
                return true;
            }
            i += 1;
        }
        false
    }

    /// Insert a new record atomically: on any conflict the store is
    /// unchanged and the conflicting unique field is named, username taking
    /// precedence over email. A collision on the identifier itself cannot be
    /// acted on by a client and is reported as internal.
    pub fn create(&mut self, user: User) -> (r: Result<(), Error>)
        requires
            old(self).wf(),
        ensures
            final(self).wf(),
            r == create_outcome(old(self)@, user),
            r is Ok ==> final(self)@ == old(self)@.push(user),
            r is Err ==> final(self)@ == old(self)@,
    {
        if self.contains_username(&user.username) {
            return Err(Error::Conflict(UniqueField::Username));
        }
        if self.contains_email(&user.email) {
            return Err(Error::Conflict(UniqueField::Email));
        }
        if self.contains_id(user.id) {
            return Err(Error::Internal);
        }
        proof {
            let s = self@;
            assert forall|i: int, j: int| 0 <= i < j < s.push(user).len() implies {
                &&& (#[trigger] s.push(user)[i]).id != (#[trigger] s.push(user)[j]).id
                &&& s.push(user)[i].username@ != s.push(user)[j].username@
                &&& s.push(user)[i].email@ != s.push(user)[j].email@
            } by {
                if j < s.len() {
                    assert(s.push(user)[i] == s[i]);
                    assert(s.push(user)[j] == s[j]);
                } else {
                    assert(s.push(user)[j] == user);
                    assert(s.push(user)[i] == s[i]);
                }
            }
        }
        self.users.push(user);
        Ok(())
    }

    /// Point lookup by identifier; `NotFound` exactly when no record has it.
    pub fn get_by_id(&self, id: u128) -> (r: Result<User, Error>)
        ensures
            r matches Ok(u) ==> exists|i: int|
                0 <= i < self@.len() && (#[trigger] self@[i]) == u && u.id == id,
            r matches Err(e) ==> e == Error::NotFound,
            r is Ok <==> has_id(self@, id),
    {
        let n = self.users.len();
        let mut i: usize = 0;
        while i < n
            invariant
                n == self@.len(),
                i <= n,
                forall|j: int| 0 <= j < i ==> (#[trigger] self@[j]).id != id,
            decreases n - i,
        {
            if self.users[i].id == id {
                return Ok(self.users[i].clone());
            }
            i += 1;
        }
        Err(Error::NotFound)
    }

    /// Point lookup by username; `NotFound` exactly when no record has it.
    pub fn get_by_username(&self, username: &String) -> (r: Result<User, Error>)
        ensures
            r matches Ok(u) ==> exists|i: int|
                0 <= i < self@.len() && (#[trigger] self@[i]) == u && u.username@ == username@,
            r matches Err(e) ==> e == Error::NotFound,
            r is Ok <==> has_username(self@, username@),
    {
        let n = self.users.len();
        let mut i: usize = 0;
        while i < n
            invariant
                n == self@.len(),
                i <= n,
                forall|j: int| 0 <= j < i ==> (#[trigger] self@[j]).username@ != username@,
            decreases n - i,
        {
            if self.users[i].username == *username {
                return Ok(self.users[i].clone());
            }
            i += 1;
        }
        Err(Error::NotFound)
    }

    /// Point lookup by email; `NotFound` exactly when no record has it.
    pub fn get_by_email(&self, email: &String) -> (r: Result<User, Error>)
        ensures
            r matches Ok(u) ==> exists|i: int|
                0 <= i < self@.len() && (#[trigger] self@[i]) == u && u.email@ == email@,
            r matches Err(e) ==> e == Error::NotFound,
            r is Ok <==> has_email(self@, email@),
    {
        let n = self.users.len();
        let mut i: usize = 0;
        while i < n
            invariant
                n == self@.len(),
                i <= n,
                forall|j: int| 0 <= j < i ==> (#[trigger] self@[j]).email@ != email@,
            decreases n - i,
        {
            if self.users[i].email == *email {
                return Ok(self.users[i].clone());
            }
            i += 1;
        }
        Err(Error::NotFound)
    }

    /// Every record, in insertion order.
    pub fn get_all(&self) -> (r: Vec<User>)
        ensures
            r@ == self@,
    {
        let n = self.users.len();
        let mut r: Vec<User> = Vec::new();
        let mut i: usize = 0;
        while i < n
            invariant
                n == self@.len(),
                i <= n,
                r@ =~= self@.subrange(0, i as int),
            decreases n - i,
        {
            r.push(self.users[i].clone());
            i += 1;
        }
        proof {
            assert(self@.subrange(0, n as int) =~= self@);
        }
        r
    }

    fn find_index(&self, id: u128) -> (r: Option<usize>)
        ensures
            r matches Some(i) ==> i < self@.len() && self@[i as int].id == id,
            r is None <==> !has_id(self@, id),
    {
        let n = self.users.len();
        let mut i: usize = 0;
        while i < n
            invariant
                n == self@.len(),
                i <= n,
                forall|j: int| 0 <= j < i ==> (#[trigger] self@[j]).id != id,
            decreases n - i,
        {
            if self.users[i].id == id {
                return Some(i);
            }
            i += 1;
        }
        None
    }

    /// Replace exactly the profile fields of the record with identifier
    /// `id` and stamp it, atomically: on an unknown identifier or a
    /// username already held by another record, the store is unchanged.
    pub fn edit(&mut self, id: u128, form: EditUserForm, now: u64) -> (r: Result<(), Error>)
        requires
            old(self).wf(),
        ensures
            final(self).wf(),
            !has_id(old(self)@, id) ==> r == Err::<(), Error>(Error::NotFound) && final(self)@
                == old(self)@,
            has_id(old(self)@, id) && username_taken_by_other(old(self)@, id, form.username@) ==> r
                == Err::<(), Error>(Error::Conflict(UniqueField::Username)) && final(self)@
                == old(self)@,
            has_id(old(self)@, id) && !username_taken_by_other(old(self)@, id, form.username@)
                ==> r == Ok::<(), Error>(()) && exists|i: int|
                {
                    &&& 0 <= i < old(self)@.len()
                    &&& (#[trigger] old(self)@[i]).id == id
                    &&& final(self)@ == old(self)@.update(
                        i,
                        edited_profile(old(self)@[i], form, now),
                    )
                },
    {
        let idx = match self.find_index(id) {
            Some(i) => i,
            None => { return Err(Error::NotFound) },
        };
        let n = self.users.len();
        let mut j: usize = 0;
        while j < n
            invariant
                n == self@.len(),
                j <= n,
                idx < n,
                self@[idx as int].id == id,
                self.wf(),
                forall|k: int|
                    0 <= k < j ==> !((#[trigger] self@[k]).username@ == form.username@
                        && self@[k].id != id),
            decreases n - j,
        {
            if self.users[j].id != id && self.users[j].username == form.username {
                return Err(Error::Conflict(UniqueField::Username));
            }
            j += 1;
        }
        let updated = User {
            id,
            username: form.username,
            first_name: form.first_name,
            last_name: form.last_name,
            email: self.users[idx].email.clone(),
            pwd_hash: self.users[idx].pwd_hash.clone(),
            age: form.age,
            about: form.about,
            verified: self.users[idx].verified,
            created_at: self.users[idx].created_at,
            updated_at: now,
        };
        proof {
            lemma_update_keeps_distinct(self@, idx as int, updated);
        }
        self.users[idx] = updated;
        Ok(())
    }

    /// Replace exactly the email of the record with identifier `id` and
    /// stamp it, atomically: on an unknown identifier or an email already
    /// held by another record, the store is unchanged.
    pub fn edit_email(&mut self, id: u128, email: String, now: u64) -> (r: Result<(), Error>)
        requires
            old(self).wf(),
        ensures
            final(self).wf(),
            !has_id(old(self)@, id) ==> r == Err::<(), Error>(Error::NotFound) && final(self)@
                == old(self)@,
            has_id(old(self)@, id) && email_taken_by_other(old(self)@, id, email@) ==> r
                == Err::<(), Error>(Error::Conflict(UniqueField::Email)) && final(self)@
                == old(self)@,
            has_id(old(self)@, id) && !email_taken_by_other(old(self)@, id, email@) ==> r
                == Ok::<(), Error>(()) && exists|i: int|
                {
                    &&& 0 <= i < old(self)@.len()
                    &&& (#[trigger] old(self)@[i]).id == id
                    &&& final(self)@ == old(self)@.update(i, edited_email(old(self)@[i], email, now))
                },
    {
        let idx = match self.find_index(id) {
            Some(i) => i,
            None => { return Err(Error::NotFound) },
        };
        let n = self.users.len();
        let mut j: usize = 0;
        while j < n
            invariant
                n == self@.len(),
                j <= n,
                idx < n,
                self@[idx as int].id == id,
                self.wf(),
                forall|k: int|
                    0 <= k < j ==> !((#[trigger] self@[k]).email@ == email@ && self@[k].id != id),
            decreases n - j,
        {
            if self.users[j].id != id && self.users[j].email == email {
                return Err(Error::Conflict(UniqueField::Email));
            }
            j += 1;
        }
        let updated = User {
            id,
            username: self.users[idx].username.clone(),
            first_name: clone_opt_string(&self.users[idx].first_name),
            last_name: clone_opt_string(&self.users[idx].last_name),
            email,
            pwd_hash: self.users[idx].pwd_hash.clone(),
            age: self.users[idx].age,
            about: clone_opt_string(&self.users[idx].about),
            verified: self.users[idx].verified,
            created_at: self.users[idx].created_at,
            updated_at: now,
        };
        proof {
            lemma_update_keeps_distinct(self@, idx as int, updated);
        }
        self.users[idx] = updated;
        Ok(())
    }

    /// Replace exactly the password hash of the record with identifier `id`
    /// and stamp it; the store is unchanged on an unknown identifier.
    pub fn edit_password(&mut self, id: u128, pwd_hash: String, now: u64) -> (r: Result<(), Error>)
        requires
            old(self).wf(),
        ensures
            final(self).wf(),
            !has_id(old(self)@, id) ==> r == Err::<(), Error>(Error::NotFound) && final(self)@
                == old(self)@,
            has_id(old(self)@, id) ==> r == Ok::<(), Error>(()) && exists|i: int|
                {
                    &&& 0 <= i < old(self)@.len()
                    &&& (#[trigger] old(self)@[i]).id == id
                    &&& final(self)@ == old(self)@.update(
                        i,
                        edited_password(old(self)@[i], pwd_hash, now),
                    )
                },
    {
        let idx = match self.find_index(id) {
            Some(i) => i,
            None => { return Err(Error::NotFound) },
        };
        let updated = User {
            id,
            username: self.users[idx].username.clone(),
            first_name: clone_opt_string(&self.users[idx].first_name),
            last_name: clone_opt_string(&self.users[idx].last_name),
            email: self.users[idx].email.clone(),
            pwd_hash,
            age: self.users[idx].age,
            about: clone_opt_string(&self.users[idx].about),
            verified: self.users[idx].verified,
            created_at: self.users[idx].created_at,
            updated_at: now,
        };
        proof {
            lemma_update_keeps_distinct(self@, idx as int, updated);
        }
        self.users[idx] = updated;
        Ok(())
    }

    /// Remove the record with identifier `id`; the store is unchanged on an
    /// unknown identifier, and the identifier is absent afterwards.
    pub fn delete(&mut self, id: u128) -> (r: Result<(), Error>)
        requires
            old(self).wf(),
        ensures
            final(self).wf(),
            !has_id(old(self)@, id) ==> r == Err::<(), Error>(Error::NotFound) && final(self)@
                == old(self)@,
            has_id(old(self)@, id) ==> r == Ok::<(), Error>(()) && !has_id(final(self)@, id)
                && exists|i: int|
                {
                    &&& 0 <= i < old(self)@.len()
                    &&& (#[trigger] old(self)@[i]).id == id
                    &&& final(self)@ == old(self)@.remove(i)
                },
    {
        let idx = match self.find_index(id) {
            Some(i) => i,
            None => { return Err(Error::NotFound) },
        };
        proof {
            lemma_remove_keeps_distinct(self@, idx as int);
            lemma_remove_unique_id(self@, idx as int);
        }
        let _removed = self.users.remove(idx);
        Ok(())
    }
}

/// Replacing the record at `i` with one that keeps its identifier and
/// takes no other record's username or email preserves the uniqueness
/// invariant.
proof fn lemma_update_keeps_distinct(s: Seq<User>, i: int, u: User)
    requires
        distinct_users(s),
        0 <= i < s.len(),
        u.id == s[i].id,
        !username_taken_by_other(s, u.id, u.username@),
        !email_taken_by_other(s, u.id, u.email@),
    ensures
        distinct_users(s.update(i, u)),
{
    let s2 = s.update(i, u);
    assert forall|a: int, b: int| 0 <= a < b < s2.len() implies {
        &&& (#[trigger] s2[a]).id != (#[trigger] s2[b]).id
        &&& s2[a].username@ != s2[b].username@
        &&& s2[a].email@ != s2[b].email@
    } by {
        if a != i && b != i {
            assert(s2[a] == s[a] && s2[b] == s[b]);
        } else if a == i {
            assert(s2[b] == s[b]);
            assert(s[b].id != u.id);
            assert(s[b].username@ != u.username@);
            assert(s[b].email@ != u.email@);
        } else {
            assert(s2[a] == s[a]);
            assert(s[a].id != u.id);
            assert(s[a].username@ != u.username@);
            assert(s[a].email@ != u.email@);
        }
    }
}

/// Removing a record preserves the uniqueness invariant.
proof fn lemma_remove_keeps_distinct(s: Seq<User>, i: int)
    requires
        distinct_users(s),
        0 <= i < s.len(),
    ensures
        distinct_users(s.remove(i)),
{
    let s2 = s.remove(i);
    assert forall|a: int, b: int| 0 <= a < b < s2.len() implies {
        &&& (#[trigger] s2[a]).id != (#[trigger] s2[b]).id
        &&& s2[a].username@ != s2[b].username@
        &&& s2[a].email@ != s2[b].email@
    } by {
        let a0 = if a < i { a } else { a + 1 };
        let b0 = if b < i { b } else { b + 1 };
        assert(s2[a] == s[a0]);
        assert(s2[b] == s[b0]);
    }
}

/// Round trip through the store: a record that `create` accepted is what
/// any subsequent lookup of its identifier returns, field for field — the
/// caller-supplied fields come back unchanged, and only the identifier and
/// the timestamps were assigned by the caller of `create`. Here `x` is any
/// record a lookup of `u.id` in the grown store can yield.
pub proof fn lemma_create_then_get_by_id(s: Seq<User>, u: User, x: User)
    requires
        distinct_users(s),
        create_outcome(s, u) == Ok::<(), Error>(()),
        exists|i: int| 0 <= i < s.push(u).len() && (#[trigger] s.push(u)[i]) == x && x.id == u.id,
    ensures
        x == u,
        has_id(s.push(u), u.id),
{
    let s2 = s.push(u);
    let i = choose|i: int| 0 <= i < s2.len() && (#[trigger] s2[i]) == x && x.id == u.id;
    if i < s.len() {
        assert(s2[i] == s[i]);
        assert(has_id(s, u.id));
    } else {
        assert(s2[i] == u);
    }
    assert(s2[s.len() as int] == u);
}

/// After removing the record at `i`, its identifier is gone: the invariant
/// made it the only holder.
proof fn lemma_remove_unique_id(s: Seq<User>, i: int)
    requires
        distinct_users(s),
        0 <= i < s.len(),
    ensures
        !has_id(s.remove(i), s[i].id),
{
    let s2 = s.remove(i);
    assert forall|a: int| 0 <= a < s2.len() implies (#[trigger] s2[a]).id != s[i].id by {
        let a0 = if a < i { a } else { a + 1 };
        assert(s2[a] == s[a0]);
    }
}

} // verus!
