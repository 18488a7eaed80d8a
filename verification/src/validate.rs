//! Format and length rules for usernames, emails and passwords.
//!
//! The rules are deliberately simple and are the single policy used
//! everywhere: a username is 4 to 16 characters drawn from lowercase ASCII
//! letters, ASCII digits and underscore; an email has an `@` that is neither
//! its first nor its last character; a password is at least 8 characters.

use vstd::prelude::*;

use crate::password::MAX_PASSWORD_LEN;

verus! {

/// Minimum length of a username.
pub const USERNAME_MIN: usize = 4;

/// Maximum length of a username.
pub const USERNAME_MAX: usize = 16;

/// Minimum length of a password.
pub const PASSWORD_MIN: usize = 8;

/// A character allowed in a username: a lowercase ASCII letter, an ASCII
/// digit, or an underscore.
pub open spec fn is_username_char(c: char) -> bool {
    ('a' <= c && c <= 'z') || ('0' <= c && c <= '9') || c == '_'
}

/// Every character of `s` is allowed in a username.
pub open spec fn all_username_chars(s: Seq<char>) -> bool {
    forall|i: int| 0 <= i < s.len() ==> is_username_char(#[trigger] s[i])
}

/// A username of acceptable length made only of allowed characters.
pub open spec fn valid_username(s: Seq<char>) -> bool {
    USERNAME_MIN <= s.len() <= USERNAME_MAX && all_username_chars(s)
}

/// An email: some `@` occurs with at least one character on each side.
pub open spec fn valid_email(s: Seq<char>) -> bool {
    exists|i: int| 0 < i < s.len() - 1 && s[i] == '@'
}

/// A password of acceptable length. The upper bound is the hashing
/// functions' limit, so that a valid password can always be hashed.
pub open spec fn valid_password(s: Seq<char>) -> bool {
    PASSWORD_MIN <= s.len() <= MAX_PASSWORD_LEN
}

/// Whether every character of `s` is a lowercase ASCII letter, an ASCII
/// digit or an underscore.
pub fn is_lowercase_alphanumeric(s: &str) -> (r: bool)
    ensures
        r == all_username_chars(s@),
{
    let len = s.unicode_len();
    let mut i: usize = 0;
    while i < len
        invariant
            len == s@.len(),
            i <= len,
            forall|j: int| 0 <= j < i ==> is_username_char(#[trigger] s@[j]),
        decreases len - i,
    {
        let c = s.get_char(i);
        if !(('a' <= c && c <= 'z') || ('0' <= c && c <= '9') || c == '_') {
            return false;
        }
        i += 1;
    }
    true
}

/// Whether `s` passes the username rule.
pub fn check_username(s: &str) -> (r: bool)
    ensures
        r == valid_username(s@),
{
    let len = s.unicode_len();
    USERNAME_MIN <= len && len <= USERNAME_MAX && is_lowercase_alphanumeric(s)
}

/// Whether `s` passes the email rule.
pub fn check_email(s: &str) -> (r: bool)
    ensures
        r == valid_email(s@),
{
    let len = s.unicode_len();
    let mut i: usize = 0;
    while i < len
        invariant
            len == s@.len(),
            i <= len,
            forall|j: int| 0 <= j < i ==> !(0 < j < s@.len() - 1 && s@[j] == '@'),
        decreases len - i,
    {
        let c = s.get_char(i);
        if c == '@' && 0 < i && i + 1 < len {
            return true;
        }
        i += 1;
    }
    false
}

/// Whether `s` passes the password rule.
pub fn check_password(s: &str) -> (r: bool)
    ensures
        r == valid_password(s@),
{
    let len = s.unicode_len();
    PASSWORD_MIN <= len && len <= MAX_PASSWORD_LEN
}

} // verus!
