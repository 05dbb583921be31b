//! Format checks on the e-mail address and password given at registration.

use vstd::prelude::*;
use vstd::utf8::encode_utf8;

verus! {

pub open spec fn is_lower(c: char) -> bool {
    'a' <= c && c <= 'z'
}

pub open spec fn is_upper(c: char) -> bool {
    'A' <= c && c <= 'Z'
}

pub open spec fn is_digit(c: char) -> bool {
    '0' <= c && c <= '9'
}

pub open spec fn is_alphanumeric(c: char) -> bool {
    is_lower(c) || is_upper(c) || is_digit(c)
}

/// The character class that the `kind`-th password rule asks for:
/// lowercase, uppercase, digit, or anything but an ASCII letter or digit.
pub open spec fn in_class(kind: u8, c: char) -> bool {
    if kind == 0 {
        is_lower(c)
    } else if kind == 1 {
        is_upper(c)
    } else if kind == 2 {
        is_digit(c)
    } else {
        !is_alphanumeric(c)
    }
}

/// Some character of `s` is in the class `kind`.
pub open spec fn has_char(s: Seq<char>, kind: u8) -> bool {
    exists|i: int| 0 <= i < s.len() && in_class(kind, #[trigger] s[i])
}

/// The first rule that a password breaks, if any, as the message that names
/// it. Its length is counted in bytes of UTF-8.
pub open spec fn password_error(s: Seq<char>) -> Option<Seq<char>> {
    if encode_utf8(s).len() < 8 {
        Some("Password must be at least 8 characters"@)
    } else if !has_char(s, 0) {
        Some("Password must contain a lowercase letter"@)
    } else if !has_char(s, 1) {
        Some("Password must contain an uppercase letter"@)
    } else if !has_char(s, 2) {
        Some("Password must contain a digit"@)
    } else if !has_char(s, 3) {
        Some("Password must contain a special character"@)
    } else {
        None
    }
}

/// The first rule that an e-mail address breaks, if any, as the message that names it.
pub open spec fn email_error(s: Seq<char>) -> Option<Seq<char>> {
    if !s.contains('@') {
        Some("Email must contain an @ symbol"@)
    } else if !s.contains('.') {
        Some("Email must contain a . symbol"@)
    } else {
        None
    }
}

/// The outcome of a check, seen as the message of its error.
pub open spec fn check_view(r: Result<(), String>) -> Option<Seq<char>> {
    match r {
        Ok(_) => None,
        Err(m) => Some(m@),
    }
}

fn find_char(s: &str, kind: u8) -> (r: bool)
    requires
        kind < 4,
    ensures
        r == has_char(s@, kind),
{
    let n = s.unicode_len();
    let mut i: usize = 0;
    while i < n
        invariant
            n == s@.len(),
            i <= n,
            kind < 4,
            forall|j: int| 0 <= j < i ==> !in_class(kind, #[trigger] s@[j]),
        decreases n - i,
    {
        let c = s.get_char(i);
        let lower = 'a' <= c && c <= 'z';
        let upper = 'A' <= c && c <= 'Z';
        let digit = '0' <= c && c <= '9';
        let hit = if kind == 0 {
            lower
        } else if kind == 1 {
            upper
        } else if kind == 2 {
            digit
        } else {
            !(lower || upper || digit)
        };
        if hit {
            return true;
        }
        i = i + 1;
    }
    false
}

fn contains_char(s: &str, x: char) -> (r: bool)
    ensures
        r == s@.contains(x),
{
    let n = s.unicode_len();
    let mut i: usize = 0;
    while i < n
        invariant
            n == s@.len(),
            i <= n,
            forall|j: int| 0 <= j < i ==> s@[j] != x,
        decreases n - i,
    {
        if s.get_char(i) == x {
            return true;
        }
        i = i + 1;
    }
    false
}

/// Checks the password rules in order: at least eight bytes long, then a
/// lowercase letter, an uppercase letter, a digit, and a character that is
/// neither an ASCII letter nor a digit. The error names the first rule broken.
pub fn validate_password(password: &str) -> (r: Result<(), String>)
    ensures
        check_view(r) == password_error(password@),
{
    if password.as_bytes().len() < 8 {
        return Err("Password must be at least 8 characters".to_owned());
    }
    if !find_char(password, 0) {
        return Err("Password must contain a lowercase letter".to_owned());
    }
    if !find_char(password, 1) {
        return Err("Password must contain an uppercase letter".to_owned());
    }
    if !find_char(password, 2) {
        return Err("Password must contain a digit".to_owned());
    }
    if !find_char(password, 3) {
        return Err("Password must contain a special character".to_owned());
    }
    Ok(())
}

/// Checks that an e-mail address holds an `@` and a `.`; the error names the
/// first check that failed.
pub fn validate_email(email: &str) -> (r: Result<(), String>)
    ensures
        check_view(r) == email_error(email@),
{
    if !contains_char(email, '@') {
        return Err("Email must contain an @ symbol".to_owned());
    }
    if !contains_char(email, '.') {
        return Err("Email must contain a . symbol".to_owned());
    }
    Ok(())
}

} // verus!
