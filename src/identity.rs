//! Reading the verified email out of an identity endpoint's answer.
//!
//! The answer is a JSON object. The email is the string value of its first
//! `"email"` key, and it counts only when the provider's verified flag is
//! `true`. A missing key, a value that is not a plain string, an empty value
//! or one holding an escape is refused rather than guessed at.
use vstd::prelude::*;

use crate::error::AuthError;
use crate::provider::Provider;
use crate::text::{chars_of, occurs_at, string_of};

verus! {

/// The key that names the email field, quotes included.
pub const EMAIL_KEY: &'static str = "\"email\"";

/// The key of the flag with which Google and Hogbisz mark a verified email.
pub const EMAIL_VERIFIED_KEY: &'static str = "\"email_verified\"";

/// The key of the flag with which Discord marks a verified email.
pub const VERIFIED_KEY: &'static str = "\"verified\"";

/// The JSON literal that sets a flag.
pub const TRUE_LITERAL: &'static str = "true";

/// The key of the flag that marks the email a provider answers with as verified.
pub open spec fn verified_key(p: Provider) -> Seq<char> {
    match p {
        Provider::Google => EMAIL_VERIFIED_KEY@,
        Provider::Discord => VERIFIED_KEY@,
        Provider::Hogbisz => EMAIL_VERIFIED_KEY@,
    }
}

/// Blank characters that JSON allows between tokens.
pub open spec fn is_blank(c: char) -> bool {
    c == ' ' || c == '\t' || c == '\n' || c == '\r'
}

/// The first position at or after `j` that does not hold a blank.
pub open spec fn skip_blanks(s: Seq<char>, j: int) -> int
    decreases s.len() - j,
{
    if 0 <= j < s.len() && is_blank(s[j]) {
        skip_blanks(s, j + 1)
    } else {
        j
    }
}

/// The first position at or after `j` that holds a double quote, or the length.
pub open spec fn next_quote(s: Seq<char>, j: int) -> int
    decreases s.len() - j,
{
    if 0 <= j < s.len() && s[j] != '"' {
        next_quote(s, j + 1)
    } else {
        j
    }
}

/// Whether `key` stands at `i` as a key: followed, after blanks, by a colon.
pub open spec fn key_at(s: Seq<char>, key: Seq<char>, i: int) -> bool {
    &&& 0 <= i
    &&& i + key.len() <= s.len()
    &&& s.subrange(i, i + key.len()) == key
    &&& skip_blanks(s, i + key.len()) < s.len()
    &&& s[skip_blanks(s, i + key.len())] == ':'
}

/// The first position at or after `i` where `key` stands as a key.
pub open spec fn first_key_from(s: Seq<char>, key: Seq<char>, i: int) -> Option<int>
    decreases s.len() - i,
{
    if i < 0 || i >= s.len() {
        None
    } else if key_at(s, key, i) {
        Some(i)
    } else {
        first_key_from(s, key, i + 1)
    }
}

/// Where the value of the key at `i` starts: after the colon and blanks.
pub open spec fn value_start(s: Seq<char>, key: Seq<char>, i: int) -> int {
    skip_blanks(s, skip_blanks(s, i + key.len()) + 1)
}

/// The string value of the key at `i`: the characters between the opening
/// quote that follows the colon and the next quote.
pub open spec fn value_after_key(s: Seq<char>, key: Seq<char>, i: int) -> Option<Seq<char>> {
    let open = value_start(s, key, i);
    if open < s.len() && s[open] == '"' && next_quote(s, open + 1) < s.len() {
        Some(s.subrange(open + 1, next_quote(s, open + 1)))
    } else {
        None
    }
}

/// A value that can stand as an email: not empty and free of escapes.
pub open spec fn usable_email(v: Seq<char>) -> bool {
    v.len() > 0 && !v.contains('\\')
}

/// The email that an identity answer carries, if it carries a usable one:
/// the value of the first email key.
pub open spec fn email_field(s: Seq<char>) -> Option<Seq<char>> {
    match first_key_from(s, EMAIL_KEY@, 0) {
        Some(i) => match value_after_key(s, EMAIL_KEY@, i) {
            Some(v) => if usable_email(v) {
                Some(v)
            } else {
                None
            },
            None => None,
        },
        None => None,
    }
}

/// Whether the first `key` of an answer has the value `true`.
pub open spec fn flag_set(s: Seq<char>, key: Seq<char>) -> bool {
    match first_key_from(s, key, 0) {
        Some(i) => {
            let v = value_start(s, key, i);
            v + TRUE_LITERAL@.len() <= s.len() && s.subrange(v, v + TRUE_LITERAL@.len())
                == TRUE_LITERAL@
        },
        None => false,
    }
}

/// What a provider's identity answer yields: the email on a success status
/// with a usable email field that the provider marks as verified, an
/// identity failure otherwise.
pub open spec fn identity_of(p: Provider, status: u16, body: Seq<char>) -> Result<
    Seq<char>,
    AuthError,
> {
    if 200 <= status < 300 && email_field(body) is Some && flag_set(body, verified_key(p)) {
        Ok(email_field(body)->0)
    } else {
        Err(AuthError::IdentityFetchFailed)
    }
}

/// Blank characters that JSON allows between tokens.
fn blank(c: char) -> (r: bool)
    ensures
        r == is_blank(c),
{
    c == ' ' || c == '\t' || c == '\n' || c == '\r'
}

/// The first position at or after `j` that does not hold a blank.
fn skip_blanks_exec(s: &Vec<char>, j: usize) -> (r: usize)
    requires
        j <= s@.len(),
    ensures
        r == skip_blanks(s@, j as int),
        j <= r <= s@.len(),
{
    let mut k = j;
    while k < s.len() && blank(s[k])
        invariant
            j <= k <= s@.len(),
            skip_blanks(s@, k as int) == skip_blanks(s@, j as int),
        decreases s@.len() - k,
    {
        k = k + 1;
    }
    k
}

/// The first position at or after `j` that holds a double quote, or the length.
fn next_quote_exec(s: &Vec<char>, j: usize) -> (r: usize)
    requires
        j <= s@.len(),
    ensures
        r == next_quote(s@, j as int),
        j <= r <= s@.len(),
{
    let mut k = j;
    while k < s.len() && s[k] != '"'
        invariant
            j <= k <= s@.len(),
            next_quote(s@, k as int) == next_quote(s@, j as int),
        decreases s@.len() - k,
    {
        k = k + 1;
    }
    k
}

/// Whether `key` stands at `i` as a key.
fn key_at_exec(s: &Vec<char>, key: &Vec<char>, i: usize) -> (r: bool)
    requires
        i <= s@.len(),
    ensures
        r == key_at(s@, key@, i as int),
{
    let n = s.len();
    if !occurs_at(s, i, key) {
        return false;
    }
    assert(i + key@.len() <= n);
    let j = skip_blanks_exec(s, i + key.len());
    j < s.len() && s[j] == ':'
}

/// The first position where `key` stands as a key, if any.
fn first_key(s: &Vec<char>, key: &Vec<char>) -> (r: Option<usize>)
    ensures
        match r {
            Some(i) => first_key_from(s@, key@, 0) == Some(i as int) && i < s@.len() && key_at(
                s@,
                key@,
                i as int,
            ),
            None => first_key_from(s@, key@, 0) is None,
        },
{
    let n = s.len();
    let mut i: usize = 0;
    while i < n
        invariant
            n == s@.len(),
            i <= n,
            first_key_from(s@, key@, 0) == first_key_from(s@, key@, i as int),
        decreases n - i,
    {
        if key_at_exec(s, key, i) {
            return Some(i);
        }
        i = i + 1;
    }
    None
}

/// Whether `v` holds a backslash.
fn has_backslash(v: &Vec<char>, from: usize, to: usize) -> (r: bool)
    requires
        from <= to <= v@.len(),
    ensures
        r == v@.subrange(from as int, to as int).contains('\\'),
{
    let mut k = from;
    while k < to
        invariant
            from <= k <= to <= v@.len(),
            forall|m: int| from <= m < k ==> v@[m] != '\\',
        decreases to - k,
    {
        if v[k] == '\\' {
            assert(v@.subrange(from as int, to as int)[k - from] == '\\');
            return true;
        }
        k = k + 1;
    }
    assert(!v@.subrange(from as int, to as int).contains('\\')) by {
        let sub = v@.subrange(from as int, to as int);
        assert forall|m: int| 0 <= m < sub.len() implies sub[m] != '\\' by {
            assert(sub[m] == v@[from + m]);
        }
    }
    false
}

/// The email that an identity answer carries, if it carries a usable one.
pub fn email_field_of(body: &str) -> (r: Option<String>)
    ensures
        match r {
            Some(e) => email_field(body@) == Some(e@),
            None => email_field(body@) is None,
        },
{
    let s = chars_of(body);
    let key = chars_of(EMAIL_KEY);
    let n = s.len();
    match first_key(&s, &key) {
        Some(i) => {
            let colon = skip_blanks_exec(&s, i + key.len());
            let open = skip_blanks_exec(&s, colon + 1);
            if open < n && s[open] == '"' {
                let close = next_quote_exec(&s, open + 1);
                if close < n && close > open + 1 && !has_backslash(&s, open + 1, close) {
                    return Some(string_of(&s, open + 1, close));
                }
            }
            None
        },
        None => None,
    }
}

/// Whether the first `key` of an answer has the value `true`.
pub fn flag_set_in(body: &str, key: &str) -> (r: bool)
    ensures
        r == flag_set(body@, key@),
{
    let s = chars_of(body);
    let k = chars_of(key);
    let t = chars_of(TRUE_LITERAL);
    let n = s.len();
    match first_key(&s, &k) {
        Some(i) => {
            let colon = skip_blanks_exec(&s, i + k.len());
            let v = skip_blanks_exec(&s, colon + 1);
            occurs_at(&s, v, &t)
        },
        None => false,
    }
}

/// The key of the flag that marks the email a provider answers with as verified.
pub fn verified_key_of(p: Provider) -> (r: &'static str)
    ensures
        r@ == verified_key(p),
{
    match p {
        Provider::Google => EMAIL_VERIFIED_KEY,
        Provider::Discord => VERIFIED_KEY,
        Provider::Hogbisz => EMAIL_VERIFIED_KEY,
    }
}

/// The verified email that a provider's identity endpoint answered with,
/// given the answer's HTTP status and body.
pub fn parse_identity(p: Provider, status: u16, body: &str) -> (r: Result<String, AuthError>)
    ensures
        match r {
            Ok(e) => identity_of(p, status, body@) == Ok::<Seq<char>, AuthError>(e@),
            Err(err) => identity_of(p, status, body@) == Err::<Seq<char>, AuthError>(err),
        },
        r is Err ==> r == Err::<String, AuthError>(AuthError::IdentityFetchFailed),
{
    if status < 200 || status >= 300 {
        return Err(AuthError::IdentityFetchFailed);
    }
    if !flag_set_in(body, verified_key_of(p)) {
        return Err(AuthError::IdentityFetchFailed);
    }
    match email_field_of(body) {
        Some(e) => Ok(e),
        None => Err(AuthError::IdentityFetchFailed),
    }
}

} // verus!
