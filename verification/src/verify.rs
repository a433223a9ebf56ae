//! Token normalization: stripping the optional `oauth:` marker and holding
//! the remainder to the fixed credential length of 30 characters.

use vstd::prelude::*;
use vstd::std_specs::iter::IteratorSpec;

verus! {

broadcast use vstd::string::group_string_axioms;

/// Outcome of the plain length gate on an already-stripped token.
#[derive(Debug, PartialEq, Eq, Structural)]
pub enum LengthError {
    TooLong,
    TooShort,
}

/// Outcome of the combined strip-and-measure pass over a raw argument.
#[derive(Debug, PartialEq, Eq, Structural)]
pub enum ParserError {
    TooLong,
    TooShort,
    Invalid,
}

impl ParserError {
    /// The one-line description this error prints.
    pub open spec fn spec_message(self) -> Seq<char> {
        match self {
            ParserError::TooLong => "Token is too long"@,
            ParserError::TooShort => "Token is too short"@,
            ParserError::Invalid => "Token is invalid"@,
        }
    }

    /// Renders the one-line description of this error.
    pub fn message_string(&self) -> (r: String)
        ensures
            r@ == self.spec_message(),
    {
        match self {
            ParserError::TooLong => "Token is too long".to_owned(),
            ParserError::TooShort => "Token is too short".to_owned(),
            ParserError::Invalid => "Token is invalid".to_owned(),
        }
    }
}

/// True when `s` begins with the six-character marker `oauth:`.
pub open spec fn has_oauth_prefix(s: Seq<char>) -> bool {
    s.len() >= 6 && s.subrange(0, 6) == "oauth:"@
}

/// `s` with one leading `oauth:` marker removed, when one is present.
pub open spec fn strip_oauth(s: Seq<char>) -> Seq<char> {
    if has_oauth_prefix(s) {
        s.skip(6)
    } else {
        s
    }
}

/// Relies on `str::starts_with`: true exactly when the slice begins with
/// the pattern; the pattern `oauth:` is all ASCII, so the byte-level match
/// coincides with the character-level one.
#[verifier::external_body]
fn starts_with_oauth(s: &str) -> (b: bool)
    ensures
        b == has_oauth_prefix(s@),
{
    s.starts_with("oauth:")
}

/// Relies on `str::strip_prefix`: the slice with the matched prefix removed.
/// Under the precondition the all-ASCII pattern `oauth:` does match, so the
/// fallback arm is never taken.
#[verifier::external_body]
fn strip_oauth_prefix(s: &str) -> (r: &str)
    requires
        has_oauth_prefix(s@),
    ensures
        r@ == s@.skip(6),
{
    match s.strip_prefix("oauth:") {
        Some(rest) => rest,
        None => s,
    }
}

/// Strips the `oauth:` marker from the front of the argument, if present;
/// anything else is handed back unchanged.
pub fn normalize_oauth(potential_oauth: &str) -> (r: &str)
    ensures
        r@ == strip_oauth(potential_oauth@),
{
    if starts_with_oauth(potential_oauth) {
        strip_oauth_prefix(potential_oauth)
    } else {
        potential_oauth
    }
}

/// Counts the characters of `s`, stopping once `cap` have been seen.
pub fn char_len_up_to(s: &str, cap: usize) -> (n: usize)
    ensures
        s@.len() >= cap ==> n == cap,
        s@.len() < cap ==> n == s@.len(),
{
    let mut it = s.chars();
    let mut n: usize = 0;
    while n < cap
        invariant
            it.obeys_prophetic_iter_laws(),
            n <= cap,
            n + it.remaining().len() == s@.len(),
        decreases cap - n,
    {
        match it.next() {
            Some(_) => {
                n = n + 1;
            }
            None => {
                return n;
            }
        }
    }
    n
}

/// Length gate: accepts exactly the tokens of 30 characters.
pub fn check_oauth_len(oauth: &str) -> (r: Result<&str, LengthError>)
    ensures
        oauth@.len() == 30 ==> (r matches Ok(t) && t@ == oauth@),
        oauth@.len() > 30 ==> r matches Err(LengthError::TooLong),
        oauth@.len() < 30 ==> r matches Err(LengthError::TooShort),
{
    let n = char_len_up_to(oauth, 31);
    if n > 30 {
        Err(LengthError::TooLong)
    } else if n < 30 {
        Err(LengthError::TooShort)
    } else {
        Ok(oauth)
    }
}

/// Normalizes a raw command-line argument: strips an optional `oauth:`
/// marker, then requires exactly 30 remaining characters, which it returns.
pub fn parse_pos_token(possible_token: String) -> (r: Result<String, ParserError>)
    ensures
        strip_oauth(possible_token@).len() == 30 ==> (r matches Ok(t) && t@ == strip_oauth(
            possible_token@,
        )),
        strip_oauth(possible_token@).len() > 30 ==> r matches Err(ParserError::TooLong),
        strip_oauth(possible_token@).len() < 30 ==> r matches Err(ParserError::TooShort),
{
    let stripped = normalize_oauth(possible_token.as_str());
    match check_oauth_len(stripped) {
        Ok(tok) => Ok(tok.to_owned()),
        Err(LengthError::TooLong) => Err(ParserError::TooLong),
        Err(LengthError::TooShort) => Err(ParserError::TooShort),
    }
}

/// Law: normalization is idempotent.  A token already in stripped form —
/// 30 characters, not itself beginning with the `oauth:` marker — is left
/// exactly as it is, so normalizing it a second time changes nothing.
pub proof fn lemma_normalize_idempotent(s: Seq<char>)
    requires
        s.len() == 30,
        !has_oauth_prefix(s),
    ensures
        strip_oauth(s) == s,
        strip_oauth(strip_oauth(s)) == strip_oauth(s),
{
}

} // verus!
