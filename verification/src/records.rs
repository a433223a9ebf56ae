//! The records the provider's two endpoints speak in, the library's error
//! taxonomy for the calls, and the one-line descriptions each error prints.

use vstd::prelude::*;
use vstd::string::StringExecFns;

verus! {

/// Metadata the provider returns for a valid token.
#[derive(Debug)]
pub struct VerifiedJson {
    pub client_id: String,
    pub login: String,
    pub scopes: Vec<String>,
    pub user_id: String,
    /// Remaining lifetime in seconds; -1 marks a non-expiring token.
    pub expires_in: i32,
}

/// The structured error payload the provider returns on an unauthorized or
/// invalid-token response.
#[derive(Debug)]
pub struct TwitchAuthError {
    pub status: u16,
    pub message: String,
}

/// What can go wrong once a well-formed token is checked against the
/// provider: the token is refused, a response body has the wrong shape, or
/// an endpoint answers with a status code outside its documented set.
#[derive(Debug)]
pub enum ACheckError {
    InvalidToken(String),
    DeserializeError(String),
    UnexpectedCode(u16),
    NotFound(u16),
}

/// The character for one decimal digit.
pub open spec fn dec_digit(d: nat) -> char {
    if d == 0 {
        '0'
    } else if d == 1 {
        '1'
    } else if d == 2 {
        '2'
    } else if d == 3 {
        '3'
    } else if d == 4 {
        '4'
    } else if d == 5 {
        '5'
    } else if d == 6 {
        '6'
    } else if d == 7 {
        '7'
    } else if d == 8 {
        '8'
    } else {
        '9'
    }
}

/// The usual decimal rendering of `n`, most significant digit first and
/// without leading zeros.
pub open spec fn dec_rep(n: nat) -> Seq<char>
    decreases n,
{
    if n < 10 {
        seq![dec_digit(n)]
    } else {
        dec_rep(n / 10) + seq![dec_digit(n % 10)]
    }
}

/// The one-character string for a single decimal digit.
fn digit_str(d: u16) -> (r: &'static str)
    requires
        d < 10,
    ensures
        r@ == seq![dec_digit(d as nat)],
{
    if d == 0 {
        proof {
            reveal_strlit("0");
        }
        assert("0"@ =~= seq![dec_digit(d as nat)]);
        "0"
    } else if d == 1 {
        proof {
            reveal_strlit("1");
        }
        assert("1"@ =~= seq![dec_digit(d as nat)]);
        "1"
    } else if d == 2 {
        proof {
            reveal_strlit("2");
        }
        assert("2"@ =~= seq![dec_digit(d as nat)]);
        "2"
    } else if d == 3 {
        proof {
            reveal_strlit("3");
        }
        assert("3"@ =~= seq![dec_digit(d as nat)]);
        "3"
    } else if d == 4 {
        proof {
            reveal_strlit("4");
        }
        assert("4"@ =~= seq![dec_digit(d as nat)]);
        "4"
    } else if d == 5 {
        proof {
            reveal_strlit("5");
        }
        assert("5"@ =~= seq![dec_digit(d as nat)]);
        "5"
    } else if d == 6 {
        proof {
            reveal_strlit("6");
        }
        assert("6"@ =~= seq![dec_digit(d as nat)]);
        "6"
    } else if d == 7 {
        proof {
            reveal_strlit("7");
        }
        assert("7"@ =~= seq![dec_digit(d as nat)]);
        "7"
    } else if d == 8 {
        proof {
            reveal_strlit("8");
        }
        assert("8"@ =~= seq![dec_digit(d as nat)]);
        "8"
    } else {
        proof {
            reveal_strlit("9");
        }
        assert("9"@ =~= seq![dec_digit(d as nat)]);
        "9"
    }
}

/// Renders `n` in decimal, exactly as `dec_rep` describes it.
pub fn u16_to_dec(n: u16) -> (r: String)
    ensures
        r@ == dec_rep(n as nat),
    decreases n,
{
    if n < 10 {
        digit_str(n).to_owned()
    } else {
        let mut r = u16_to_dec(n / 10);
        let last = digit_str(n % 10);
        r.append(last);
        r
    }
}

impl TwitchAuthError {
    /// The human-readable part of the provider's error payload.
    pub fn message_string(&self) -> (r: String)
        ensures
            r@ == self.message@,
    {
        self.message.clone()
    }
}

impl ACheckError {
    /// The one-line description this error prints.
    pub open spec fn spec_message(self) -> Seq<char> {
        match self {
            ACheckError::InvalidToken(m) => "Error: "@ + m@,
            ACheckError::DeserializeError(m) => "Deserialization error: "@ + m@,
            ACheckError::UnexpectedCode(c) => "Unexpected status code: "@ + dec_rep(c as nat),
            ACheckError::NotFound(c) => "Error code "@ + dec_rep(c as nat) + ", Is Twitch down?"@,
        }
    }

    /// Renders the one-line description of this error.
    pub fn message_string(&self) -> (r: String)
        ensures
            r@ == self.spec_message(),
    {
        match self {
            ACheckError::InvalidToken(m) => {
                let mut r = "Error: ".to_owned();
                r.append(m.as_str());
                r
            }
            ACheckError::DeserializeError(m) => {
                let mut r = "Deserialization error: ".to_owned();
                r.append(m.as_str());
                r
            }
            ACheckError::UnexpectedCode(c) => {
                let mut r = "Unexpected status code: ".to_owned();
                let code = u16_to_dec(*c);
                r.append(code.as_str());
                r
            }
            ACheckError::NotFound(c) => {
                let mut r = "Error code ".to_owned();
                let code = u16_to_dec(*c);
                r.append(code.as_str());
                r.append(", Is Twitch down?");
                r
            }
        }
    }
}

} // verus!
