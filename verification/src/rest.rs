use vstd::prelude::*;

verus! {

/// Verdict on a request to the API.
#[derive(Clone, Copy, Debug, PartialEq, Eq, Structural)]
pub enum Authorization {
    Granted,
    /// The request carries a token, but not the right one.
    Incorrect,
    /// The request carries no token.
    NotProvided,
}

/// The token a request carries: that of its bearer header, else that of its
/// authorization cookie.
pub open spec fn request_token(bearer: Option<String>, cookie: Option<String>) -> Option<String> {
    match bearer {
        Some(token) => Some(token),
        None => cookie,
    }
}

/// Decides whether a request may pass. Requests from this host, and all
/// requests while no access token is configured, pass unseen; any other
/// request must carry the configured token.
pub fn auth_validator(
    from_localhost: bool,
    access_token: &Option<String>,
    bearer: Option<String>,
    cookie: Option<String>,
) -> (verdict: Authorization)
    ensures
        verdict == if from_localhost || *access_token is None {
            Authorization::Granted
        } else {
            match request_token(bearer, cookie) {
                Some(token) => if token@ == access_token->Some_0@ {
                    Authorization::Granted
                } else {
                    Authorization::Incorrect
                },
                None => Authorization::NotProvided,
            }
        },
{
    if from_localhost {
        return Authorization::Granted;
    }
    let expected = match access_token {
        None => {
            return Authorization::Granted;
        },
        Some(expected) => expected,
    };
    let token = match bearer {
        Some(token) => Some(token),
        None => cookie,
    };
    match token {
        Some(token) => if token == *expected {
            Authorization::Granted
        } else {
            Authorization::Incorrect
        },
        None => Authorization::NotProvided,
    }
}

} // verus!
