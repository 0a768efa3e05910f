use vstd::prelude::*;

use crate::error::Error;
use crate::text::{lemma_split_unique, split_once_char, splits_at_first};

verus! {

/// How a request authenticates itself.
#[derive(Debug, Clone, PartialEq, Eq)]
pub enum AuthType {
    /// An `Authorization: Bearer <token>` header.
    Bearer(String),
    /// HTTP basic credentials.
    Basic { username: String, password: String },
    Anonymous,
}

/// A basic-auth value is accepted when it holds a `:`, and both the user name before the first
/// `:` and the password after it are non-empty.
pub open spec fn basic_accepted(s: Seq<char>) -> bool {
    exists|user: Seq<char>, password: Seq<char>|
        #[trigger] splits_at_first(s, ':', user, password) && user.len() > 0 && password.len() > 0
}

impl AuthType {
    /// A bearer token, taken verbatim.
    pub fn bearer_from_string(token: String) -> (r: AuthType)
        ensures
            r == AuthType::Bearer(token),
    {
        AuthType::Bearer(token)
    }

    /// Basic credentials from `user:password`, split at the first `:`; a missing user name or
    /// password is refused with a message naming the missing half.
    pub fn basic_from_string(token: &str) -> (r: Result<AuthType, Error>)
        ensures
            r is Ok <==> basic_accepted(token@),
            r matches Ok(a) ==> (a matches AuthType::Basic { username, password }
                && splits_at_first(token@, ':', username@, password@)),
            r matches Err(e) ==> e is InvalidArguments,
    {
        match split_once_char(token, ':') {
            None => {
                proof {
                    assert forall|u: Seq<char>, p: Seq<char>| !#[trigger] splits_at_first(token@, ':', u, p) by {
                        if splits_at_first(token@, ':', u, p) {
                            assert(token@[u.len() as int] == ':');
                        }
                    }
                }
                Err(Error::InvalidArguments(
                    String::from_str("Invalid basic authentication, no password was provided"),
                ))
            },
            Some((username, password)) => {
                proof {
                    assert forall|u: Seq<char>, p: Seq<char>| #[trigger] splits_at_first(token@, ':', u, p)
                        implies u == username@ && p == password@ by {
                        lemma_split_unique(token@, ':', u, p, username@, password@);
                    }
                }
                if username.unicode_len() == 0 {
                    Err(Error::InvalidArguments(
                        String::from_str("Invalid basic authentication, no username was provided"),
                    ))
                } else if password.unicode_len() == 0 {
                    Err(Error::InvalidArguments(
                        String::from_str("Invalid basic authentication, no password was provided"),
                    ))
                } else {
                    Ok(AuthType::Basic { username, password })
                }
            },
        }
    }
}

} // verus!
