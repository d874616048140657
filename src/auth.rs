use vstd::prelude::*;
use vstd::string::*;

verus! {

/// Credentials attached to every request sent by a client.
#[derive(Debug, Clone)]
pub enum Authorization {
    /// An opaque bearer token, sent as `Authorization: Bearer <token>`.
    Bearer(String),
    /// No credentials: requests carry no `Authorization` header.
    Anonymous,
}

/// The `Authorization` header value for a bearer token.
pub open spec fn bearer_header(token: Seq<char>) -> Seq<char> {
    "Bearer "@ + token
}

impl Authorization {
    /// The header value that this authorization attaches, if any.
    pub open spec fn spec_header(&self) -> Option<Seq<char>> {
        match self {
            Authorization::Bearer(token) => Some(bearer_header(token@)),
            Authorization::Anonymous => Option::None,
        }
    }

    /// The value of the `Authorization` header: `Bearer <token>` for a bearer
    /// token, nothing otherwise.
    pub fn header(&self) -> (r: Option<String>)
        ensures
            r.deep_view() == self.spec_header(),
    {
        match self {
            Authorization::Bearer(token) => {
                let prefix = String::from_str("Bearer ");
                let value = prefix.concat(token.as_str());
                Some(value)
            },
            Authorization::Anonymous => Option::None,
        }
    }
}

impl Default for Authorization {
    fn default() -> (r: Self)
        ensures
            r is Anonymous,
    {
        Authorization::Anonymous
    }
}

} // verus!
