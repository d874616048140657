use vstd::prelude::*;
use vstd::string::*;

use crate::auth::Authorization;

verus! {

/// The root under which every endpoint of the production API lies.
pub const DEFAULT_BASE_PATH: &'static str = "https://q.trap.jp/api/v3";

pub open spec fn default_base_path() -> Seq<char> {
    DEFAULT_BASE_PATH@
}

/// Where requests go and which credentials they carry. The connection pool
/// that carries them is kept beside it by the caller that performs I/O.
#[derive(Debug, Clone)]
pub struct Client {
    pub base_path: String,
    pub authorization: Authorization,
}

impl Default for Client {
    /// The production API root, without credentials.
    fn default() -> (r: Self)
        ensures
            r.base_path@ == default_base_path(),
            r.authorization is Anonymous,
    {
        Client { base_path: String::from_str(DEFAULT_BASE_PATH), authorization: Authorization::Anonymous }
    }
}

impl Client {
    /// A builder with no base path and no credentials set.
    pub fn builder() -> (r: Builder)
        ensures
            r.base_path is None,
            r.authorization is Anonymous,
    {
        Builder::new()
    }
}

/// Options for a client: each one left unset takes its default.
#[derive(Debug, Clone)]
pub struct Builder {
    pub base_path: Option<String>,
    pub authorization: Authorization,
}

impl Default for Builder {
    fn default() -> (r: Self)
        ensures
            r.base_path is None,
            r.authorization is Anonymous,
    {
        Builder { base_path: None, authorization: Authorization::Anonymous }
    }
}

impl Builder {
    /// A builder with no base path and no credentials set.
    pub fn new() -> (r: Self)
        ensures
            r.base_path is None,
            r.authorization is Anonymous,
    {
        Builder::default()
    }

    /// Sets the root that endpoint paths are appended to.
    pub fn base_path(self, base_path: &str) -> (r: Self)
        ensures
            r.base_path.deep_view() == Some(base_path@),
            r.authorization == self.authorization,
    {
        Builder { base_path: Some(String::from_str(base_path)), ..self }
    }

    /// Authenticates every request with the bearer token.
    pub fn authorization_bearer(self, bearer: &str) -> (r: Self)
        ensures
            r.authorization matches Authorization::Bearer(token) && token@ == bearer@,
            r.base_path == self.base_path,
    {
        let authorization = Authorization::Bearer(String::from_str(bearer));
        Builder { authorization, ..self }
    }

    /// Sets the credentials of every request.
    pub fn authorization(self, authorization: Authorization) -> (r: Self)
        ensures
            r.authorization == authorization,
            r.base_path == self.base_path,
    {
        Builder { authorization, ..self }
    }

    /// The client: the base path given, else the production root; the
    /// credentials given, else none.
    pub fn build(self) -> (r: Client)
        ensures
            r.base_path@ == match self.base_path {
                Some(p) => p@,
                None => default_base_path(),
            },
            r.authorization == self.authorization,
    {
        let Builder { base_path, authorization } = self;
        let client = Client::default();
        let client = match base_path {
            Some(base_path) => Client { base_path, ..client },
            None => client,
        };
        Client { authorization, ..client }
    }
}

} // verus!
