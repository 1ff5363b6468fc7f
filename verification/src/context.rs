//! The authentication policy shared by every connection.

use vstd::prelude::*;

use crate::messages::AuthenticationMethod;

verus! {

/// A username/password pair, held as the exact bytes that must appear in the
/// client's authentication request.
pub struct Credentials {
    username: Vec<u8>,
    password: Vec<u8>,
}

/// The mathematical content of a `Credentials` value.
pub ghost struct CredentialsV {
    pub username: Seq<u8>,
    pub password: Seq<u8>,
}

impl View for Credentials {
    type V = CredentialsV;

    closed spec fn view(&self) -> CredentialsV {
        CredentialsV { username: self.username@, password: self.password@ }
    }
}

impl Credentials {
    /// Remembers the configured username and password bytes.
    pub fn new(username: Vec<u8>, password: Vec<u8>) -> (r: Self)
        ensures
            r@ == (CredentialsV { username: username@, password: password@ }),
    {
        Credentials { username, password }
    }
}

/// The auth policy object: holds the optionally configured credential and
/// decides, for each connection, which authentication method to use and
/// whether a submitted username/password is correct.
pub struct Context {
    credentials: Option<Credentials>,
}

impl View for Context {
    type V = Option<CredentialsV>;

    closed spec fn view(&self) -> Option<CredentialsV> {
        match self.credentials {
            Some(c) => Some(c@),
            None => None,
        }
    }
}

/// The method the server expects: username/password when a credential is
/// configured, no authentication otherwise.
pub open spec fn expected_method(ctx: Option<CredentialsV>) -> AuthenticationMethod {
    match ctx {
        Some(_) => AuthenticationMethod::UsernamePassword,
        None => AuthenticationMethod::NoAuthentication,
    }
}

/// The method `select_authentication` picks: the expected one, provided the
/// client offered it.
pub open spec fn selected_method(
    ctx: Option<CredentialsV>,
    offered: Seq<AuthenticationMethod>,
) -> Option<AuthenticationMethod> {
    if offered.contains(expected_method(ctx)) {
        Some(expected_method(ctx))
    } else {
        None
    }
}

/// Whether `authenticate` accepts the submitted pair: byte-wise equality with
/// the configured credential, or unconditional acceptance when none is
/// configured (a state the policy never steers a client into, since it only
/// selects username/password authentication when a credential exists).
pub open spec fn credentials_accepted(
    ctx: Option<CredentialsV>,
    username: Seq<u8>,
    password: Seq<u8>,
) -> bool {
    match ctx {
        Some(c) => c.username == username && c.password == password,
        None => true,
    }
}

/// Byte-wise equality of two slices.
fn bytes_eq(a: &[u8], b: &[u8]) -> (r: bool)
    ensures
        r == (a@ == b@),
{
    if a.len() != b.len() {
        return false;
    }
    let mut i: usize = 0;
    while i < a.len()
        invariant
            i <= a.len(),
            a.len() == b.len(),
            forall|j: int| 0 <= j < i ==> a@[j] == b@[j],
        decreases a.len() - i,
    {
        if a[i] != b[i] {
            return false;
        }
        i = i + 1;
    }
    proof {
        assert(a@ =~= b@);
    }
    true
}

impl Context {
    /// A policy with no credential configured: connections use no
    /// authentication.
    pub fn new() -> (r: Self)
        ensures
            r@ is None,
    {
        Context { credentials: None }
    }

    /// A policy that demands username/password authentication against the
    /// given credential.
    pub fn with_credentials(credentials: Credentials) -> (r: Self)
        ensures
            r@ == Some(credentials@),
    {
        Context { credentials: Some(credentials) }
    }

    /// Picks the authentication method for a connection: the expected method
    /// (username/password iff a credential is configured) when the client
    /// offered it, and nothing otherwise. Order and duplicates among the
    /// offered methods are irrelevant.
    pub fn select_authentication(
        &self,
        methods: Vec<AuthenticationMethod>,
    ) -> (r: Option<AuthenticationMethod>)
        ensures
            r == selected_method(self@, methods@),
    {
        let expected = match &self.credentials {
            Some(_) => AuthenticationMethod::UsernamePassword,
            None => AuthenticationMethod::NoAuthentication,
        };
        let mut i: usize = 0;
        while i < methods.len()
            invariant
                i <= methods.len(),
                expected == expected_method(self@),
                forall|j: int| 0 <= j < i ==> methods@[j] != expected,
            decreases methods.len() - i,
        {
            if methods[i] == expected {
                assert(methods@.contains(expected_method(self@)));
                return Some(expected);
            }
            i = i + 1;
        }
        assert(!methods@.contains(expected_method(self@)));
        None
    }

    /// Checks a submitted username/password: exact byte-wise equality with
    /// the configured credential; with no credential configured every pair is
    /// accepted (the policy never selects username/password in that case).
    pub fn authenticate(&self, username: &[u8], password: &[u8]) -> (r: bool)
        ensures
            r == credentials_accepted(self@, username@, password@),
    {
        match &self.credentials {
            Some(c) => bytes_eq(c.username.as_slice(), username) && bytes_eq(
                c.password.as_slice(),
                password,
            ),
            None => true,
        }
    }
}

impl Default for Context {
    /// The same policy as `Context::new`: no credential configured.
    fn default() -> (r: Self)
        ensures
            r@ is None,
    {
        Context { credentials: None }
    }
}

} // verus!
