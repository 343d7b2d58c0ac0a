use vstd::prelude::*;

verus! {

/// What the credential store answered for one registry.
pub enum CredentialLookup {
    UsernamePassword(String, String),
    IdentityToken(String),
    /// No credential configuration file exists.
    ConfigNotFound,
    /// The configuration names no credential for the registry.
    NoCredentialConfigured,
    /// The configuration file could not be read.
    ConfigReadError,
    /// A credential helper process failed, with its output.
    HelperFailure { stdout: String, stderr: String },
    /// Any other failure of the credential system, with its description.
    Unrecognized(String),
}

/// Authentication material for a pull request; unused fields are empty.
pub struct AuthRecord {
    pub username: String,
    pub password: String,
    pub auth: String,
    pub server_address: String,
    pub identity_token: String,
    pub registry_token: String,
}

/// A credential failure that must stop the process.
pub enum CredentialError {
    Unrecoverable(String),
}

/// How loudly an anonymous fallback is reported.
#[derive(PartialEq, Eq, Structural, Debug, Clone, Copy)]
pub enum Notice {
    Quiet,
    Warning,
}

/// The outcome of credential resolution: the auth to send, if any, and how to
/// report the fallback to anonymous access.
pub struct Resolution {
    pub auth: Option<AuthRecord>,
    pub notice: Notice,
}

/// The helper output that means the keychain simply holds no credential.
pub const KEYCHAIN_NOT_FOUND: &'static str = "credentials not found in native keychain\n";

/// The registry host with one trailing '/' removed.
pub open spec fn server_name(registry: Seq<char>) -> Seq<char> {
    if registry.len() > 0 && registry.last() == '/' {
        registry.drop_last()
    } else {
        registry
    }
}

pub open spec fn empty_auth(a: AuthRecord) -> bool {
    a.auth@.len() == 0 && a.server_address@.len() == 0 && a.registry_token@.len() == 0
}

/// Removes one trailing '/' from a registry host name.
pub fn registry_server(registry: &String) -> (r: String)
    ensures
        r@ == server_name(registry@),
{
    let s = registry.as_str();
    let n = s.unicode_len();
    if n > 0 && s.get_char(n - 1) == '/' {
        s.substring_char(0, n - 1).to_owned()
    } else {
        registry.clone()
    }
}

/// Whether a helper's standard output says that no credential is stored.
pub fn helper_reports_not_found(stdout: &String) -> (r: bool)
    ensures
        r == (stdout@ == KEYCHAIN_NOT_FOUND@),
{
    let expected: String = KEYCHAIN_NOT_FOUND.to_owned();
    *stdout == expected
}

/// Turns the credential store's answer into the auth of a pull request.
/// Missing or unreadable credentials give anonymous access; only an
/// unrecognized failure is an error.
pub fn build_auth(lookup: CredentialLookup) -> (r: Result<Resolution, CredentialError>)
    ensures
        match lookup {
            CredentialLookup::UsernamePassword(u, p) => r is Ok && r->Ok_0.notice == Notice::Quiet
                && r->Ok_0.auth is Some && r->Ok_0.auth->Some_0.username == u
                && r->Ok_0.auth->Some_0.password == p
                && r->Ok_0.auth->Some_0.identity_token@.len() == 0
                && empty_auth(r->Ok_0.auth->Some_0),
            CredentialLookup::IdentityToken(t) => r is Ok && r->Ok_0.notice == Notice::Quiet
                && r->Ok_0.auth is Some && r->Ok_0.auth->Some_0.identity_token == t
                && r->Ok_0.auth->Some_0.username@.len() == 0
                && r->Ok_0.auth->Some_0.password@.len() == 0
                && empty_auth(r->Ok_0.auth->Some_0),
            CredentialLookup::ConfigNotFound | CredentialLookup::NoCredentialConfigured
            | CredentialLookup::ConfigReadError => r is Ok && r->Ok_0.auth is None
                && r->Ok_0.notice == Notice::Quiet,
            CredentialLookup::HelperFailure { stdout, stderr } => r is Ok && r->Ok_0.auth is None
                && (r->Ok_0.notice == Notice::Quiet <==> stdout@ == KEYCHAIN_NOT_FOUND@),
            CredentialLookup::Unrecognized(msg) => r is Err && r->Err_0 == CredentialError::Unrecoverable(msg),
        },
{
    match lookup {
        CredentialLookup::UsernamePassword(username, password) => Ok(Resolution {
            auth: Some(AuthRecord {
                username,
                password,
                auth: String::new(),
                server_address: String::new(),
                identity_token: String::new(),
                registry_token: String::new(),
            }),
            notice: Notice::Quiet,
        }),
        CredentialLookup::IdentityToken(identity_token) => Ok(Resolution {
            auth: Some(AuthRecord {
                username: String::new(),
                password: String::new(),
                auth: String::new(),
                server_address: String::new(),
                identity_token,
                registry_token: String::new(),
            }),
            notice: Notice::Quiet,
        }),
        CredentialLookup::ConfigNotFound | CredentialLookup::NoCredentialConfigured
        | CredentialLookup::ConfigReadError => Ok(Resolution { auth: None, notice: Notice::Quiet }),
        CredentialLookup::HelperFailure { stdout, stderr } => {
            let notice = if helper_reports_not_found(&stdout) {
                Notice::Quiet
            } else {
                Notice::Warning
            };
            Ok(Resolution { auth: None, notice })
        },
        CredentialLookup::Unrecognized(msg) => Err(CredentialError::Unrecoverable(msg)),
    }
}

} // verus!
