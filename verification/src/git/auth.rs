//! Git authentication configuration.
use vstd::prelude::*;

use crate::error::RefactorError;
use crate::pathname::{join_path, path_join};
use crate::text::{copy_str, push_str};

verus! {

/// Authentication method for git remote operations.
#[derive(Debug, Clone)]
pub enum GitAuth {
    /// SSH key authentication.
    SshKey { private_key_path: String, passphrase: Option<String> },
    /// Token-based authentication (for HTTPS).
    Token(String),
    /// Use system credential helper.
    CredentialHelper,
    /// No authentication (public repos only).
    NoAuth,
}

/// The path of a key file in a home directory's `.ssh` directory.
pub open spec fn ssh_key_path_spec(home: Seq<char>, key: Seq<char>) -> Seq<char> {
    path_join(path_join(home, ".ssh"@), key)
}

impl GitAuth {
    /// No authentication.
    pub fn default_auth() -> (r: Self)
        ensures
            r matches GitAuth::NoAuth,
    {
        GitAuth::NoAuth
    }

    /// The path of a key file in a home directory's `.ssh` directory.
    pub fn ssh_key_path(home: &str, key: &str) -> (r: String)
        ensures
            r@ == ssh_key_path_spec(home@, key@),
    {
        let ssh = join_path(home, ".ssh");
        join_path(ssh.as_str(), key)
    }

    /// SSH key auth from the default key of a home directory: `id_ed25519`
    /// when it exists, else `id_rsa` when it exists; an error when there is
    /// no home directory or neither key.
    pub fn ssh_default_from(home: Option<&str>, ed25519_exists: bool, rsa_exists: bool) -> (r: Result<Self, RefactorError>)
        ensures
            match home {
                None => r matches Err(RefactorError::GitAuth { message }) && message@
                    == "Could not determine home directory"@,
                Some(h) => if ed25519_exists {
                    r matches Ok(GitAuth::SshKey { private_key_path, passphrase })
                        && private_key_path@ == ssh_key_path_spec(h@, "id_ed25519"@)
                        && passphrase is None
                } else if rsa_exists {
                    r matches Ok(GitAuth::SshKey { private_key_path, passphrase })
                        && private_key_path@ == ssh_key_path_spec(h@, "id_rsa"@)
                        && passphrase is None
                } else {
                    r matches Err(RefactorError::GitAuth { message }) && message@
                        == "No SSH key found at ~/.ssh/id_ed25519 or ~/.ssh/id_rsa"@
                },
            },
    {
        match home {
            None => Err(
                RefactorError::GitAuth { message: copy_str("Could not determine home directory") },
            ),
            Some(h) => {
                if ed25519_exists {
                    Ok(
                        GitAuth::SshKey {
                            private_key_path: Self::ssh_key_path(h, "id_ed25519"),
                            passphrase: None,
                        },
                    )
                } else if rsa_exists {
                    Ok(
                        GitAuth::SshKey {
                            private_key_path: Self::ssh_key_path(h, "id_rsa"),
                            passphrase: None,
                        },
                    )
                } else {
                    Err(
                        RefactorError::GitAuth {
                            message: copy_str(
                                "No SSH key found at ~/.ssh/id_ed25519 or ~/.ssh/id_rsa",
                            ),
                        },
                    )
                }
            },
        }
    }

    /// Create SSH key auth with a specific key path.
    pub fn ssh_key(path: &str) -> (r: Self)
        ensures
            r matches GitAuth::SshKey { private_key_path, passphrase } && private_key_path@
                == path@ && passphrase is None,
    {
        GitAuth::SshKey { private_key_path: copy_str(path), passphrase: None }
    }

    /// Create SSH key auth with a passphrase.
    pub fn ssh_key_with_passphrase(path: &str, passphrase: &str) -> (r: Self)
        ensures
            r matches GitAuth::SshKey { private_key_path, passphrase: Some(p) }
                && private_key_path@ == path@ && p@ == passphrase@,
    {
        GitAuth::SshKey { private_key_path: copy_str(path), passphrase: Some(copy_str(passphrase)) }
    }

    /// Create token-based auth (typically for GitHub/GitLab HTTPS URLs).
    pub fn token(token: &str) -> (r: Self)
        ensures
            r matches GitAuth::Token(t) && t@ == token@,
    {
        GitAuth::Token(copy_str(token))
    }

    /// Token auth from the value of `GITHUB_TOKEN`, an error naming it when
    /// it is not set.
    pub fn github_token(value: Option<&str>) -> (r: Result<Self, RefactorError>)
        ensures
            match value {
                Some(v) => r matches Ok(GitAuth::Token(t)) && t@ == v@,
                None => r matches Err(RefactorError::GitAuth { message }) && message@
                    == "Environment variable "@ + "GITHUB_TOKEN"@ + " not set"@,
            },
    {
        Self::from_env_value("GITHUB_TOKEN", value)
    }

    /// Token auth from the value of an environment variable, an error naming
    /// the variable when it is not set.
    pub fn from_env_value(var_name: &str, value: Option<&str>) -> (r: Result<Self, RefactorError>)
        ensures
            match value {
                Some(v) => r matches Ok(GitAuth::Token(t)) && t@ == v@,
                None => r matches Err(RefactorError::GitAuth { message }) && message@
                    == "Environment variable "@ + var_name@ + " not set"@,
            },
    {
        match value {
            Some(v) => Ok(GitAuth::Token(copy_str(v))),
            None => {
                let mut message = copy_str("Environment variable ");
                push_str(&mut message, var_name);
                push_str(&mut message, " not set");
                Err(RefactorError::GitAuth { message })
            },
        }
    }

    /// Set the passphrase of SSH key auth; other methods are unchanged.
    pub fn with_passphrase(self, passphrase: &str) -> (r: Self)
        ensures
            match self {
                GitAuth::SshKey { private_key_path, .. } => r matches GitAuth::SshKey {
                    private_key_path: k,
                    passphrase: Some(p),
                } && k == private_key_path && p@ == passphrase@,
                _ => r == self,
            },
    {
        match self {
            GitAuth::SshKey { private_key_path, .. } => GitAuth::SshKey {
                private_key_path,
                passphrase: Some(copy_str(passphrase)),
            },
            other => other,
        }
    }
}

/// The credential offered when a remote asks for one.
#[derive(Debug, Clone, PartialEq, Eq)]
pub enum CredentialChoice {
    /// A key pair read from a private key file.
    SshKey { username: String, private_key_path: String, passphrase: Option<String> },
    /// A user name and password in plain text.
    UserPass { username: String, password: String },
    /// What the system's git credential helper gives.
    CredentialHelper,
    /// A key from the running SSH agent.
    SshAgent { username: String },
    /// The default credential.
    Default,
}

/// The user name a credential goes by: the one in the URL, else `git`.
pub open spec fn user_or_git(username_from_url: Option<Seq<char>>) -> Seq<char> {
    match username_from_url {
        Some(u) => u,
        None => "git"@,
    }
}

/// The credential an authentication method offers: a configured key or
/// token as it is; the credential helper when the remote takes a user name
/// and password, else the SSH agent when it takes a key; with no method,
/// the SSH agent when the remote takes a key; else the default.
pub open spec fn credential_offered(
    auth: GitAuth,
    username_from_url: Option<Seq<char>>,
    allows_user_pass: bool,
    allows_ssh_key: bool,
    c: CredentialChoice,
) -> bool {
    match auth {
        GitAuth::SshKey { private_key_path, passphrase } => c matches CredentialChoice::SshKey {
            username,
            private_key_path: k,
            passphrase: p,
        } && username@ == user_or_git(username_from_url) && k@ == private_key_path@ && p == passphrase,
        GitAuth::Token(token) => c matches CredentialChoice::UserPass { username, password } && username@
            == token@ && password@ == Seq::<char>::empty(),
        GitAuth::CredentialHelper => if allows_user_pass {
            c is CredentialHelper
        } else if allows_ssh_key {
            c matches CredentialChoice::SshAgent { username } && username@ == user_or_git(username_from_url)
        } else {
            c is Default
        },
        GitAuth::NoAuth => if allows_ssh_key {
            c matches CredentialChoice::SshAgent { username } && username@ == user_or_git(username_from_url)
        } else {
            c is Default
        },
    }
}

impl GitAuth {
    /// The credential to offer a remote that asks for one, given the user
    /// name in its URL and the kinds of credential it takes.
    pub fn credential_for(&self, username_from_url: Option<&str>, allows_user_pass: bool, allows_ssh_key: bool) -> (r: CredentialChoice)
        ensures
            credential_offered(
                *self,
                match username_from_url {
                    Some(u) => Some(u@),
                    None => None,
                },
                allows_user_pass,
                allows_ssh_key,
                r,
            ),
    {
        let username = match username_from_url {
            Some(u) => copy_str(u),
            None => copy_str("git"),
        };
        match self {
            GitAuth::SshKey { private_key_path, passphrase } => CredentialChoice::SshKey {
                username,
                private_key_path: private_key_path.clone(),
                passphrase: passphrase.clone(),
            },
            GitAuth::Token(token) => CredentialChoice::UserPass { username: token.clone(), password: String::new() },
            GitAuth::CredentialHelper => if allows_user_pass {
                CredentialChoice::CredentialHelper
            } else if allows_ssh_key {
                CredentialChoice::SshAgent { username }
            } else {
                CredentialChoice::Default
            },
            GitAuth::NoAuth => if allows_ssh_key {
                CredentialChoice::SshAgent { username }
            } else {
                CredentialChoice::Default
            },
        }
    }
}

} // verus!
