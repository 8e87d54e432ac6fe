//! What a run is told before it starts: the repository, and where the
//! registry credential comes from.
use vstd::prelude::*;
use crate::remote::{parse_github_remote, parse_remote, trim, trimmed};
use crate::text::{chars_of, string_of};

verus! {

/// Why a run cannot start. Each of these ends the run before anything is
/// sent to the registry.
#[derive(Clone, Debug, PartialEq, Eq)]
pub enum ConfigurationError {
    /// An owner was named, and no repository.
    OwnerWithoutRepo,
    /// A repository was named, and no owner.
    RepoWithoutOwner,
    /// The address of the remote has none of the known forms.
    UnknownRemote { url: String },
    /// The repository has no workflow file, and none was named.
    NoWorkflow,
    /// The credentials hold no token for the registry.
    NoToken,
}

/// Where the owner and the repository of a run come from.
#[derive(Clone, Debug, PartialEq, Eq)]
pub enum RepoChoice {
    /// Both were named.
    Named { owner: String, repo: String },
    /// Neither was named: they are read from the git remote.
    Detect,
}

/// Settles where the owner and the repository come from. Naming one
/// without the other is an error.
pub fn repo_choice(owner: Option<String>, repo: Option<String>) -> (choice: Result<
    RepoChoice,
    ConfigurationError,
>)
    ensures
        choice == match (owner, repo) {
            (Some(o), Some(r)) => Ok::<RepoChoice, ConfigurationError>(
                RepoChoice::Named { owner: o, repo: r },
            ),
            (None, None) => Ok(RepoChoice::Detect),
            (Some(_), None) => Err(ConfigurationError::OwnerWithoutRepo),
            (None, Some(_)) => Err(ConfigurationError::RepoWithoutOwner),
        },
{
    match (owner, repo) {
        (Some(o), Some(r)) => Ok(RepoChoice::Named { owner: o, repo: r }),
        (None, None) => Ok(RepoChoice::Detect),
        (Some(_), None) => Err(ConfigurationError::OwnerWithoutRepo),
        (None, Some(_)) => Err(ConfigurationError::RepoWithoutOwner),
    }
}

/// The owner and the repository that the address of the git remote names,
/// or the error that carries the trimmed address.
pub fn repo_from_remote(url: &str) -> (found: Result<(String, String), ConfigurationError>)
    ensures
        match found {
            Ok((owner, repo)) => parse_remote(url@) == Some((owner@, repo@)),
            Err(ConfigurationError::UnknownRemote { url: address }) => parse_remote(url@) is None
                && address@ == trimmed(url@),
            Err(_) => false,
        },
{
    match parse_github_remote(url) {
        Some((owner, repo)) => Ok((owner, repo)),
        None => Err(
            ConfigurationError::UnknownRemote { url: string_of(&trim(&chars_of(url))) },
        ),
    }
}

/// Where the registry credential comes from.
#[derive(Clone, Debug, PartialEq, Eq)]
pub enum TokenSource {
    /// The environment variable of this name.
    Variable { name: String },
    /// The credentials file of the build tool.
    CredentialsFile,
}

/// Settles where the credential comes from: a variable that was named wins
/// over the credentials file.
pub fn token_source(token_env: Option<String>) -> (source: TokenSource)
    ensures
        source == match token_env {
            Some(name) => TokenSource::Variable { name },
            None => TokenSource::CredentialsFile,
        },
{
    match token_env {
        Some(name) => TokenSource::Variable { name },
        None => TokenSource::CredentialsFile,
    }
}

/// The credentials file of the build tool, as far as a run reads it.
#[derive(Clone, Debug, PartialEq, Eq)]
pub struct CargoCredentials {
    pub registry: Option<RegistryCredentials>,
}

/// The credentials of the registry.
#[derive(Clone, Debug, PartialEq, Eq)]
pub struct RegistryCredentials {
    pub token: Option<String>,
}

/// The token that the credentials hold for the registry, if they hold one.
pub fn read_token_from_credentials(credentials: CargoCredentials) -> (token: Result<
    String,
    ConfigurationError,
>)
    ensures
        token == match credentials.registry {
            Some(RegistryCredentials { token: Some(t) }) => Ok::<String, ConfigurationError>(t),
            _ => Err(ConfigurationError::NoToken),
        },
{
    match credentials.registry {
        Some(RegistryCredentials { token: Some(t) }) => Ok(t),
        _ => Err(ConfigurationError::NoToken),
    }
}

} // verus!
