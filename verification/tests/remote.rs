use tp::config::{
    read_token_from_credentials, repo_choice, repo_from_remote, token_source, CargoCredentials,
    ConfigurationError, RegistryCredentials, RepoChoice, TokenSource,
};
use tp::remote::{is_whitespace, parse_github_remote};

fn pair(owner: &str, repo: &str) -> Option<(String, String)> {
    Some((owner.to_string(), repo.to_string()))
}

#[test]
fn the_ssh_form_is_read() {
    assert_eq!(parse_github_remote("git@github.com:facet-rs/facet.git"), pair("facet-rs", "facet"));
    assert_eq!(parse_github_remote("git@github.com:facet-rs/facet"), pair("facet-rs", "facet"));
}

#[test]
fn the_https_and_http_forms_are_read() {
    assert_eq!(
        parse_github_remote("https://github.com/facet-rs/facet.git"),
        pair("facet-rs", "facet")
    );
    assert_eq!(parse_github_remote("https://github.com/facet-rs/facet"), pair("facet-rs", "facet"));
    assert_eq!(parse_github_remote("http://github.com/o/r.git"), pair("o", "r"));
}

#[test]
fn white_space_around_the_address_is_dropped() {
    assert_eq!(parse_github_remote("  git@github.com:o/r.git\n"), pair("o", "r"));
    assert_eq!(parse_github_remote("\thttps://github.com/o/r\r\n"), pair("o", "r"));
    assert_eq!(parse_github_remote("\u{a0}https://github.com/o/r\u{3000}"), pair("o", "r"));
}

#[test]
fn the_first_slash_parts_owner_and_repository() {
    assert_eq!(parse_github_remote("https://github.com/o/r/tree/main"), pair("o", "r/tree/main"));
    assert_eq!(parse_github_remote("https://github.com//r"), pair("", "r"));
    assert_eq!(parse_github_remote("https://github.com/o/"), pair("o", ""));
    assert_eq!(parse_github_remote("git@github.com:o/.git"), pair("o", ""));
}

#[test]
fn only_a_closing_git_suffix_is_dropped() {
    assert_eq!(parse_github_remote("https://github.com/o/r.git.git"), pair("o", "r.git"));
    assert_eq!(parse_github_remote("https://github.com/o/r.github"), pair("o", "r.github"));
}

#[test]
fn other_addresses_are_not_read() {
    assert_eq!(parse_github_remote(""), None);
    assert_eq!(parse_github_remote("git@gitlab.com:o/r.git"), None);
    assert_eq!(parse_github_remote("https://github.com/only-owner"), None);
    assert_eq!(parse_github_remote("git@github.com:only-owner.git"), None);
    assert_eq!(parse_github_remote("ssh://git@github.com/o/r.git"), None);
    assert_eq!(parse_github_remote("HTTPS://github.com/o/r"), None);
}

#[test]
fn white_space_is_what_unicode_says() {
    for c in [' ', '\t', '\n', '\u{b}', '\u{c}', '\r', '\u{85}', '\u{a0}', '\u{1680}', '\u{2000}', '\u{200a}', '\u{2028}', '\u{2029}', '\u{202f}', '\u{205f}', '\u{3000}'] {
        assert!(is_whitespace(c));
        assert!(c.is_whitespace());
    }
    for c in ['a', '0', '\u{8}', '\u{e}', '\u{200b}', '\u{feff}', '_'] {
        assert!(!is_whitespace(c));
        assert!(!c.is_whitespace());
    }
}

#[test]
fn an_unknown_remote_is_an_error_with_the_trimmed_address() {
    assert_eq!(repo_from_remote("git@github.com:o/r.git\n"), Ok(("o".to_string(), "r".to_string())));
    assert_eq!(
        repo_from_remote(" https://example.com/o/r \n"),
        Err(ConfigurationError::UnknownRemote { url: "https://example.com/o/r".to_string() })
    );
}

#[test]
fn owner_and_repository_are_named_together_or_not_at_all() {
    assert_eq!(
        repo_choice(Some("o".to_string()), Some("r".to_string())),
        Ok(RepoChoice::Named { owner: "o".to_string(), repo: "r".to_string() })
    );
    assert_eq!(repo_choice(None, None), Ok(RepoChoice::Detect));
    assert_eq!(repo_choice(Some("o".to_string()), None), Err(ConfigurationError::OwnerWithoutRepo));
    assert_eq!(repo_choice(None, Some("r".to_string())), Err(ConfigurationError::RepoWithoutOwner));
}

#[test]
fn a_named_variable_wins_over_the_credentials_file() {
    assert_eq!(
        token_source(Some("MY_TOKEN".to_string())),
        TokenSource::Variable { name: "MY_TOKEN".to_string() }
    );
    assert_eq!(token_source(None), TokenSource::CredentialsFile);
}

#[test]
fn the_token_is_read_from_the_credentials() {
    let with = CargoCredentials {
        registry: Some(RegistryCredentials { token: Some("SECRET".to_string()) }),
    };
    assert_eq!(read_token_from_credentials(with), Ok("SECRET".to_string()));
    let without = CargoCredentials { registry: Some(RegistryCredentials { token: None }) };
    assert_eq!(read_token_from_credentials(without), Err(ConfigurationError::NoToken));
    let none = CargoCredentials { registry: None };
    assert_eq!(read_token_from_credentials(none), Err(ConfigurationError::NoToken));
}
