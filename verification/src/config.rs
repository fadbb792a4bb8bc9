//! The configuration value, its error, and how one is built from inputs
//! that the caller hands over directly.

use vstd::prelude::*;

verus! {

/// Possible configuration errors.
#[derive(Clone, Copy, Debug, PartialEq, Eq, Structural)]
pub enum ConfigError {
    /// No username was found.
    MissingUsername,
    /// No URL was found.
    MissingURL,
    /// Neither a token nor a password was found.
    MissingAuth,
}

/// The `Config` for a connection to Zendesk's API.
#[derive(Debug)]
pub struct Config {
    /// The Zendesk URL to connect to.
    pub url: String,
    /// The username for the given Zendesk URL.
    pub username: String,
    /// The API token for the given Zendesk username.
    pub token: Option<String>,
    /// The password for the given Zendesk username.
    pub password: Option<String>,
}

/// What a `Config` says, as text. Contracts speak of this model, so that
/// two configurations holding the same characters count as the same.
pub struct ConfigView {
    /// The text of the URL.
    pub url: Seq<char>,
    /// The text of the username.
    pub username: Seq<char>,
    /// The text of the token, if there is one.
    pub token: Option<Seq<char>>,
    /// The text of the password, if there is one.
    pub password: Option<Seq<char>>,
}

impl ConfigView {
    /// At least one credential is there.
    pub open spec fn has_auth(self) -> bool {
        self.token is Some || self.password is Some
    }
}

/// The text of a string that may be missing.
pub open spec fn text_of(s: Option<String>) -> Option<Seq<char>> {
    match s {
        Some(s) => Some(s@),
        None => None,
    }
}

/// The model of a finished construction: the text of the configuration, or
/// the error as it is.
pub open spec fn outcome(res: Result<Config, ConfigError>) -> Result<ConfigView, ConfigError> {
    match res {
        Ok(config) => Ok(config@),
        Err(e) => Err(e),
    }
}

/// What construction from explicit inputs yields: `MissingAuth` when there
/// is neither a token nor a password, and otherwise a configuration made of
/// the four inputs, untouched. The URL and the username are taken as they
/// come; an empty one is not rejected.
pub open spec fn build(
    url: Seq<char>,
    username: Seq<char>,
    password: Option<Seq<char>>,
    token: Option<Seq<char>>,
) -> Result<ConfigView, ConfigError> {
    if token is None && password is None {
        Err(ConfigError::MissingAuth)
    } else {
        Ok(ConfigView { url, username, token, password })
    }
}

impl View for Config {
    type V = ConfigView;

    open spec fn view(&self) -> ConfigView {
        ConfigView {
            url: self.url@,
            username: self.username@,
            token: text_of(self.token),
            password: text_of(self.password),
        }
    }
}

/// Tells whether two optional strings are both missing, or both there with
/// the same text.
fn same_text(a: &Option<String>, b: &Option<String>) -> (r: bool)
    ensures
        r == (text_of(*a) == text_of(*b)),
{
    match (a, b) {
        (None, None) => true,
        (Some(x), Some(y)) => *x == *y,
        _ => false,
    }
}

impl PartialEq for Config {
    /// Two configurations are equal when all four fields hold the same text.
    fn eq(&self, other: &Config) -> (r: bool) {
        self.url == other.url && self.username == other.username && same_text(
            &self.token,
            &other.token,
        ) && same_text(&self.password, &other.password)
    }
}

impl vstd::std_specs::cmp::PartialEqSpecImpl for Config {
    open spec fn obeys_eq_spec() -> bool {
        true
    }

    open spec fn eq_spec(&self, other: &Config) -> bool {
        self@ == other@
    }
}

impl Config {
    /// Constructs a new `Config`.
    ///
    /// Fails with `MissingAuth` when both `token` and `password` are `None`,
    /// and on no other input. Otherwise the four inputs become the four
    /// fields, as they are: neither `url` nor `username` is looked into.
    pub fn new(
        url: String,
        username: String,
        password: Option<String>,
        token: Option<String>,
    ) -> (res: Result<Config, ConfigError>)
        ensures
            token is None && password is None ==> res matches Err(ConfigError::MissingAuth),
            token is Some || password is Some ==> (res matches Ok(config) && config == (Config {
                url,
                username,
                token,
                password,
            })),
            outcome(res) == build(url@, username@, text_of(password), text_of(token)),
            res matches Ok(config) ==> config@.has_auth(),
    {
        match &token {
            Some(_) => {},
            None => {
                match &password {
                    Some(_) => {},
                    None => return Err(ConfigError::MissingAuth),
                }
            },
        }
        Ok(Config { url, username, token, password })
    }
}

/// Building twice from inputs that hold the same text gives the same
/// outcome: the same error both times, or two configurations that compare
/// equal.
pub proof fn lemma_new_is_repeatable(
    url: String,
    username: String,
    password: Option<String>,
    token: Option<String>,
    res: Result<Config, ConfigError>,
    url_again: String,
    username_again: String,
    password_again: Option<String>,
    token_again: Option<String>,
    res_again: Result<Config, ConfigError>,
)
    requires
        url@ == url_again@,
        username@ == username_again@,
        text_of(password) == text_of(password_again),
        text_of(token) == text_of(token_again),
        call_ensures(Config::new, (url, username, password, token), res),
        call_ensures(
            Config::new,
            (url_again, username_again, password_again, token_again),
            res_again,
        ),
    ensures
        outcome(res) == outcome(res_again),
        res matches Ok(a) ==> res_again matches Ok(b) && a@ == b@,
        res matches Err(e) ==> res_again matches Err(e_again) && e == e_again,
{
}

} // verus!
