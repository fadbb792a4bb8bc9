//! Configuration from named lookups.
//!
//! Each of the four inputs is read under a fixed name from an
//! [`Environment`]: a set of named values that the caller fills, from the
//! process environment or by hand. A name that is not there and a name whose
//! value is not text count alike: the input is missing.

use crate::config::{build, outcome, text_of, Config, ConfigError, ConfigView};
use vstd::prelude::*;

verus! {

/// The name under which the URL is looked up.
pub const URL_KEY: &'static str = "ZENDESK_API_URL";

/// The name under which the username is looked up.
pub const USERNAME_KEY: &'static str = "ZENDESK_API_USERNAME";

/// The name under which the token is looked up.
pub const TOKEN_KEY: &'static str = "ZENDESK_API_TOKEN";

/// The name under which the password is looked up.
pub const PASSWORD_KEY: &'static str = "ZENDESK_API_PASSWORD";

/// The four names are pairwise different, so no lookup reads the value of
/// another field.
pub proof fn lemma_keys_are_distinct()
    ensures
        URL_KEY@ != USERNAME_KEY@,
        URL_KEY@ != TOKEN_KEY@,
        URL_KEY@ != PASSWORD_KEY@,
        USERNAME_KEY@ != TOKEN_KEY@,
        USERNAME_KEY@ != PASSWORD_KEY@,
        TOKEN_KEY@ != PASSWORD_KEY@,
{
    reveal_strlit("ZENDESK_API_URL");
    reveal_strlit("ZENDESK_API_USERNAME");
    reveal_strlit("ZENDESK_API_TOKEN");
    reveal_strlit("ZENDESK_API_PASSWORD");
    // Three lengths tell all pairs apart but one: the names of the username
    // and of the password are equally long, and differ after the prefix.
    assert(URL_KEY@.len() == 15);
    assert(TOKEN_KEY@.len() == 17);
    assert(USERNAME_KEY@.len() == 20);
    assert(PASSWORD_KEY@.len() == 20);
    assert(USERNAME_KEY@[12] != PASSWORD_KEY@[12]);
}

/// What reading one name gave.
#[derive(Debug)]
pub enum Lookup {
    /// The name holds this text.
    Found(String),
    /// The name is not there.
    Missing,
    /// The name is there, but what it holds is not text.
    Unreadable,
}

impl Lookup {
    /// The text that was found, if any. Both ways of failing give `None`.
    pub open spec fn text(self) -> Option<Seq<char>> {
        match self {
            Lookup::Found(s) => Some(s@),
            Lookup::Missing => None,
            Lookup::Unreadable => None,
        }
    }

    /// Hands over the string that was found, and folds the two ways of
    /// failing into `None`: why a value is missing is dropped here.
    pub fn value(self) -> (res: Option<String>)
        ensures
            match self {
                Lookup::Found(s) => res == Some(s),
                Lookup::Missing => res is None,
                Lookup::Unreadable => res is None,
            },
            text_of(res) == self.text(),
    {
        match self {
            Lookup::Found(s) => Some(s),
            Lookup::Missing => None,
            Lookup::Unreadable => None,
        }
    }
}

impl PartialEq for Lookup {
    /// Two lookups are equal when both found the same text, or both failed
    /// in the same way.
    fn eq(&self, other: &Lookup) -> (r: bool) {
        match (self, other) {
            (Lookup::Found(a), Lookup::Found(b)) => *a == *b,
            (Lookup::Missing, Lookup::Missing) => true,
            (Lookup::Unreadable, Lookup::Unreadable) => true,
            _ => false,
        }
    }
}

impl vstd::std_specs::cmp::PartialEqSpecImpl for Lookup {
    open spec fn obeys_eq_spec() -> bool {
        true
    }

    open spec fn eq_spec(&self, other: &Lookup) -> bool {
        match (*self, *other) {
            (Lookup::Found(a), Lookup::Found(b)) => a@ == b@,
            (Lookup::Missing, Lookup::Missing) => true,
            (Lookup::Unreadable, Lookup::Unreadable) => true,
            _ => false,
        }
    }
}

/// One named value: the name, and its text where it is readable.
type Entry = (String, Option<String>);

/// What a list of entries binds each name to. A later entry shadows an
/// earlier one of the same name.
spec fn bindings(entries: Seq<Entry>) -> Map<Seq<char>, Option<Seq<char>>>
    decreases entries.len(),
{
    if entries.len() == 0 {
        Map::empty()
    } else {
        bindings(entries.drop_last()).insert(entries.last().0@, text_of(entries.last().1))
    }
}

/// Entries from `from` on that do not bear `key` leave what `key` is bound
/// to as the entries before `from` made it.
proof fn lemma_bindings_skip(entries: Seq<Entry>, from: int, key: Seq<char>)
    requires
        0 <= from <= entries.len(),
        forall|j: int| from <= j < entries.len() ==> entries[j].0@ != key,
    ensures
        bindings(entries).contains_key(key) == bindings(entries.take(from)).contains_key(key),
        bindings(entries).contains_key(key) ==> bindings(entries)[key] == bindings(
            entries.take(from),
        )[key],
    decreases entries.len(),
{
    if from == entries.len() {
        assert(entries.take(from) =~= entries);
    } else {
        let front = entries.drop_last();
        assert(front.take(from) =~= entries.take(from));
        lemma_bindings_skip(front, from, key);
    }
}

/// A set of named values to read a configuration from.
///
/// A name is bound to a text, bound to something that is not text, or not
/// bound at all. The model is a map from names to `Some(text)` or `None`
/// (not text); a name outside the map's domain is not bound.
#[derive(Debug)]
pub struct Environment {
    entries: Vec<Entry>,
}

impl View for Environment {
    type V = Map<Seq<char>, Option<Seq<char>>>;

    closed spec fn view(&self) -> Map<Seq<char>, Option<Seq<char>>> {
        bindings(self.entries@)
    }
}

impl Environment {
    /// The text bound to `key`, if `key` is bound to text.
    pub open spec fn text(self, key: Seq<char>) -> Option<Seq<char>> {
        if self@.contains_key(key) {
            self@[key]
        } else {
            None
        }
    }

    /// An environment in which no name is bound.
    pub fn new() -> (env: Environment)
        ensures
            env@ == Map::<Seq<char>, Option<Seq<char>>>::empty(),
    {
        Environment { entries: Vec::new() }
    }

    /// Binds `key` to the text `value`, in place of what it was bound to.
    pub fn set(&mut self, key: &str, value: &str)
        ensures
            final(self)@ == old(self)@.insert(key@, Some(value@)),
    {
        let entry: Entry = (key.to_owned(), Some(value.to_owned()));
        self.entries.push(entry);
        assert(self.entries@.drop_last() =~= old(self).entries@);
    }

    /// Binds `key` to a value that cannot be read as text, in place of what
    /// it was bound to.
    pub fn set_unreadable(&mut self, key: &str)
        ensures
            final(self)@ == old(self)@.insert(key@, None),
    {
        let entry: Entry = (key.to_owned(), None);
        self.entries.push(entry);
        assert(self.entries@.drop_last() =~= old(self).entries@);
    }

    /// Reads `key`.
    pub fn lookup(&self, key: &str) -> (res: Lookup)
        ensures
            match res {
                Lookup::Found(s) => self@.contains_key(key@) && self@[key@] == Some(s@),
                Lookup::Missing => !self@.contains_key(key@),
                Lookup::Unreadable => self@.contains_key(key@) && self@[key@] is None,
            },
            res.text() == self.text(key@),
    {
        let wanted: String = key.to_owned();
        let mut i: usize = self.entries.len();
        while i > 0
            invariant
                i <= self.entries.len(),
                wanted@ == key@,
                forall|j: int| i <= j < self.entries.len() ==> self.entries[j].0@ != key@,
            decreases i,
        {
            i -= 1;
            if self.entries[i].0 == wanted {
                proof {
                    lemma_bindings_skip(self.entries@, i + 1, key@);
                }
                return match &self.entries[i].1 {
                    Some(value) => Lookup::Found(value.clone()),
                    None => Lookup::Unreadable,
                };
            }
        }
        proof {
            lemma_bindings_skip(self.entries@, 0, key@);
        }
        Lookup::Missing
    }
}

/// What construction from four lookups yields, given the text found under
/// each name (`None` where the lookup failed). The URL is asked for first,
/// then the username; with both there, the rest is construction from
/// explicit inputs.
pub open spec fn resolve(
    url: Option<Seq<char>>,
    username: Option<Seq<char>>,
    password: Option<Seq<char>>,
    token: Option<Seq<char>>,
) -> Result<ConfigView, ConfigError> {
    match url {
        None => Err(ConfigError::MissingURL),
        Some(url) => match username {
            None => Err(ConfigError::MissingUsername),
            Some(username) => build(url, username, password, token),
        },
    }
}

impl Config {
    /// Constructs a `Config` from what `env` holds under the four names.
    ///
    /// The URL is read first and the username second; the first of the two
    /// that cannot be read decides the error. A token or a password that
    /// cannot be read is merely absent, and only when both are absent does
    /// construction fail, with `MissingAuth`.
    pub fn from_environment(env: &Environment) -> (res: Result<Config, ConfigError>)
        ensures
            env.text(URL_KEY@) is None ==> res matches Err(ConfigError::MissingURL),
            env.text(URL_KEY@) is Some && env.text(USERNAME_KEY@) is None ==> res matches Err(
                ConfigError::MissingUsername,
            ),
            ({
                &&& env.text(URL_KEY@) is Some
                &&& env.text(USERNAME_KEY@) is Some
                &&& env.text(TOKEN_KEY@) is None
                &&& env.text(PASSWORD_KEY@) is None
            }) ==> res matches Err(ConfigError::MissingAuth),
            ({
                &&& env.text(URL_KEY@) is Some
                &&& env.text(USERNAME_KEY@) is Some
                &&& env.text(TOKEN_KEY@) is Some || env.text(PASSWORD_KEY@) is Some
            }) ==> ({
                &&& res matches Ok(config)
                &&& Some(config@.url) == env.text(URL_KEY@)
                &&& Some(config@.username) == env.text(USERNAME_KEY@)
                &&& config@.token == env.text(TOKEN_KEY@)
                &&& config@.password == env.text(PASSWORD_KEY@)
            }),
            outcome(res) == resolve(
                env.text(URL_KEY@),
                env.text(USERNAME_KEY@),
                env.text(PASSWORD_KEY@),
                env.text(TOKEN_KEY@),
            ),
            res matches Ok(config) ==> config@.has_auth(),
    {
        let url = match env.lookup(URL_KEY).value() {
            Some(url) => url,
            None => return Err(ConfigError::MissingURL),
        };
        let username = match env.lookup(USERNAME_KEY).value() {
            Some(username) => username,
            None => return Err(ConfigError::MissingUsername),
        };
        let token = env.lookup(TOKEN_KEY).value();
        let password = env.lookup(PASSWORD_KEY).value();
        Config::new(url, username, password, token)
    }
}

/// Reading twice from environments that hold the same text under the four
/// names gives the same outcome: the same error both times, or two
/// configurations that compare equal. What else the environments hold, and
/// whether a name without text is missing or unreadable, makes no
/// difference.
pub proof fn lemma_from_environment_is_repeatable(
    env: Environment,
    res: Result<Config, ConfigError>,
    env_again: Environment,
    res_again: Result<Config, ConfigError>,
)
    requires
        env.text(URL_KEY@) == env_again.text(URL_KEY@),
        env.text(USERNAME_KEY@) == env_again.text(USERNAME_KEY@),
        env.text(TOKEN_KEY@) == env_again.text(TOKEN_KEY@),
        env.text(PASSWORD_KEY@) == env_again.text(PASSWORD_KEY@),
        call_ensures(Config::from_environment, (&env,), res),
        call_ensures(Config::from_environment, (&env_again,), res_again),
    ensures
        outcome(res) == outcome(res_again),
        res matches Ok(a) ==> res_again matches Ok(b) && a@ == b@,
        res matches Err(e) ==> res_again matches Err(e_again) && e == e_again,
{
}

/// Where the URL and the username can be read, reading from an environment
/// and constructing from the texts it holds under the four names come to
/// the same: both ask only for a token or a password.
pub proof fn lemma_from_environment_agrees_with_new(
    env: Environment,
    res: Result<Config, ConfigError>,
    url: String,
    username: String,
    password: Option<String>,
    token: Option<String>,
    res_new: Result<Config, ConfigError>,
)
    requires
        env.text(URL_KEY@) == Some(url@),
        env.text(USERNAME_KEY@) == Some(username@),
        env.text(PASSWORD_KEY@) == text_of(password),
        env.text(TOKEN_KEY@) == text_of(token),
        call_ensures(Config::from_environment, (&env,), res),
        call_ensures(Config::new, (url, username, password, token), res_new),
    ensures
        outcome(res) == outcome(res_new),
{
}

} // verus!
