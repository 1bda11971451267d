use vstd::prelude::*;

verus! {

/// The settings the reader runs with: the API token and the location it opens on.
#[derive(Clone, Debug)]
pub struct AppConfig {
    pub token: String,
    pub default_location: String,
}

impl Default for AppConfig {
    /// No token, opening on the inbox.
    fn default() -> (c: Self)
        ensures
            c.token@ == Seq::<char>::empty(),
            c.default_location@ == "new"@,
    {
        AppConfig { token: String::new(), default_location: String::from_str("new") }
    }
}

/// Why no configuration could be settled.
#[derive(Clone, Copy, PartialEq, Eq, Debug)]
pub enum ConfigError {
    /// No token came from the flags, the environment or the file.
    MissingToken,
}

impl ConfigError {
    /// The message shown for the error.
    pub fn message(&self) -> (r: &'static str)
        ensures
            r@ == "Readwise API token is missing. Please provide it via READWISE_TOKEN env var, --token flag, or in config.toml"@,
    {
        match self {
            ConfigError::MissingToken => "Readwise API token is missing. Please provide it via READWISE_TOKEN env var, --token flag, or in config.toml",
        }
    }
}

/// The token the merge settles on: the flag's, else the stored one, else none.
pub open spec fn merged_token(stored: Option<String>, flag: Option<String>) -> Seq<char> {
    match flag {
        Some(t) => t@,
        None => match stored {
            Some(t) => t@,
            None => Seq::empty(),
        },
    }
}

/// The location the merge settles on: the flag's, else the stored one, else `new`.
pub open spec fn merged_location(stored: Option<String>, flag: Option<String>) -> Seq<char> {
    match flag {
        Some(l) => l@,
        None => match stored {
            Some(l) => l@,
            None => "new"@,
        },
    }
}

/// Settles the configuration setting by setting. `stored_token` and
/// `stored_location` are what the file and the environment gave, each `None`
/// where they gave nothing; a flag takes precedence over the stored setting,
/// and the default fills in where neither gave a value. Fails exactly when
/// the settled token is empty.
pub fn merge_config(
    stored_token: Option<String>,
    stored_location: Option<String>,
    token_flag: Option<String>,
    location_flag: Option<String>,
) -> (r: Result<AppConfig, ConfigError>)
    ensures
        merged_token(stored_token, token_flag).len() == 0 <==> r is Err,
        r matches Ok(c) ==> c.token@ == merged_token(stored_token, token_flag)
            && c.default_location@ == merged_location(stored_location, location_flag),
        location_flag matches Some(l) ==> (r matches Ok(c) ==> c.default_location@ == l@),
        token_flag matches Some(t) ==> (r matches Ok(c) ==> c.token@ == t@),
        location_flag is None ==> (r matches Ok(c) ==> c.default_location@ == (match stored_location {
            Some(s) => s@,
            None => "new"@,
        })),
{
    let mut config = AppConfig::default();
    match token_flag {
        Some(t) => {
            config.token = t;
        },
        None => match stored_token {
            Some(t) => {
                config.token = t;
            },
            None => {},
        },
    }
    match location_flag {
        Some(l) => {
            config.default_location = l;
        },
        None => match stored_location {
            Some(l) => {
                config.default_location = l;
            },
            None => {},
        },
    }
    if config.token.as_str().is_empty() {
        return Err(ConfigError::MissingToken);
    }
    Ok(config)
}


/// A flag decides its setting whatever is stored; without the flag the
/// stored setting decides, and without either the token is empty and the
/// location is `new`, the location a default configuration opens on.
pub proof fn law_flags_outrank_stored(stored: Option<String>, flag_value: String)
    ensures
        merged_token(stored, Some(flag_value)) == flag_value@,
        merged_location(stored, Some(flag_value)) == flag_value@,
        stored matches Some(s) ==> merged_token(stored, None) == s@,
        stored matches Some(s) ==> merged_location(stored, None) == s@,
        merged_token(None, None) == Seq::<char>::empty(),
        merged_location(None, None) == "new"@,
{
}

} // verus!
