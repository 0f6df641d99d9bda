//! The configuration of a run, built once before anything else happens.

use crate::error::{outcome, Error, ErrorView};
use crate::text::option_text;
use vstd::prelude::*;

verus! {

/// What a run needs to know from its environment.
#[derive(Clone, Debug, PartialEq, Eq)]
pub struct Config {
    /// The key for the completion endpoint.
    pub api_key: String,
    /// The identifier of the model that writes the description.
    pub model: String,
}

/// A [`Config`] as contracts speak of it.
pub struct ConfigView {
    pub api_key: Seq<char>,
    pub model: Seq<char>,
}

impl View for Config {
    type V = ConfigView;

    open spec fn view(&self) -> ConfigView {
        ConfigView { api_key: self.api_key@, model: self.model@ }
    }
}

/// The configuration for the credentials found: there is one exactly when the
/// key for the completion endpoint is present.
pub open spec fn config_of(api_key: Option<Seq<char>>, model: Seq<char>) -> Result<
    ConfigView,
    ErrorView,
> {
    match api_key {
        Some(key) => Ok(ConfigView { api_key: key, model }),
        None => Err(ErrorView::Configuration),
    }
}

impl Config {
    /// Builds the configuration from the key found in the environment, if one
    /// was, and the identifier of the model to ask.
    pub fn new(api_key: Option<String>, model: String) -> (r: Result<Config, Error>)
        ensures
            outcome(r) == config_of(option_text(api_key), model@),
    {
        match api_key {
            Some(key) => Ok(Config { api_key: key, model }),
            None => Err(Error::Configuration),
        }
    }
}

} // verus!
