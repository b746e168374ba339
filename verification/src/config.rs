//! Startup configuration, validated eagerly from the raw values the
//! process environment supplies.

use vstd::prelude::*;
use crate::strutil::{dec_value, is_valid_u32_text, numeral_digits, parse_u32};

verus! {

/// Everything the handler needs, validated once at startup.
#[derive(Clone, Debug)]
pub struct Config {
    pub github_owner: String,
    pub github_repo: String,
    /// Substring whose presence in a comment triggers a summary.
    pub trigger_phrase: String,
    pub llm_api_endpoint: String,
    pub llm_model_name: String,
    /// Context-window size handed to the completion service.
    pub llm_ctx_size: u32,
    pub llm_api_key: String,
}

/// Why configuration was rejected; each names the offending value.
#[derive(Clone, Copy, Debug, PartialEq, Eq, Structural)]
pub enum ConfigError {
    MissingOwner,
    MissingRepo,
    MissingApiEndpoint,
    MissingApiKey,
    InvalidCtxSize,
}

/// The trigger phrase used when none is configured.
pub open spec fn default_trigger_text() -> Seq<char> {
    "@flows_summarize"@
}

/// The model name used when none is configured.
pub open spec fn default_model_text() -> Seq<char> {
    "gpt-4"@
}

/// The context-window size used when none is configured.
pub open spec fn default_ctx_size() -> nat {
    16384
}

/// The text an optional setting contributes, or its default.
pub open spec fn setting_text(given: Option<String>, default: Seq<char>) -> Seq<char> {
    match given {
        Option::Some(s) => s@,
        Option::None => default,
    }
}

/// An absent context size is fine; a present one must be a valid
/// `u32` numeral.
pub open spec fn ctx_size_ok(given: Option<String>) -> bool {
    match given {
        Option::Some(s) => is_valid_u32_text(s@),
        Option::None => true,
    }
}

/// The context size a given setting denotes.
pub open spec fn ctx_size_value(given: Option<String>) -> nat {
    match given {
        Option::Some(s) => dec_value(numeral_digits(s@)),
        Option::None => default_ctx_size(),
    }
}

impl Config {
    /// Builds a configuration from the raw environment values, failing
    /// fast on a missing required value or an unparsable context size.
    ///
    /// Required: owner, repo, API endpoint, API key.  Optional, with
    /// defaults: trigger phrase, model name, context size.
    pub fn from_values(
        owner: Option<String>,
        repo: Option<String>,
        trigger_phrase: Option<String>,
        api_endpoint: Option<String>,
        model_name: Option<String>,
        ctx_size: Option<String>,
        api_key: Option<String>,
    ) -> (r: Result<Config, ConfigError>)
        ensures
            r is Ok <==> owner is Some && repo is Some && api_endpoint is Some && api_key is Some
                && ctx_size_ok(ctx_size),
            r matches Ok(c) ==> {
                &&& c.github_owner@ == owner.unwrap()@
                &&& c.github_repo@ == repo.unwrap()@
                &&& c.trigger_phrase@ == setting_text(trigger_phrase, default_trigger_text())
                &&& c.llm_api_endpoint@ == api_endpoint.unwrap()@
                &&& c.llm_model_name@ == setting_text(model_name, default_model_text())
                &&& c.llm_ctx_size as nat == ctx_size_value(ctx_size)
                &&& c.llm_api_key@ == api_key.unwrap()@
            },
            owner is None ==> r == Err::<Config, ConfigError>(ConfigError::MissingOwner),
            owner is Some && repo is None ==> r == Err::<Config, ConfigError>(
                ConfigError::MissingRepo,
            ),
            owner is Some && repo is Some && api_endpoint is None ==> r == Err::<
                Config,
                ConfigError,
            >(ConfigError::MissingApiEndpoint),
            owner is Some && repo is Some && api_endpoint is Some && !ctx_size_ok(ctx_size)
                ==> r == Err::<Config, ConfigError>(ConfigError::InvalidCtxSize),
            owner is Some && repo is Some && api_endpoint is Some && ctx_size_ok(ctx_size)
                && api_key is None ==> r == Err::<Config, ConfigError>(ConfigError::MissingApiKey),
    {
        let github_owner = match owner {
            Option::Some(s) => s,
            Option::None => {
                return Err(ConfigError::MissingOwner);
            },
        };
        let github_repo = match repo {
            Option::Some(s) => s,
            Option::None => {
                return Err(ConfigError::MissingRepo);
            },
        };
        let llm_api_endpoint = match api_endpoint {
            Option::Some(s) => s,
            Option::None => {
                return Err(ConfigError::MissingApiEndpoint);
            },
        };
        let llm_ctx_size: u32 = match &ctx_size {
            Option::Some(s) => {
                match parse_u32(s.as_str()) {
                    Option::Some(v) => v,
                    Option::None => {
                        return Err(ConfigError::InvalidCtxSize);
                    },
                }
            },
            Option::None => 16384,
        };
        let llm_api_key = match api_key {
            Option::Some(s) => s,
            Option::None => {
                return Err(ConfigError::MissingApiKey);
            },
        };
        let trigger = match trigger_phrase {
            Option::Some(s) => s,
            Option::None => String::from_str("@flows_summarize"),
        };
        let model = match model_name {
            Option::Some(s) => s,
            Option::None => String::from_str("gpt-4"),
        };
        Ok(
            Config {
                github_owner,
                github_repo,
                trigger_phrase: trigger,
                llm_api_endpoint,
                llm_model_name: model,
                llm_ctx_size,
                llm_api_key,
            },
        )
    }
}

} // verus!
