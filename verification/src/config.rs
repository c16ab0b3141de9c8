//! Endpoint configuration for an OpenAI-compatible provider, and the
//! process-wide slot that holds the active one.

use std::sync::Arc;

use vstd::prelude::*;

use crate::error::AIApiError;
use crate::text::{is_blank, owned, trim_is_empty};

verus! {

/// OpenAI provider configuration.
#[derive(Debug, Clone, PartialEq, Eq)]
pub struct OpenAiConfig {
    /// Base URL, e.g. `https://api.openai.com/v1`.
    pub endpoint: String,
    /// Bearer token for the `Authorization` header.
    pub api_key: String,
    /// Model identifier sent as the request's `model` field.
    pub model: String,
}

/// The endpoint used when none is configured.
pub open spec fn default_endpoint() -> Seq<char> {
    "https://api.openai.com/v1"@
}

/// Why explicit values make no configuration: a blank API key, else a
/// blank model; `None` when they make one.
pub open spec fn parts_error(api_key: Seq<char>, model: Seq<char>) -> Option<Seq<char>> {
    if is_blank(api_key) {
        Some("AI Provider API key is required"@)
    } else if is_blank(model) {
        Some("AI Provider model is required"@)
    } else {
        None
    }
}

/// `c` holds the given values, with the default endpoint for a blank one.
pub open spec fn built_from_parts(c: OpenAiConfig, endpoint: String, api_key: String, model: String) -> bool {
    &&& c.api_key == api_key
    &&& c.model == model
    &&& if is_blank(endpoint@) {
        c.endpoint@ == default_endpoint()
    } else {
        c.endpoint == endpoint
    }
}

impl OpenAiConfig {
    /// Default endpoint when none is given.
    pub const DEFAULT_ENDPOINT: &'static str = "https://api.openai.com/v1";

    /// Builds a configuration from explicit values. The API key and the
    /// model must hold something other than white space; a blank endpoint
    /// falls back to [`Self::DEFAULT_ENDPOINT`].
    pub fn from_parts(endpoint: String, api_key: String, model: String) -> (r: Result<
        Self,
        Arc<AIApiError>,
    >)
        ensures
            match r {
                Ok(c) => parts_error(api_key@, model@) is None && built_from_parts(
                    c,
                    endpoint,
                    api_key,
                    model,
                ),
                Err(e) => parts_error(api_key@, model@) matches Some(m) && e.is_other(m),
            },
    {
        if trim_is_empty(api_key.as_str()) {
            return Err(Arc::new(AIApiError::other("AI Provider API key is required")));
        }
        if trim_is_empty(model.as_str()) {
            return Err(Arc::new(AIApiError::other("AI Provider model is required")));
        }
        let endpoint = if trim_is_empty(endpoint.as_str()) {
            owned("https://api.openai.com/v1")
        } else {
            endpoint
        };
        Ok(OpenAiConfig { endpoint, api_key, model })
    }

    /// Builds a configuration from the values of the `WARP_AI_OPENAI_API_KEY`,
    /// `WARP_AI_OPENAI_MODEL` and `WARP_AI_OPENAI_ENDPOINT` variables
    /// (`None` for one that is unset). The key and the model are required;
    /// a missing endpoint is [`Self::DEFAULT_ENDPOINT`].
    pub fn from_env_values(
        api_key: Option<String>,
        model: Option<String>,
        endpoint: Option<String>,
    ) -> (r: Result<Self, Arc<AIApiError>>)
        ensures
            match r {
                Ok(c) => {
                    &&& api_key == Some(c.api_key)
                    &&& model == Some(c.model)
                    &&& match endpoint {
                        Some(e) => c.endpoint == e,
                        None => c.endpoint@ == default_endpoint(),
                    }
                },
                Err(e) => if api_key is None {
                    e.is_other("WARP_AI_PROTOCOL=openai requires WARP_AI_OPENAI_API_KEY"@)
                } else {
                    &&& model is None
                    &&& e.is_other("WARP_AI_PROTOCOL=openai requires WARP_AI_OPENAI_MODEL"@)
                },
            },
    {
        let api_key = match api_key {
            Some(k) => k,
            None => {
                return Err(
                    Arc::new(
                        AIApiError::other("WARP_AI_PROTOCOL=openai requires WARP_AI_OPENAI_API_KEY"),
                    ),
                );
            },
        };
        let model = match model {
            Some(m) => m,
            None => {
                return Err(
                    Arc::new(
                        AIApiError::other("WARP_AI_PROTOCOL=openai requires WARP_AI_OPENAI_MODEL"),
                    ),
                );
            },
        };
        let endpoint = match endpoint {
            Some(e) => e,
            None => owned("https://api.openai.com/v1"),
        };
        Ok(OpenAiConfig { endpoint, api_key, model })
    }

    /// A copy equal to `self`.
    pub fn duplicate(&self) -> (r: Self)
        ensures
            r == *self,
    {
        OpenAiConfig {
            endpoint: self.endpoint.clone(),
            api_key: self.api_key.clone(),
            model: self.model.clone(),
        }
    }
}

/// The process-wide override for the active configuration: set by the
/// settings page, read by the request dispatcher.
#[derive(Debug)]
pub struct RuntimeConfigStore {
    current: Option<OpenAiConfig>,
}

impl RuntimeConfigStore {
    /// What the store holds.
    pub closed spec fn held(&self) -> Option<OpenAiConfig> {
        self.current
    }

    /// A store holding nothing.
    pub fn new() -> (r: Self)
        ensures
            r.held() is None,
    {
        RuntimeConfigStore { current: None }
    }
}

/// Sets the runtime configuration; `None` clears it.
pub fn set_runtime_config(store: &mut RuntimeConfigStore, config: Option<OpenAiConfig>)
    ensures
        final(store).held() == config,
{
    store.current = config;
}

/// The runtime configuration, if one is set.
pub fn runtime_config(store: &RuntimeConfigStore) -> (r: Option<OpenAiConfig>)
    ensures
        r == store.held(),
{
    match &store.current {
        Some(c) => Some(c.duplicate()),
        None => None,
    }
}

} // verus!
