//! The agent's configuration and its validation.
use vstd::prelude::*;
use vstd::string::*;
use crate::text::{occurs_at, occurs_at_pos};

verus! {

/// Model used when none is configured.
pub const DEFAULT_MODEL: &'static str = "llama3.2";

/// Backend address used when none is configured.
pub const DEFAULT_HOST: &'static str = "http://localhost:11434";

/// Search results fetched per query when nothing else is configured.
pub const DEFAULT_MAX_SEARCH_RESULTS: usize = 5;

/// Settings of one agent: which model, where the backend is, how many search
/// results to fetch.
#[derive(Debug)]
pub struct Config {
    pub model: String,
    pub ollama_host: String,
    pub max_search_results: usize,
}

/// Why a configuration was rejected.
#[derive(Clone, Copy, Debug, PartialEq, Eq, Structural)]
pub enum ConfigError {
    /// The model identifier is empty.
    EmptyModel,
    /// The backend address is not an http or https base URL.
    InvalidHost,
    /// No search result would ever be fetched.
    NoSearchResults,
}

/// `s` is an http or https base URL with something after the scheme.
pub open spec fn is_base_url(s: Seq<char>) -> bool {
    (occurs_at(s, "http://"@, 0) && s.len() > "http://"@.len())
        || (occurs_at(s, "https://"@, 0) && s.len() > "https://"@.len())
}

/// Whether `s` is an http or https base URL.
pub fn check_base_url(s: &str) -> (r: bool)
    ensures
        r == is_base_url(s@),
{
    let n = s.unicode_len();
    let plain = "http://";
    let secure = "https://";
    let plain_len = plain.unicode_len();
    let secure_len = secure.unicode_len();
    (occurs_at_pos(s, n, plain, plain_len, 0) && n > plain_len)
        || (occurs_at_pos(s, n, secure, secure_len, 0) && n > secure_len)
}

impl Config {
    /// The configuration can be used: a model is named, the host is a base
    /// URL, and at least one search result is fetched.
    pub open spec fn valid(&self) -> bool {
        &&& self.model@.len() > 0
        &&& is_base_url(self.ollama_host@)
        &&& self.max_search_results >= 1
    }

    /// A configuration from its three settings.
    pub fn new(model: String, ollama_host: String, max_search_results: usize) -> (r: Config)
        ensures
            r.model == model,
            r.ollama_host == ollama_host,
            r.max_search_results == max_search_results,
    {
        Config { model, ollama_host, max_search_results }
    }

    /// Checks the configuration, reporting the first setting that is wrong.
    pub fn validate(&self) -> (r: Result<(), ConfigError>)
        ensures
            r is Ok <==> self.valid(),
            r == Err::<(), ConfigError>(ConfigError::EmptyModel) <==> self.model@.len() == 0,
            r == Err::<(), ConfigError>(ConfigError::InvalidHost) <==> (self.model@.len() > 0
                && !is_base_url(self.ollama_host@)),
            r == Err::<(), ConfigError>(ConfigError::NoSearchResults) <==> (self.model@.len() > 0
                && is_base_url(self.ollama_host@) && self.max_search_results == 0),
    {
        if self.model.as_str().unicode_len() == 0 {
            Err(ConfigError::EmptyModel)
        } else if !check_base_url(self.ollama_host.as_str()) {
            Err(ConfigError::InvalidHost)
        } else if self.max_search_results == 0 {
            Err(ConfigError::NoSearchResults)
        } else {
            Ok(())
        }
    }
}

impl Default for Config {
    /// The default settings: the default model on a local backend.
    fn default() -> (r: Config)
        ensures
            r.model@ == DEFAULT_MODEL@,
            r.ollama_host@ == DEFAULT_HOST@,
            r.max_search_results == DEFAULT_MAX_SEARCH_RESULTS,
            r.valid(),
    {
        proof {
            reveal_strlit("llama3.2");
            reveal_strlit("http://localhost:11434");
            reveal_strlit("http://");
            reveal_strlit("https://");
        }
        let r = Config {
            model: String::from_str(DEFAULT_MODEL),
            ollama_host: String::from_str(DEFAULT_HOST),
            max_search_results: DEFAULT_MAX_SEARCH_RESULTS,
        };
        assert(r.ollama_host@.subrange(0, 7) =~= "http://"@);
        r
    }
}

} // verus!
