//! The settings that the program starts with.

use vstd::prelude::*;

verus! {

/// What the user may set on the command line.
#[derive(Debug, Clone)]
pub struct Config {
    /// The path of a model file, if one is given.
    pub model: Option<String>,
    /// The size of the model to fetch: tiny, base, small, medium or large.
    pub model_size: Option<String>,
    /// The push-to-talk key.
    pub key: String,
    /// The language to recognise.
    pub language: String,
    /// The longest recording, in seconds.
    pub max_duration_secs: u64,
}

impl Default for Config {
    /// No model path, no model size, key F12, language en, 30 seconds.
    fn default() -> (config: Self)
        ensures
            config.model is None,
            config.model_size is None,
            config.key@ == "F12"@,
            config.language@ == "en"@,
            config.max_duration_secs == 30,
    {
        Self {
            model: None,
            model_size: None,
            key: String::from_str("F12"),
            language: String::from_str("en"),
            max_duration_secs: 30,
        }
    }
}

} // verus!
