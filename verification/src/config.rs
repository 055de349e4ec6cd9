//! Configuration values and the exact contents of the files that carry
//! them.  Reading and writing the files is the host's work; parsing the
//! file into a [`ConfigData`] is the JSON collaborator's.

use vstd::prelude::*;
use crate::json::{json_obj2_of, json_object_2};
use crate::text::{str_concat, str_equal};

verus! {

/// The persisted configuration.
#[derive(Debug)]
pub struct ConfigData {
    api_key: Option<String>,
}

/// The characters of an optional string.
pub open spec fn opt_string_view(o: Option<String>) -> Option<Seq<char>> {
    match o {
        Some(s) => Some(s@),
        None => None,
    }
}

impl ConfigData {
    /// The stored key, if any.
    pub closed spec fn api_key_view(&self) -> Option<Seq<char>> {
        match self.api_key {
            Some(s) => Some(s@),
            None => None,
        }
    }

    /// A configuration holding the given key.
    pub fn new(api_key: Option<String>) -> (c: ConfigData)
        ensures
            c.api_key_view() == opt_string_view(api_key),
    {
        ConfigData { api_key }
    }

    /// The value stored under `key`: the api key for `"api_key"`, an error
    /// naming the key for anything else.
    pub fn lookup(&self, key: &str) -> (r: Result<Option<String>, String>)
        ensures
            key@ == "api_key"@ ==> (r matches Ok(v) && opt_string_view(v) == self.api_key_view()),
            key@ != "api_key"@ ==> (r matches Err(m) && m@ == "Unknown key: "@ + key@),
    {
        if str_equal(key, "api_key") {
            match &self.api_key {
                Some(s) => Ok(Some(s.clone())),
                None => Ok(None),
            }
        } else {
            Err(str_concat("Unknown key: ", key))
        }
    }
}

impl Default for ConfigData {
    /// An empty configuration.
    fn default() -> (c: ConfigData)
        ensures
            c.api_key_view() is None,
    {
        ConfigData { api_key: None }
    }
}

/// The exact contents of the environment file for `api_key`.
pub fn env_file_contents(api_key: &str) -> (r: String)
    ensures
        r@ == "CUSTOM_LOGGER_PLAY_ERROR_SOUND=\"False\"\nGEMINI_API_KEYS=\""@ + api_key@
            + "\"\nOUTPUT_WAV=\"output.wav\""@,
{
    let s = str_concat("CUSTOM_LOGGER_PLAY_ERROR_SOUND=\"False\"\nGEMINI_API_KEYS=\"", api_key);
    let r = str_concat(s.as_str(), "\"\nOUTPUT_WAV=\"output.wav\"");
    proof {
        assert(r@ =~= "CUSTOM_LOGGER_PLAY_ERROR_SOUND=\"False\"\nGEMINI_API_KEYS=\""@ + api_key@
            + "\"\nOUTPUT_WAV=\"output.wav\""@);
    }
    r
}

/// The exact contents of the configuration file for `api_key` and
/// `system_prompt`: a two-entry JSON object.
pub fn config_file_contents(api_key: &str, system_prompt: &str) -> (r: String)
    ensures
        r@ == json_obj2_of("api_key"@, api_key@, "system_prompt"@, system_prompt@),
{
    json_object_2("api_key", api_key, "system_prompt", system_prompt)
}

} // verus!
