//! Where the pipeline connects to.

use vstd::prelude::*;
use vstd::string::*;

verus! {

/// The endpoint of the run. It is made once and read from then on.
#[derive(Debug, Clone, PartialEq, Eq)]
pub struct Config {
    pub api_url: String,
}

impl View for Config {
    type V = Seq<char>;

    open spec fn view(&self) -> Seq<char> {
        self.api_url@
    }
}

/// The endpoint that is used where nothing else is asked for.
pub open spec fn default_url() -> Seq<char> {
    "http://github-firehose.libraries.io/events"@
}

/// The endpoint of a run that was started with the given override.
pub open spec fn resolved_url(endpoint_url: Option<Seq<char>>) -> Seq<char> {
    match endpoint_url {
        Some(url) => url,
        None => default_url(),
    }
}

impl Default for Config {
    fn default() -> (r: Self)
        ensures
            r@ == default_url(),
    {
        Config { api_url: String::from_str("http://github-firehose.libraries.io/events") }
    }
}

impl Config {
    /// The configuration of a run: the endpoint that was asked for, or the
    /// default one where none was.
    pub fn resolve(endpoint_url: Option<String>) -> (r: Self)
        ensures
            r@ == resolved_url(
                match endpoint_url {
                    Some(url) => Some(url@),
                    None => None,
                },
            ),
    {
        match endpoint_url {
            Some(url) => Config { api_url: url },
            None => Config::default(),
        }
    }

    pub fn url(&self) -> (r: &str)
        ensures
            r@ == self@,
    {
        self.api_url.as_str()
    }
}

} // verus!
