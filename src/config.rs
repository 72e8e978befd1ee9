//! The bot's settings, and the provider they select.

use vstd::prelude::*;
use crate::error::ImageBotError;
use crate::image_searcher::{GoogleImageSeacher, RapidApiImageSeacher, Searcher};

verus! {

/// The settings that the bot starts with.
pub struct Config {
    pub discord_api_key: String,
    pub image_search_api_key: String,
    pub google_cx_id: Option<String>,
    pub use_google_search: bool,
}

impl Config {
    /// The provider to search with: the aggregator unless the search engine
    /// is asked for, and then only where an engine id is given.
    pub fn searcher(self) -> (r: Result<Searcher, ImageBotError>)
        ensures
            match (self.use_google_search, self.google_cx_id) {
                (false, _) => match r {
                    Ok(Searcher::RapidApi(a)) => a.api_key() == self.image_search_api_key@,
                    _ => false,
                },
                (true, Some(cx)) => match r {
                    Ok(Searcher::Google(g)) => g.api_key() == self.image_search_api_key@
                        && g.cx_id() == cx@,
                    _ => false,
                },
                (true, None) => r matches Err(ImageBotError::MissingCxId),
            },
    {
        match (self.use_google_search, self.google_cx_id) {
            (false, _) => Ok(Searcher::RapidApi(RapidApiImageSeacher::new(self.image_search_api_key))),
            (true, Some(cx)) => Ok(
                Searcher::Google(GoogleImageSeacher::new(self.image_search_api_key, cx)),
            ),
            (true, None) => Err(ImageBotError::MissingCxId),
        }
    }
}

} // verus!
