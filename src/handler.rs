//! What the bot does with a chat message.

use vstd::prelude::*;
use crate::image_searcher::{SearchRequest, Searcher};
use crate::trigger::{contains_token, extract_query, query_of};

verus! {

/// Handles chat messages with the provider chosen at startup.
pub struct Handler {
    pub searcher: Searcher,
}

impl Handler {
    pub fn new(searcher: Searcher) -> (r: Self)
        ensures
            r.searcher == searcher,
    {
        Handler { searcher }
    }

    /// The search that the message `content` asks for: none where it holds
    /// no query, else the provider's request for that query.
    pub fn message(&self, content: &str) -> (r: Option<SearchRequest>)
        ensures
            match query_of(content@) {
                None => r is None,
                Some(q) => match r {
                    Some(req) => self.searcher.is_request_for(q, req),
                    None => false,
                },
            },
            !contains_token(content@) ==> r is None,
    {
        match extract_query(content) {
            None => None,
            Some(q) => Some(self.searcher.request(q.as_str())),
        }
    }
}

} // verus!
