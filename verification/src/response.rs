//! A uniform reading interface over response values: the answer's text
//! content and the creation time.

use vstd::prelude::*;

use crate::raw::response::ChatCompletionResponse;

verus! {

/// A response a caller can read uniformly.
pub trait Response {
    /// Whether the response carries readable text content.
    spec fn has_content(&self) -> bool;

    /// The text content, as a character sequence.
    spec fn content_view(&self) -> Seq<char>;

    /// The creation time, in seconds since the epoch.
    spec fn created_secs(&self) -> u64;

    /// The text content of the first choice.
    fn content(&self) -> (r: &str)
        requires
            self.has_content(),
        ensures
            r@ == self.content_view(),
    ;

    /// When the response was created, in seconds since the epoch.
    fn created(&self) -> (r: u64)
        ensures
            r == self.created_secs(),
    ;
}

impl Response for ChatCompletionResponse {
    open spec fn has_content(&self) -> bool {
        self.choices@.len() > 0 && self.choices@[0].message.content is Some
    }

    open spec fn content_view(&self) -> Seq<char> {
        self.choices@[0].message.content->Some_0@
    }

    open spec fn created_secs(&self) -> u64 {
        self.created
    }

    fn content(&self) -> (r: &str) {
        match &self.choices[0].message.content {
            Some(s) => s.as_str(),
            None => "",
        }
    }

    fn created(&self) -> (r: u64) {
        self.created
    }
}

} // verus!
