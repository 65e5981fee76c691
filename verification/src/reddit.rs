//! The source side: the session record for the subreddit of interest and the
//! mapping of raw fetched fields into the platform-neutral post model.
//!
//! The network fetch itself happens outside the library; it hands over the raw
//! title, body, url, flag and author of each item, and [`build_common_post`]
//! turns them into a [`CommonPost`].

use vstd::prelude::*;
use crate::common::{CommonPost, CommonPostView, Platform, opt_str_view};

verus! {

/// Struct containing needed info to do operations
/// with Reddit.
#[derive(Debug)]
pub struct RedditInfo {
    /// Name of the subreddit that we do stuff with.
    pub subreddit: String,
}

impl RedditInfo {
    /// Create a new [`RedditInfo`] instance for the subreddit of interest.
    pub fn new(subreddit: String) -> (r: Self)
        ensures
            r.subreddit@ == subreddit@,
    {
        RedditInfo { subreddit }
    }
}

/// The text with its leading and trailing whitespace removed, as
/// `str::trim` computes it.
pub uninterp spec fn white_trimmed(s: Seq<char>) -> Seq<char>;

/// Relies on str::trim: removes leading and trailing whitespace and nothing
/// else; the result depends on the characters alone.
#[verifier::external_body]
fn trim_str<'a>(s: &'a str) -> (r: &'a str)
    ensures
        r@ == white_trimmed(s@),
{
    s.trim()
}

/// The post model that one fetched source item maps to: title and body
/// trimmed, the rest taken as is, provenance marked as the source platform.
pub open spec fn spec_build_common_post(
    title: Seq<char>,
    body: Seq<char>,
    url: Option<Seq<char>>,
    nsfw: bool,
    author: Seq<char>,
) -> CommonPostView {
    CommonPostView {
        title: white_trimmed(title),
        body: white_trimmed(body),
        url: url,
        nsfw: nsfw,
        author: author,
        platform: Platform::Reddit,
    }
}

/// Map the raw fields of one fetched source item into a [`CommonPost`],
/// trimming the title and body text.
pub fn build_common_post(
    title: &str,
    body: &str,
    url: Option<String>,
    nsfw: bool,
    author: String,
) -> (r: CommonPost)
    ensures
        r@ == spec_build_common_post(title@, body@, opt_str_view(url), nsfw, author@),
{
    CommonPost {
        title: trim_str(title).to_owned(),
        body: trim_str(body).to_owned(),
        url,
        nsfw,
        author,
        platform: Platform::Reddit,
    }
}

} // verus!
