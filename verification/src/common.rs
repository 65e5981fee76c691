//! The platform-neutral post model and the small enumerations shared by the
//! source and destination sides of the bot.

use vstd::prelude::*;

verus! {

/// A data structure that can be used and understood universally,
/// holding the data needed to represent a post.
#[derive(Debug, PartialEq)]
pub struct CommonPost {
    pub title: String,
    pub body: String,
    pub url: Option<String>,
    pub nsfw: bool,
    pub author: String,
    pub platform: Platform,
}

/// Mathematical image of a [`CommonPost`]: every text field as a sequence of
/// characters.
pub ghost struct CommonPostView {
    pub title: Seq<char>,
    pub body: Seq<char>,
    pub url: Option<Seq<char>>,
    pub nsfw: bool,
    pub author: Seq<char>,
    pub platform: Platform,
}

/// The view of an optional string: the character sequence, when present.
pub open spec fn opt_str_view(s: Option<String>) -> Option<Seq<char>> {
    match s {
        Some(v) => Some(v@),
        None => None,
    }
}

impl View for CommonPost {
    type V = CommonPostView;

    open spec fn view(&self) -> CommonPostView {
        CommonPostView {
            title: self.title@,
            body: self.body@,
            url: opt_str_view(self.url),
            nsfw: self.nsfw,
            author: self.author@,
            platform: self.platform,
        }
    }
}

impl Clone for CommonPost {
    fn clone(&self) -> (r: Self)
        ensures
            r == *self,
    {
        CommonPost {
            title: self.title.clone(),
            body: self.body.clone(),
            url: clone_opt_string(&self.url),
            nsfw: self.nsfw,
            author: self.author.clone(),
            platform: self.platform,
        }
    }
}

/// Clone an optional string, keeping its value exactly.
pub fn clone_opt_string(s: &Option<String>) -> (r: Option<String>)
    ensures
        r == *s,
{
    match s {
        Some(v) => Some(v.clone()),
        None => None,
    }
}

/// Enum that represents different social networking platforms.
#[derive(Debug, Clone, Copy, PartialEq, Eq, Structural)]
pub enum Platform {
    Reddit,
    Lemmy,
}

/// The name of a platform, as it appears in attribution text.
pub open spec fn platform_name(p: Platform) -> Seq<char> {
    match p {
        Platform::Reddit => "Reddit"@,
        Platform::Lemmy => "Lemmy"@,
    }
}

/// The displayable name of a platform.
pub fn platform_label(p: Platform) -> (r: &'static str)
    ensures
        r@ == platform_name(p),
{
    match p {
        Platform::Reddit => "Reddit",
        Platform::Lemmy => "Lemmy",
    }
}

/// Enum representing different ways to sort the
/// posts in a community, such as a subreddit.
#[derive(Debug, Clone, Copy, PartialEq, Eq, Structural)]
pub enum SortMode {
    Top,
    Hot,
    New,
    Controversial,
}

/// Enum representing the time window over which the
/// posts of a community are ranked.
#[derive(Debug, Clone, Copy, PartialEq, Eq, Structural)]
pub enum TimeFrame {
    Hour,
    Day,
    Week,
    Month,
    Year,
    All,
}

/// What should the program do?
#[derive(Debug, Clone, Copy, PartialEq, Eq, Structural)]
pub enum BotMode {
    /// Crosspost from Reddit to Lemmy.
    CrossRTL,
    /// Crosspost from Lemmy to Reddit (reserved; not implemented).
    CrossLTR,
}

impl Default for BotMode {
    /// The bot crossposts from Reddit to Lemmy unless told otherwise.
    fn default() -> (r: Self)
        ensures
            r == BotMode::CrossRTL,
    {
        BotMode::CrossRTL
    }
}

} // verus!
