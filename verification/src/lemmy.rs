//! The destination side: the session record for the target community and the
//! transform that maps a platform-neutral post into a destination creation
//! request, appending the attribution footer.
//!
//! The network submission itself happens outside the library; it receives a
//! fully built [`LemmyPost`] value and sends it as is.

use vstd::prelude::*;
use vstd::string::StringExecFns;
use crate::common::{CommonPost, CommonPostView, Platform, platform_name, platform_label, opt_str_view, clone_opt_string};

verus! {

/// Struct containing info needed to do operations
/// with Lemmy.
#[derive(Debug, PartialEq)]
pub struct LemmyInfo {
    /// Name of the community that posts are submitted to.
    pub community_name: String,
    /// The resolved numeric id of that community.
    pub community_id: i32,
}

impl LemmyInfo {
    /// Create a new [`LemmyInfo`] instance for the community of interest.
    pub fn new(community_name: String, community_id: i32) -> (r: Self)
        ensures
            r.community_name@ == community_name@,
            r.community_id == community_id,
    {
        LemmyInfo { community_name, community_id }
    }
}

/// A fully built destination creation request, ready to submit.
#[derive(Debug, PartialEq)]
pub struct LemmyPost {
    /// The community the post goes to.
    pub community_id: i32,
    /// The post's title.
    pub name: String,
    /// The post's body, attribution footer included.
    pub body: String,
    pub nsfw: bool,
    pub url: Option<String>,
}

/// Mathematical image of a [`LemmyPost`].
pub ghost struct LemmyPostView {
    pub community_id: i32,
    pub name: Seq<char>,
    pub body: Seq<char>,
    pub nsfw: bool,
    pub url: Option<Seq<char>>,
}

impl View for LemmyPost {
    type V = LemmyPostView;

    open spec fn view(&self) -> LemmyPostView {
        LemmyPostView {
            community_id: self.community_id,
            name: self.name@,
            body: self.body@,
            nsfw: self.nsfw,
            url: opt_str_view(self.url),
        }
    }
}

impl Clone for LemmyPost {
    fn clone(&self) -> (r: Self)
        ensures
            r == *self,
    {
        LemmyPost {
            community_id: self.community_id,
            name: self.name.clone(),
            body: self.body.clone(),
            nsfw: self.nsfw,
            url: clone_opt_string(&self.url),
        }
    }
}

/// The attribution footer appended to every republished body: it names the
/// original author and the platform the post came from.
pub open spec fn attribution_footer(author: Seq<char>, platform: Seq<char>) -> Seq<char> {
    "\n\nThis post was authored by: "@ + author + " on "@ + platform
        + "\n\nIf you liked this post, give them a visit!"@
}

/// The destination request that one post maps to: title, url and nsfw pass
/// through unchanged, the body gains the attribution footer, and the request
/// is aimed at the given community.
pub open spec fn spec_convert(p: CommonPostView, community_id: i32) -> LemmyPostView {
    LemmyPostView {
        community_id: community_id,
        name: p.title,
        body: p.body + attribution_footer(p.author, platform_name(p.platform)),
        nsfw: p.nsfw,
        url: p.url,
    }
}

/// Map one post into a destination creation request, appending the
/// attribution footer to its body.
pub fn convert_to_lemmy_post(post: CommonPost, li: &LemmyInfo) -> (r: LemmyPost)
    ensures
        r@ == spec_convert(post@, li.community_id),
{
    let ghost original_body: Seq<char> = post.body@;
    let platform: &'static str = platform_label(post.platform);
    let mut body = post.body;
    body.append("\n\nThis post was authored by: ");
    body.append(post.author.as_str());
    body.append(" on ");
    body.append(platform);
    body.append("\n\nIf you liked this post, give them a visit!");
    proof {
        assert(body@ =~= original_body
            + attribution_footer(post.author@, platform_name(post.platform)));
    }
    LemmyPost {
        community_id: li.community_id,
        name: post.title,
        body,
        nsfw: post.nsfw,
        url: post.url,
    }
}

/// The transformed body always ends with the attribution footer naming
/// exactly the post's author and source platform, and the transform never
/// alters the title, url or nsfw flag.
pub proof fn lemma_transform_appends_attribution(p: CommonPostView, community_id: i32)
    ensures
        spec_convert(p, community_id).name == p.title,
        spec_convert(p, community_id).url == p.url,
        spec_convert(p, community_id).nsfw == p.nsfw,
        spec_convert(p, community_id).community_id == community_id,
        spec_convert(p, community_id).body.len() == p.body.len()
            + attribution_footer(p.author, platform_name(p.platform)).len(),
        spec_convert(p, community_id).body.skip(p.body.len() as int)
            == attribution_footer(p.author, platform_name(p.platform)),
{
    assert(spec_convert(p, community_id).body.skip(p.body.len() as int)
        =~= attribution_footer(p.author, platform_name(p.platform)));
}

/// The transform is deterministic: equal posts and equal destination context
/// give identical requests, so transforming the same post twice yields the
/// same output both times.
pub proof fn lemma_transform_deterministic(
    p1: CommonPostView,
    p2: CommonPostView,
    id1: i32,
    id2: i32,
)
    requires
        p1 == p2,
        id1 == id2,
    ensures
        spec_convert(p1, id1) == spec_convert(p2, id2),
{
}

} // verus!
