use vstd::prelude::*;
use vstd::string::StringExecFns;
use crate::text::{parse_timestamp, all_dec_digits, dec_value};

verus! {

/// One post of the short-status feed, normalized. `date` is a unix timestamp
/// in seconds.
pub struct StatusLolPost {
    pub key: String,
    pub permalink: String,
    pub date: i64,
    pub content: String,
    pub emoji: String,
    pub original_url: String,
}

impl StatusLolPost {
    pub fn new(
        key: String,
        permalink: String,
        date: i64,
        content: String,
        emoji: String,
        original_url: String,
    ) -> (p: StatusLolPost)
        ensures
            p == (StatusLolPost { key, permalink, date, content, emoji, original_url }),
    {
        StatusLolPost { key, permalink, date, content, emoji, original_url }
    }

    pub fn key(&self) -> (r: &str)
        ensures
            r@ == self.key@,
    {
        self.key.as_str()
    }

    pub fn permalink(&self) -> (r: &str)
        ensures
            r@ == self.permalink@,
    {
        self.permalink.as_str()
    }

    pub fn date(&self) -> (r: i64)
        ensures
            r == self.date,
    {
        self.date
    }

    pub fn content(&self) -> (r: &str)
        ensures
            r@ == self.content@,
    {
        self.content.as_str()
    }

    pub fn emoji(&self) -> (r: &str)
        ensures
            r@ == self.emoji@,
    {
        self.emoji.as_str()
    }

    pub fn original_url(&self) -> (r: &str)
        ensures
            r@ == self.original_url@,
    {
        self.original_url.as_str()
    }
}

impl Clone for StatusLolPost {
    fn clone(&self) -> (r: StatusLolPost)
        ensures
            r == *self,
    {
        StatusLolPost {
            key: self.key.clone(),
            permalink: self.permalink.clone(),
            date: self.date,
            content: self.content.clone(),
            emoji: self.emoji.clone(),
            original_url: self.original_url.clone(),
        }
    }
}

/// The status feed's posts, in upstream order.
pub struct StatusLolPosts {
    posts: Vec<StatusLolPost>,
}

impl StatusLolPosts {
    pub closed spec fn posts_seq(&self) -> Seq<StatusLolPost> {
        self.posts@
    }

    pub fn new() -> (r: StatusLolPosts)
        ensures
            r.posts_seq() == Seq::<StatusLolPost>::empty(),
    {
        StatusLolPosts { posts: Vec::new() }
    }

    /// Appends `posts`, keeping the order they arrive in.
    pub fn add_posts(&mut self, posts: Vec<StatusLolPost>)
        ensures
            final(self).posts_seq() == old(self).posts_seq() + posts@,
    {
        let mut posts = posts;
        self.posts.append(&mut posts);
    }

    pub fn posts(&self) -> (r: &Vec<StatusLolPost>)
        ensures
            r@ == self.posts_seq(),
    {
        &self.posts
    }
}

impl Clone for StatusLolPosts {
    fn clone(&self) -> (r: StatusLolPosts)
        ensures
            r.posts_seq() == self.posts_seq(),
    {
        let mut posts: Vec<StatusLolPost> = Vec::new();
        let mut i: usize = 0;
        while i < self.posts.len()
            invariant
                i <= self.posts@.len(),
                posts@.len() == i,
                forall|k: int| 0 <= k < i ==> #[trigger] posts@[k] == self.posts@[k],
            decreases self.posts@.len() - i,
        {
            posts.push(self.posts[i].clone());
            i += 1;
        }
        assert(posts@ =~= self.posts@);
        StatusLolPosts { posts }
    }
}

/// One post as the status feed's API returns it: `created` is a unix
/// timestamp carried as a string of decimal digits.
pub struct ApiStatusLolPost {
    pub id: String,
    pub address: String,
    pub created: String,
    pub relative_time: String,
    pub emoji: String,
    pub content: String,
    pub external_url: Option<String>,
}

impl ApiStatusLolPost {
    pub fn new(
        id: String,
        address: String,
        created: String,
        relative_time: String,
        emoji: String,
        content: String,
        external_url: Option<String>,
    ) -> (p: ApiStatusLolPost)
        ensures
            p == (ApiStatusLolPost { id, address, created, relative_time, emoji, content, external_url }),
    {
        ApiStatusLolPost { id, address, created, relative_time, emoji, content, external_url }
    }
}

/// The timestamp a post's `created` field denotes: its decimal value when it
/// is a well-formed timestamp, else `now` (the moment the post is read).
pub open spec fn post_date(created: Seq<char>, now: i64) -> int {
    if created.len() > 0 && all_dec_digits(created) && dec_value(created) <= i64::MAX {
        dec_value(created)
    } else {
        now as int
    }
}

/// How a normalized post relates to the API post it came from: key, permalink
/// and original URL are derived from the id and address, the timestamp is the
/// `created` field's value (or `now` where it is malformed), and content and
/// emoji carry over.
pub open spec fn post_matches_api(p: StatusLolPost, a: ApiStatusLolPost, now: i64) -> bool {
    &&& p.key@ == "statuslol-"@ + a.id@
    &&& p.permalink@ == "/micros/statuslol-"@ + a.id@
    &&& p.original_url@ == "https://"@ + a.address@ + ".status.lol/"@ + a.id@
    &&& p.date == post_date(a.created@, now)
    &&& p.content@ == a.content@
    &&& p.emoji@ == a.emoji@
}

/// Normalizes one API post: derives the post's key, permalink and original
/// URL from its id and address, and reads its creation timestamp, falling
/// back to `now` when the timestamp is malformed.
pub fn post_from_api(post: &ApiStatusLolPost, now: i64) -> (r: StatusLolPost)
    ensures
        post_matches_api(r, *post, now),
{
    let key = String::from_str("statuslol-").concat(post.id.as_str());
    let permalink = String::from_str("/micros/statuslol-").concat(post.id.as_str());
    let original_url = String::from_str("https://").concat(post.address.as_str()).concat(
        ".status.lol/",
    ).concat(post.id.as_str());
    let date = match parse_timestamp(post.created.as_str()) {
        Some(v) => v,
        None => now,
    };
    assert(original_url@ =~= "https://"@ + post.address@ + ".status.lol/"@ + post.id@);
    StatusLolPost {
        key,
        permalink,
        date,
        content: post.content.clone(),
        emoji: post.emoji.clone(),
        original_url,
    }
}

} // verus!
