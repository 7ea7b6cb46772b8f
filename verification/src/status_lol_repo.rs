use vstd::prelude::*;
use crate::error::{Error, FetchError};
use crate::status::{ApiStatusLolPost, StatusLolPost, post_from_api, post_matches_api};
use crate::store::Store;

verus! {

// The short-status repository. A reload fetches the feed's posts in one
// request and publishes them as the snapshot; readers receive them
// normalized.

/// The outcome the feed reports for the request itself.
pub struct StatusLolRequestValue {
    pub status_code: u16,
    pub success: bool,
}

impl StatusLolRequestValue {
    pub fn new(status_code: u16, success: bool) -> (r: StatusLolRequestValue)
        ensures
            r == (StatusLolRequestValue { status_code, success }),
    {
        StatusLolRequestValue { status_code, success }
    }
}

/// The payload of the feed's answer: a message and the posts.
pub struct ApiStatusLolResponseValue {
    pub message: String,
    pub statuses: Vec<ApiStatusLolPost>,
}

impl ApiStatusLolResponseValue {
    pub fn new(message: String, statuses: Vec<ApiStatusLolPost>) -> (r: ApiStatusLolResponseValue)
        ensures
            r.message == message,
            r.statuses == statuses,
    {
        ApiStatusLolResponseValue { message, statuses }
    }
}

/// The feed's whole answer.
pub struct StatusLolResponse {
    pub request: StatusLolRequestValue,
    pub response: ApiStatusLolResponseValue,
}

impl StatusLolResponse {
    pub fn new(request: StatusLolRequestValue, response: ApiStatusLolResponseValue) -> (r:
        StatusLolResponse)
        ensures
            r.request == request,
            r.response == response,
    {
        StatusLolResponse { request, response }
    }
}

/// The short-status repository: owns the feed snapshot store.
pub struct StatusLolRepo {
    store: Store<Vec<ApiStatusLolPost>>,
}

impl StatusLolRepo {
    /// The posts the current snapshot holds, as the feed returned them.
    pub closed spec fn posts_raw(&self) -> Seq<ApiStatusLolPost> {
        self.store@@
    }

    pub closed spec fn wf(&self) -> bool {
        self.store.wf()
    }

    pub fn new() -> (r: StatusLolRepo)
        ensures
            r.wf(),
            r.posts_raw() == Seq::<ApiStatusLolPost>::empty(),
    {
        StatusLolRepo { store: Store::new(Vec::new()) }
    }

    /// One full refresh cycle over an already-fetched answer. On a fetch
    /// failure the current snapshot stays untouched and the error is
    /// returned; otherwise the answer's posts become the new snapshot.
    pub fn reload(&mut self, fetched: Result<StatusLolResponse, FetchError>) -> (r: Result<
        (),
        FetchError,
    >)
        requires
            old(self).wf(),
        ensures
            final(self).wf(),
            match fetched {
                Ok(response) => r is Ok && final(self).posts_raw() == response.response.statuses@,
                Err(e) => r == Err::<(), FetchError>(e) && final(self).posts_raw() == old(
                    self,
                ).posts_raw(),
            },
    {
        match fetched {
            Err(e) => Err(e),
            Ok(response) => {
                self.store.replace(response.response.statuses);
                Ok(())
            },
        }
    }

    /// The current snapshot's posts, normalized. `now` stands in for the
    /// creation time of any post whose timestamp is malformed.
    pub fn get_status_lol_posts(&self, now: i64) -> (r: Result<Vec<StatusLolPost>, Error>)
        requires
            self.wf(),
        ensures
            r matches Ok(posts) && posts@.len() == self.posts_raw().len() && forall|k: int|
                0 <= k < posts@.len() ==> post_matches_api(
                    #[trigger] posts@[k],
                    self.posts_raw()[k],
                    now,
                ),
    {
        let raw = self.store.read();
        let mut posts: Vec<StatusLolPost> = Vec::new();
        let mut i: usize = 0;
        while i < raw.len()
            invariant
                raw@ == self.posts_raw(),
                i <= raw@.len(),
                posts@.len() == i,
                forall|k: int|
                    0 <= k < i ==> post_matches_api(#[trigger] posts@[k], raw@[k], now),
            decreases raw@.len() - i,
        {
            posts.push(post_from_api(&raw[i], now));
            i += 1;
        }
        Ok(posts)
    }
}

} // verus!
