use vstd::prelude::*;
use crate::error::{Error, FetchError};
use crate::lego::LegoCollection;
use crate::status::{StatusLolPost, StatusLolPosts};

verus! {

// The combined source dataset: what one full load of every simple domain
// produces, and the published form served to readers.

/// The domains' data as loading accumulates it.
pub struct SourceData {
    status_lol: StatusLolPosts,
    lego: LegoCollection,
}

impl SourceData {
    pub closed spec fn status_lol_posts(&self) -> Seq<StatusLolPost> {
        self.status_lol.posts_seq()
    }

    pub closed spec fn lego_collection(&self) -> LegoCollection {
        self.lego
    }

    pub closed spec fn wf(&self) -> bool {
        self.lego.wf()
    }

    pub fn new() -> (r: SourceData)
        ensures
            r.wf(),
            r.status_lol_posts() == Seq::<StatusLolPost>::empty(),
            r.lego_collection().sets_seq() == Seq::<crate::lego::LegoSet>::empty(),
            r.lego_collection().minifigs_seq() == Seq::<crate::lego::LegoMinifig>::empty(),
    {
        SourceData { status_lol: StatusLolPosts::new(), lego: LegoCollection::new() }
    }

    pub fn status_lol(&self) -> (r: &StatusLolPosts)
        ensures
            r.posts_seq() == self.status_lol_posts(),
    {
        &self.status_lol
    }

    /// Appends freshly loaded posts to the feed data.
    pub fn add_status_lol_posts(&mut self, posts: Vec<StatusLolPost>)
        ensures
            final(self).status_lol_posts() == old(self).status_lol_posts() + posts@,
            final(self).lego_collection() == old(self).lego_collection(),
            final(self).wf() == old(self).wf(),
    {
        self.status_lol.add_posts(posts);
    }

    pub fn lego(&self) -> (r: &LegoCollection)
        ensures
            r == &self.lego_collection(),
    {
        &self.lego
    }

    /// Replaces the toy-collection data wholesale.
    pub fn set_lego(&mut self, lego: LegoCollection)
        ensures
            final(self).lego_collection() == lego,
            final(self).status_lol_posts() == old(self).status_lol_posts(),
            final(self).wf() == lego.wf(),
    {
        self.lego = lego;
    }
}

/// The published form of the combined dataset.
pub struct Data {
    status_lol: StatusLolPosts,
    lego: LegoCollection,
}

impl Data {
    pub closed spec fn status_lol_posts(&self) -> Seq<StatusLolPost> {
        self.status_lol.posts_seq()
    }

    pub closed spec fn lego_collection(&self) -> LegoCollection {
        self.lego
    }

    /// Publishes a loaded dataset: the published data mirrors the source
    /// exactly.
    pub fn from_source_data(source_data: &SourceData) -> (r: Result<Data, Error>)
        ensures
            r matches Ok(d) && d.status_lol_posts() == source_data.status_lol_posts()
                && d.lego_collection().sets_seq() == source_data.lego_collection().sets_seq()
                && d.lego_collection().minifigs_seq()
                == source_data.lego_collection().minifigs_seq()
                && d.lego_collection().sets_order_seq()
                == source_data.lego_collection().sets_order_seq()
                && d.lego_collection().minifigs_order_seq()
                == source_data.lego_collection().minifigs_order_seq()
                && d.lego_collection().total_pieces_val()
                == source_data.lego_collection().total_pieces_val(),
    {
        Ok(Data { status_lol: source_data.status_lol().clone(), lego: source_data.lego().clone() })
    }

    pub fn status_lol(&self) -> (r: &StatusLolPosts)
        ensures
            r.posts_seq() == self.status_lol_posts(),
    {
        &self.status_lol
    }

    pub fn lego(&self) -> (r: &LegoCollection)
        ensures
            r == &self.lego_collection(),
    {
        &self.lego
    }
}

/// Folds the outcome of one full load into the accumulated source data: a
/// domain that loaded replaces (or, for the feed, extends) its part; a domain
/// whose load failed leaves its part untouched, and the load as a whole still
/// succeeds.
pub fn load_source_data(
    source_data: SourceData,
    status_lol_posts: Result<Vec<StatusLolPost>, FetchError>,
    lego: Result<LegoCollection, FetchError>,
) -> (r: Result<SourceData, Error>)
    requires
        lego matches Ok(collection) ==> collection.wf(),
        source_data.wf(),
    ensures
        r matches Ok(d) && d.wf() && match status_lol_posts {
            Ok(posts) => d.status_lol_posts() == source_data.status_lol_posts() + posts@,
            Err(_) => d.status_lol_posts() == source_data.status_lol_posts(),
        } && match lego {
            Ok(collection) => d.lego_collection() == collection,
            Err(_) => d.lego_collection() == source_data.lego_collection(),
        },
{
    let mut source_data = source_data;
    match status_lol_posts {
        Ok(posts) => {
            source_data.add_status_lol_posts(posts);
        },
        Err(_) => {},
    }
    match lego {
        Ok(collection) => {
            source_data.set_lego(collection);
        },
        Err(_) => {},
    }
    Ok(source_data)
}

} // verus!
