use vstd::prelude::*;
use crate::bus::BusEvent;

verus! {

/// A fact that already happened, emitted by a job after it completes. Events
/// are informational: the worker loop only logs their names.
#[derive(Debug, Clone, Copy, PartialEq, Eq, Structural)]
pub enum Event {
    LoadedFromArchive,
    LegoRepoUpdated,
    GamesRepoUpdated,
    StatusLolRepoUpdated,
    AboutRepoUpdated,
    FaqRepoUpdated,
}

impl BusEvent for Event {
    fn name(&self) -> (r: &'static str)
        ensures
            *self is LoadedFromArchive ==> r@ == "loaded_from_archive"@,
            *self is LegoRepoUpdated ==> r@ == "lego_repo.updated"@,
            *self is GamesRepoUpdated ==> r@ == "games_repo.updated"@,
            *self is StatusLolRepoUpdated ==> r@ == "status_lol_repo.updated"@,
            *self is AboutRepoUpdated ==> r@ == "about_repo.updated"@,
            *self is FaqRepoUpdated ==> r@ == "faq_repo.updated"@,
    {
        match self {
            Event::LoadedFromArchive => "loaded_from_archive",
            Event::LegoRepoUpdated => "lego_repo.updated",
            Event::GamesRepoUpdated => "games_repo.updated",
            Event::StatusLolRepoUpdated => "status_lol_repo.updated",
            Event::AboutRepoUpdated => "about_repo.updated",
            Event::FaqRepoUpdated => "faq_repo.updated",
        }
    }
}

impl Event {
    pub fn loaded_from_archive() -> (e: Event)
        ensures
            e == Event::LoadedFromArchive,
    {
        Event::LoadedFromArchive
    }

    pub fn lego_repo_updated() -> (e: Event)
        ensures
            e == Event::LegoRepoUpdated,
    {
        Event::LegoRepoUpdated
    }

    pub fn games_repo_updated() -> (e: Event)
        ensures
            e == Event::GamesRepoUpdated,
    {
        Event::GamesRepoUpdated
    }

    pub fn status_lol_repo_updated() -> (e: Event)
        ensures
            e == Event::StatusLolRepoUpdated,
    {
        Event::StatusLolRepoUpdated
    }

    pub fn about_repo_updated() -> (e: Event)
        ensures
            e == Event::AboutRepoUpdated,
    {
        Event::AboutRepoUpdated
    }

    pub fn faq_repo_updated() -> (e: Event)
        ensures
            e == Event::FaqRepoUpdated,
    {
        Event::FaqRepoUpdated
    }
}

} // verus!
