use vstd::prelude::*;
use crate::events::Event;

verus! {

// Jobs: the closed set of deferred work units the bus carries. A job is
// immutable once enqueued and consumed exactly once by the worker loop. What
// running a job means is a pure decision — `Job::plan` — that the loop's I/O
// shell carries out: enqueue follow-up jobs, reload one repository, then emit
// a completion event.

/// Seeds every repository from its archive, without a network fetch.
#[derive(Debug, Clone, Copy, PartialEq, Eq, Structural)]
pub struct LoadAllDataFromArchiveJob;

/// Enqueues one reload job per domain.
#[derive(Debug, Clone, Copy, PartialEq, Eq, Structural)]
pub struct ReloadAllDataJob;

/// Reloads the toy-collection repository.
#[derive(Debug, Clone, Copy, PartialEq, Eq, Structural)]
pub struct RealoadLegoDataJob;

/// Reloads the game-library repository.
#[derive(Debug, Clone, Copy, PartialEq, Eq, Structural)]
pub struct ReloadGamesDataJob;

/// Reloads the short-status repository.
#[derive(Debug, Clone, Copy, PartialEq, Eq, Structural)]
pub struct ReloadStatusLolDataJob;

/// Reloads the about-text repository.
#[derive(Debug, Clone, Copy, PartialEq, Eq, Structural)]
pub struct ReloadAboutDataJob;

/// Reloads the FAQ-text repository.
#[derive(Debug, Clone, Copy, PartialEq, Eq, Structural)]
pub struct ReloadFaqDataJob;

/// One unit of deferred work.
#[derive(Debug, Clone, Copy, PartialEq, Eq, Structural)]
pub enum Job {
    LoadAllDataFromArchive(LoadAllDataFromArchiveJob),
    ReloadAllData(ReloadAllDataJob),
    ReloadLegoData(RealoadLegoDataJob),
    ReloadGamesData(ReloadGamesDataJob),
    ReloadStatusLolData(ReloadStatusLolDataJob),
    ReloadAboutData(ReloadAboutDataJob),
    ReloadFaqData(ReloadFaqDataJob),
}

/// Which repository a job asks to reload.
#[derive(Debug, Clone, Copy, PartialEq, Eq, Structural)]
pub enum ReloadTarget {
    Lego,
    Games,
    StatusLol,
    About,
    Faq,
}

/// What carrying out one job amounts to: follow-up jobs to enqueue, at most
/// one repository to reload, and at most one event to emit once done.
pub struct JobPlan {
    pub enqueue: Vec<Job>,
    pub reload: Option<ReloadTarget>,
    pub event: Option<Event>,
}

impl Job {
    pub fn load_all_data_from_archive() -> (j: Job)
        ensures
            j == Job::LoadAllDataFromArchive(LoadAllDataFromArchiveJob),
    {
        Job::LoadAllDataFromArchive(LoadAllDataFromArchiveJob)
    }

    pub fn reload_all_data() -> (j: Job)
        ensures
            j == Job::ReloadAllData(ReloadAllDataJob),
    {
        Job::ReloadAllData(ReloadAllDataJob)
    }

    pub fn reload_lego_data() -> (j: Job)
        ensures
            j == Job::ReloadLegoData(RealoadLegoDataJob),
    {
        Job::ReloadLegoData(RealoadLegoDataJob)
    }

    pub fn reload_games_data() -> (j: Job)
        ensures
            j == Job::ReloadGamesData(ReloadGamesDataJob),
    {
        Job::ReloadGamesData(ReloadGamesDataJob)
    }

    pub fn reload_status_lol_data() -> (j: Job)
        ensures
            j == Job::ReloadStatusLolData(ReloadStatusLolDataJob),
    {
        Job::ReloadStatusLolData(ReloadStatusLolDataJob)
    }

    pub fn reload_about_data() -> (j: Job)
        ensures
            j == Job::ReloadAboutData(ReloadAboutDataJob),
    {
        Job::ReloadAboutData(ReloadAboutDataJob)
    }

    pub fn reload_faq_data() -> (j: Job)
        ensures
            j == Job::ReloadFaqData(ReloadFaqDataJob),
    {
        Job::ReloadFaqData(ReloadFaqDataJob)
    }

    /// The exhaustive dispatch over the job variants: a reload-all job fans
    /// out into one reload job per domain (and reloads nothing itself); each
    /// per-domain job reloads its repository and then emits that domain's
    /// updated event; the archive job only announces that the archive was
    /// loaded.
    pub fn plan(&self) -> (p: JobPlan)
        ensures
            match *self {
                Job::LoadAllDataFromArchive(_) => p.enqueue@ == Seq::<Job>::empty() && p.reload
                    is None && p.event == Some(Event::LoadedFromArchive),
                Job::ReloadAllData(_) => p.enqueue@ == seq![
                    Job::ReloadLegoData(RealoadLegoDataJob),
                    Job::ReloadGamesData(ReloadGamesDataJob),
                    Job::ReloadStatusLolData(ReloadStatusLolDataJob),
                    Job::ReloadAboutData(ReloadAboutDataJob),
                    Job::ReloadFaqData(ReloadFaqDataJob),
                ] && p.reload is None && p.event is None,
                Job::ReloadLegoData(_) => p.enqueue@ == Seq::<Job>::empty() && p.reload == Some(
                    ReloadTarget::Lego,
                ) && p.event == Some(Event::LegoRepoUpdated),
                Job::ReloadGamesData(_) => p.enqueue@ == Seq::<Job>::empty() && p.reload == Some(
                    ReloadTarget::Games,
                ) && p.event == Some(Event::GamesRepoUpdated),
                Job::ReloadStatusLolData(_) => p.enqueue@ == Seq::<Job>::empty() && p.reload
                    == Some(ReloadTarget::StatusLol) && p.event == Some(
                    Event::StatusLolRepoUpdated,
                ),
                Job::ReloadAboutData(_) => p.enqueue@ == Seq::<Job>::empty() && p.reload == Some(
                    ReloadTarget::About,
                ) && p.event == Some(Event::AboutRepoUpdated),
                Job::ReloadFaqData(_) => p.enqueue@ == Seq::<Job>::empty() && p.reload == Some(
                    ReloadTarget::Faq,
                ) && p.event == Some(Event::FaqRepoUpdated),
            },
    {
        match self {
            Job::LoadAllDataFromArchive(_) => JobPlan {
                enqueue: Vec::new(),
                reload: None,
                event: Some(Event::LoadedFromArchive),
            },
            Job::ReloadAllData(_) => {
                let mut enqueue: Vec<Job> = Vec::new();
                enqueue.push(Job::ReloadLegoData(RealoadLegoDataJob));
                enqueue.push(Job::ReloadGamesData(ReloadGamesDataJob));
                enqueue.push(Job::ReloadStatusLolData(ReloadStatusLolDataJob));
                enqueue.push(Job::ReloadAboutData(ReloadAboutDataJob));
                enqueue.push(Job::ReloadFaqData(ReloadFaqDataJob));
                assert(enqueue@ =~= seq![
                    Job::ReloadLegoData(RealoadLegoDataJob),
                    Job::ReloadGamesData(ReloadGamesDataJob),
                    Job::ReloadStatusLolData(ReloadStatusLolDataJob),
                    Job::ReloadAboutData(ReloadAboutDataJob),
                    Job::ReloadFaqData(ReloadFaqDataJob),
                ]);
                JobPlan { enqueue, reload: None, event: None }
            },
            Job::ReloadLegoData(_) => JobPlan {
                enqueue: Vec::new(),
                reload: Some(ReloadTarget::Lego),
                event: Some(Event::LegoRepoUpdated),
            },
            Job::ReloadGamesData(_) => JobPlan {
                enqueue: Vec::new(),
                reload: Some(ReloadTarget::Games),
                event: Some(Event::GamesRepoUpdated),
            },
            Job::ReloadStatusLolData(_) => JobPlan {
                enqueue: Vec::new(),
                reload: Some(ReloadTarget::StatusLol),
                event: Some(Event::StatusLolRepoUpdated),
            },
            Job::ReloadAboutData(_) => JobPlan {
                enqueue: Vec::new(),
                reload: Some(ReloadTarget::About),
                event: Some(Event::AboutRepoUpdated),
            },
            Job::ReloadFaqData(_) => JobPlan {
                enqueue: Vec::new(),
                reload: Some(ReloadTarget::Faq),
                event: Some(Event::FaqRepoUpdated),
            },
        }
    }
}

} // verus!
