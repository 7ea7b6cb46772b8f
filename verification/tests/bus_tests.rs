use aggregator::bus::{Action, BusEvent, Queue};
use aggregator::error::DispatchError;
use aggregator::events::Event;
use aggregator::jobs::{Job, ReloadTarget};

#[test]
fn queue_is_fifo_and_bounded() {
    let mut q: Queue<u32, u32> = Queue::new(2);
    assert!(q.enqueue_job(1).is_ok());
    assert!(q.enqueue_job(2).is_ok());
    assert_eq!(q.enqueue_job(3), Err(DispatchError::Full));
    match q.next_action() {
        Action::RunJob(j) => assert_eq!(j, 1),
        _ => panic!("expected a job"),
    }
    match q.next_action() {
        Action::RunJob(j) => assert_eq!(j, 2),
        _ => panic!("expected a job"),
    }
    match q.next_action() {
        Action::Sleep => {}
        _ => panic!("expected sleep"),
    }
}

#[test]
fn jobs_drain_before_events() {
    let mut q: Queue<u32, &str> = Queue::new(10);
    q.enqueue_event("updated").unwrap();
    q.enqueue_job(7).unwrap();
    match q.next_action() {
        Action::RunJob(j) => assert_eq!(j, 7),
        _ => panic!("jobs come first"),
    }
    match q.next_action() {
        Action::LogEvent(e) => assert_eq!(e, "updated"),
        _ => panic!("then events"),
    }
    match q.next_action() {
        Action::Sleep => {}
        _ => panic!("then sleep"),
    }
}

#[test]
fn event_queue_is_bounded_too() {
    let mut q: Queue<u32, u32> = Queue::new(1);
    assert!(q.enqueue_event(1).is_ok());
    assert_eq!(q.enqueue_event(2), Err(DispatchError::Full));
}

#[test]
fn reload_all_plan_fans_out_one_job_per_domain() {
    let plan = Job::reload_all_data().plan();
    assert_eq!(
        plan.enqueue,
        vec![
            Job::reload_lego_data(),
            Job::reload_games_data(),
            Job::reload_status_lol_data(),
            Job::reload_about_data(),
            Job::reload_faq_data(),
        ]
    );
    assert_eq!(plan.reload, None);
    assert_eq!(plan.event, None);
}

#[test]
fn per_domain_plans_reload_and_announce() {
    let plan = Job::reload_lego_data().plan();
    assert!(plan.enqueue.is_empty());
    assert_eq!(plan.reload, Some(ReloadTarget::Lego));
    assert_eq!(plan.event, Some(Event::LegoRepoUpdated));

    let plan = Job::reload_games_data().plan();
    assert_eq!(plan.reload, Some(ReloadTarget::Games));
    assert_eq!(plan.event, Some(Event::GamesRepoUpdated));

    let plan = Job::reload_status_lol_data().plan();
    assert_eq!(plan.reload, Some(ReloadTarget::StatusLol));
    assert_eq!(plan.event, Some(Event::StatusLolRepoUpdated));

    let plan = Job::reload_about_data().plan();
    assert_eq!(plan.reload, Some(ReloadTarget::About));
    assert_eq!(plan.event, Some(Event::AboutRepoUpdated));

    let plan = Job::reload_faq_data().plan();
    assert_eq!(plan.reload, Some(ReloadTarget::Faq));
    assert_eq!(plan.event, Some(Event::FaqRepoUpdated));
}

#[test]
fn archive_plan_only_announces() {
    let plan = Job::load_all_data_from_archive().plan();
    assert!(plan.enqueue.is_empty());
    assert_eq!(plan.reload, None);
    assert_eq!(plan.event, Some(Event::LoadedFromArchive));
}

#[test]
fn event_names_for_logging() {
    assert_eq!(Event::loaded_from_archive().name(), "loaded_from_archive");
    assert_eq!(Event::lego_repo_updated().name(), "lego_repo.updated");
    assert_eq!(Event::games_repo_updated().name(), "games_repo.updated");
    assert_eq!(
        Event::status_lol_repo_updated().name(),
        "status_lol_repo.updated"
    );
    assert_eq!(Event::about_repo_updated().name(), "about_repo.updated");
    assert_eq!(Event::faq_repo_updated().name(), "faq_repo.updated");
}
