use webmonitor_core::model::Job;
use webmonitor_core::scheduling::JobScheduler;

fn job(id: &str) -> Job {
    Job {
        id: String::from(id),
        name: format!("job {}", id),
        url: String::from("http://example.invalid/"),
        show_diff: false,
        interval: 5,
        filters: Vec::new(),
        notifications: Vec::new(),
    }
}

#[test]
fn fresh_scheduler_has_nothing_active() {
    let scheduler = JobScheduler::new();
    assert!(!scheduler.is_active("a"));
}

#[test]
fn scheduled_job_is_active() {
    let mut scheduler = JobScheduler::new();
    scheduler.schedule(&job("a"));
    assert!(scheduler.is_active("a"));
    assert!(!scheduler.is_active("b"));
}

#[test]
fn unscheduled_job_is_inactive() {
    let mut scheduler = JobScheduler::new();
    scheduler.schedule(&job("a"));
    scheduler.unschedule("a");
    assert!(!scheduler.is_active("a"));
}

#[test]
fn unschedule_of_unknown_id_changes_nothing() {
    let mut scheduler = JobScheduler::new();
    scheduler.schedule(&job("a"));
    scheduler.unschedule("b");
    assert!(scheduler.is_active("a"));
}

#[test]
fn duplicate_schedule_is_held_once() {
    let mut scheduler = JobScheduler::new();
    scheduler.schedule(&job("a"));
    scheduler.schedule(&job("a"));
    scheduler.unschedule("a");
    assert!(!scheduler.is_active("a"));
}

#[test]
fn operations_on_distinct_ids_are_independent() {
    let mut scheduler = JobScheduler::new();
    scheduler.schedule(&job("a"));
    scheduler.schedule(&job("b"));
    scheduler.unschedule("a");
    assert!(!scheduler.is_active("a"));
    assert!(scheduler.is_active("b"));
}

#[test]
fn many_schedules_then_unschedules_leave_the_set_empty() {
    let mut scheduler = JobScheduler::new();
    let ids: Vec<String> = (0..50).map(|i| format!("job-{}", i)).collect();
    for id in &ids {
        scheduler.schedule(&job(id));
    }
    for id in &ids {
        assert!(scheduler.is_active(id));
    }
    for id in &ids {
        scheduler.unschedule(id);
    }
    for id in &ids {
        assert!(!scheduler.is_active(id));
    }
}
