use zinnia::runtime::console_reporter::JobCompletionTracker;

fn default_tracker() -> JobCompletionTracker {
    JobCompletionTracker::new(0, 1000)
}

#[test]
fn tracker_prints_first_job_completion() {
    let mut reported = 0;
    let mut tracker = default_tracker();
    tracker.job_completed(|x| reported = x);
    assert_eq!(reported, 1);
}

#[test]
fn tracker_hides_next_job_completion() {
    let mut reported = 0;
    let mut tracker = default_tracker();
    tracker.job_completed(|x| reported = x);
    tracker.job_completed(|x| reported = x);
    assert_eq!(reported, 1);
}

#[test]
fn tracker_prints_new_jobs_after_delay() {
    let mut reported = 0;
    let mut tracker = JobCompletionTracker::new(0, 1);
    tracker.job_completed(|x| reported = x);
    let start = std::time::Instant::now();
    while start.elapsed() < std::time::Duration::from_millis(2) {}
    tracker.job_completed(|x| reported = x);
    assert_eq!(reported, 2);
}

#[test]
fn flush_prints_job_completion() {
    let mut reported = 0;
    let mut tracker = default_tracker();
    tracker.job_completed(|_| ());
    tracker.job_completed(|_| ());
    tracker.flush(|x| reported = x);
    assert_eq!(reported, 2);
}
