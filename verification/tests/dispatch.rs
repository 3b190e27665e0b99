use logproject::channel::Channel;
use logproject::channel::SendOutcome;
use logproject::dispatch::dispatch_all;
use logproject::dispatch::worker_for_job;
use logproject::dispatch::Job;
use logproject::dispatch::WORKER_COUNT;
use logproject::report::decimal_string;
use logproject::report::worker_finish_line;
use logproject::report::worker_start_line;

#[test]
fn worker_assignment_is_id_mod_count_plus_one() {
    assert_eq!(WORKER_COUNT, 4);
    assert_eq!(worker_for_job(&Job { id: 0 }), 1);
    assert_eq!(worker_for_job(&Job { id: 1 }), 2);
    assert_eq!(worker_for_job(&Job { id: 3 }), 4);
    assert_eq!(worker_for_job(&Job { id: 4 }), 1);
    assert_eq!(worker_for_job(&Job { id: 19 }), 4);
}

#[test]
fn twenty_jobs_scenario() {
    // Job channel of capacity 20, 20 jobs with ids 0..19, four workers:
    // every job is handed out exactly once, none twice, none dropped.
    let mut ch: Channel<Job> = Channel::new(20);
    for id in 0..20 {
        assert_eq!(ch.send(Job { id }), SendOutcome::Sent);
    }
    ch.close();
    let invocations = dispatch_all(&mut ch);
    assert_eq!(invocations.len(), 20);
    let mut seen = [false; 20];
    for (worker, job) in invocations.iter() {
        assert_eq!(*worker, job.id % WORKER_COUNT + 1);
        assert!(!seen[job.id], "job processed twice");
        seen[job.id] = true;
    }
    assert!(seen.iter().all(|s| *s), "job silently dropped");
    // The dispatcher completed only after draining the whole queue.
    assert_eq!(ch.len(), 0);
}

#[test]
fn dispatch_preserves_queue_order() {
    let mut ch: Channel<Job> = Channel::new(4);
    assert_eq!(ch.send(Job { id: 9 }), SendOutcome::Sent);
    assert_eq!(ch.send(Job { id: 2 }), SendOutcome::Sent);
    ch.close();
    let invocations = dispatch_all(&mut ch);
    assert_eq!(invocations, vec![(2, Job { id: 9 }), (3, Job { id: 2 })]);
}

#[test]
fn dispatch_on_empty_closed_queue_yields_nothing() {
    let mut ch: Channel<Job> = Channel::new(1);
    ch.close();
    let invocations = dispatch_all(&mut ch);
    assert!(invocations.is_empty());
}

#[test]
fn decimal_rendering_exact() {
    assert_eq!(decimal_string(0), "0");
    assert_eq!(decimal_string(7), "7");
    assert_eq!(decimal_string(10), "10");
    assert_eq!(decimal_string(409), "409");
    assert_eq!(decimal_string(12345), "12345");
}

#[test]
fn worker_report_lines_exact() {
    assert_eq!(worker_start_line(2, 13), "Worker-2 processing Job-13");
    assert_eq!(worker_finish_line(2, 13), "Worker-2 finished Job-13");
    assert_eq!(worker_start_line(4, 0), "Worker-4 processing Job-0");
    assert_eq!(worker_finish_line(1, 19), "Worker-1 finished Job-19");
}
