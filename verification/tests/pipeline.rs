use multistream::dispatcher::{Action, Dispatcher, LaunchOutcome, Received};
use multistream::job::Job;
use multistream::launcher::build_args;
use multistream::queue::{submit, Dequeued, JobQueue};

fn job(source: &str, name: &str) -> Job {
    Job::new(source.to_string(), name.to_string())
}

fn strings(parts: &[&str]) -> Vec<String> {
    parts.iter().map(|p| p.to_string()).collect()
}

#[test]
fn build_args_is_exact_literal() {
    let args = build_args(&job("https://x", "foo"));
    assert_eq!(args, strings(&["-r", "foo.ts", "https://x", "best"]));
}

#[test]
fn build_args_takes_fields_verbatim() {
    let args = build_args(&job("https://host/path?q=1", "name with spaces"));
    assert_eq!(
        args,
        strings(&["-r", "name with spaces.ts", "https://host/path?q=1", "best"])
    );
}

#[test]
fn empty_output_name_gets_bare_suffix() {
    let args = build_args(&job("https://x", ""));
    assert_eq!(args, strings(&["-r", ".ts", "https://x", "best"]));
}

#[test]
fn comma_in_a_field_does_not_corrupt_the_job() {
    let args = build_args(&job("https://x/a,b", "out,put"));
    assert_eq!(args, strings(&["-r", "out,put.ts", "https://x/a,b", "best"]));
}

#[test]
fn two_submissions_dispatch_in_order() {
    let mut q = JobQueue::new();
    submit(&mut q, "a.com/1".to_string(), "alpha".to_string());
    submit(&mut q, "b.com/2".to_string(), "beta".to_string());
    q.close();
    let mut d = Dispatcher::new();
    let outcomes = vec![LaunchOutcome::Launched, LaunchOutcome::Launched];
    let log = d.drain(&mut q, &outcomes);
    assert_eq!(log.attempts.len(), 2);
    assert_eq!(log.attempts[0], strings(&["-r", "alpha.ts", "a.com/1", "best"]));
    assert_eq!(log.attempts[1], strings(&["-r", "beta.ts", "b.com/2", "best"]));
    assert_eq!(log.statuses, vec![None, None]);
}

#[test]
fn n_jobs_means_n_launches_in_submission_order() {
    let sources = ["s.tv/1", "s.tv/2", "s.tv/3", "s.tv/4", "s.tv/5"];
    let mut q = JobQueue::new();
    for (i, src) in sources.iter().enumerate() {
        q.enqueue(job(src, &format!("out{}", i)));
    }
    q.close();
    let mut d = Dispatcher::new();
    let outcomes = vec![LaunchOutcome::Launched; sources.len()];
    let log = d.drain(&mut q, &outcomes);
    assert_eq!(log.attempts.len(), sources.len());
    for (i, src) in sources.iter().enumerate() {
        assert_eq!(log.attempts[i][2], src.to_string());
    }
    assert_eq!(q.len(), 0);
}

#[test]
fn enqueue_returns_at_any_depth() {
    let mut q = JobQueue::new();
    for i in 0..10_000 {
        q.enqueue(job("https://deep", &format!("n{}", i)));
    }
    assert_eq!(q.len(), 10_000);
    assert!(!q.is_closed());
}

#[test]
fn failure_does_not_block_the_next_job() {
    let mut q = JobQueue::new();
    q.enqueue(job("a.com/1", "one"));
    q.enqueue(job("b.com/2", "two"));
    q.enqueue(job("c.com/3", "three"));
    q.close();
    let mut d = Dispatcher::new();
    let outcomes = vec![
        LaunchOutcome::Failed,
        LaunchOutcome::Launched,
        LaunchOutcome::Failed,
    ];
    let log = d.drain(&mut q, &outcomes);
    assert_eq!(log.attempts.len(), 3);
    assert_eq!(log.attempts[1], strings(&["-r", "two.ts", "b.com/2", "best"]));
    assert_eq!(log.statuses[0], Some("Launch failed for 'a.com/1'".to_string()));
    assert_eq!(log.statuses[1], None);
    assert_eq!(log.statuses[2], Some("Launch failed for 'c.com/3'".to_string()));
}

#[test]
fn burst_of_enqueues_loses_and_duplicates_nothing() {
    let sources = ["p.tv/a", "p.tv/b", "p.tv/c", "p.tv/d"];
    let mut q = JobQueue::new();
    for src in sources.iter() {
        q.enqueue(job(src, "n"));
    }
    assert_eq!(q.len(), sources.len());
    let mut seen: Vec<String> = Vec::new();
    loop {
        match q.dequeue() {
            Dequeued::Job(j) => seen.push(j.source),
            Dequeued::Pending => break,
            Dequeued::Closed => panic!("queue was never closed"),
        }
    }
    assert_eq!(seen, strings(&sources));
}

#[test]
fn pending_job_survives_a_close_race() {
    let mut q = JobQueue::new();
    q.enqueue(job("mid.flight/1", "late"));
    q.close();
    match q.dequeue() {
        Dequeued::Job(j) => assert_eq!(j.source, "mid.flight/1"),
        _ => panic!("the in-flight job was lost at close"),
    }
    assert!(matches!(q.dequeue(), Dequeued::Closed));
}

#[test]
fn empty_open_queue_reports_pending() {
    let mut q = JobQueue::new();
    assert!(matches!(q.dequeue(), Dequeued::Pending));
}

#[test]
fn empty_closed_queue_reports_end_of_stream() {
    let mut q = JobQueue::new();
    q.close();
    assert!(matches!(q.dequeue(), Dequeued::Closed));
    assert!(matches!(q.dequeue(), Dequeued::Closed));
}

#[test]
fn new_queue_is_empty_and_open() {
    let q = JobQueue::new();
    assert_eq!(q.len(), 0);
    assert!(!q.is_closed());
}

#[test]
fn submission_updates_the_status_line() {
    let mut q = JobQueue::new();
    let status = submit(&mut q, "https://x".to_string(), "foo".to_string());
    assert_eq!(status, "Pulling 'https://x'");
    assert_eq!(q.len(), 1);
}

#[test]
fn launch_failure_updates_the_status_line() {
    let mut d = Dispatcher::new();
    let j = job("https://x", "foo");
    let status = d.on_outcome(&j, LaunchOutcome::Failed);
    assert_eq!(status, Some("Launch failed for 'https://x'".to_string()));
    assert!(d.running);
}

#[test]
fn successful_launch_reports_no_status() {
    let mut d = Dispatcher::new();
    let j = job("https://x", "foo");
    assert_eq!(d.on_outcome(&j, LaunchOutcome::Launched), None);
    assert!(d.running);
}

#[test]
fn dispatcher_launches_each_received_job() {
    let mut d = Dispatcher::new();
    match d.on_message(Received::Job(job("a.com/1", "alpha"))) {
        Action::Launch(j, args) => {
            assert_eq!(j.source, "a.com/1");
            assert_eq!(args, strings(&["-r", "alpha.ts", "a.com/1", "best"]));
        }
        Action::Stop => panic!("a job must be launched, not stop the loop"),
    }
    assert!(d.running);
}

#[test]
fn dispatcher_stops_only_on_end_of_stream() {
    let mut d = Dispatcher::new();
    assert!(matches!(d.on_message(Received::Closed), Action::Stop));
    assert!(!d.running);
}
