use travis_sudo::pipeline::{Outcome, PipelineResult, ProjectRef, Stage};
use travis_sudo::scheduler::Scheduler;

fn projects(n: usize) -> Vec<ProjectRef> {
    (0..n)
        .map(|i| ProjectRef {
            path: format!("/scan/p{}", i),
            label: format!("p{}", i),
        })
        .collect()
}

fn finished(p: &ProjectRef) -> PipelineResult {
    PipelineResult {
        project: p.clone(),
        stage: Stage::Done,
        outcome: Outcome::Success,
        url: None,
    }
}

#[test]
fn ten_projects_with_pool_of_five_yield_ten_results_each_once() {
    let mut sched = Scheduler::new(projects(10), 5).unwrap();
    let mut running: Vec<ProjectRef> = Vec::new();
    let mut dispatched = 0usize;
    loop {
        while let Some(p) = sched.dispatch() {
            running.push(p);
            dispatched += 1;
            assert!(running.len() <= 5);
        }
        match running.pop() {
            Some(p) => sched.record(finished(&p)),
            None => break,
        }
    }
    assert!(sched.idle());
    assert_eq!(dispatched, 10);

    let results = sched.into_results();
    assert_eq!(results.len(), 10);
    let mut labels: Vec<String> = results.iter().map(|r| r.project.label.clone()).collect();
    labels.sort();
    let expected: Vec<String> = (0..10).map(|i| format!("p{}", i)).collect();
    assert_eq!(labels, expected);
}

#[test]
fn dispatch_respects_the_pool_bound() {
    let mut sched = Scheduler::new(projects(10), 3).unwrap();
    let a = sched.dispatch().unwrap();
    let _b = sched.dispatch().unwrap();
    let _c = sched.dispatch().unwrap();
    assert!(sched.dispatch().is_none());

    sched.record(finished(&a));
    assert!(sched.dispatch().is_some());
}

#[test]
fn results_arrive_in_completion_order_not_submission_order() {
    let mut sched = Scheduler::new(projects(3), 3).unwrap();
    let mut running: Vec<ProjectRef> = Vec::new();
    while let Some(p) = sched.dispatch() {
        running.push(p);
    }
    // Record in the opposite order of dispatch.
    for p in running.iter() {
        sched.record(finished(p));
    }
    assert!(sched.idle());
    let results = sched.into_results();
    assert_eq!(results.len(), 3);
}

#[test]
fn empty_pool_is_refused() {
    assert!(Scheduler::new(projects(2), 0).is_none());
    assert!(Scheduler::new(Vec::new(), 1).is_some());
}

#[test]
fn no_projects_means_no_results() {
    let mut sched = Scheduler::new(Vec::new(), 5).unwrap();
    assert!(sched.dispatch().is_none());
    assert!(sched.idle());
    assert_eq!(sched.into_results().len(), 0);
}
