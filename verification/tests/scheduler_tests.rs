use tracer::renderer::{worker_tile_indices, JobQueue};

#[test]
fn job_queue_issues_each_job_once() {
    let mut q = JobQueue::new(5, 3);
    assert_eq!(q.total_jobs(), 15);
    let mut seen = [false; 15];
    while let Some(job) = q.next_job() {
        assert!(!seen[job]);
        seen[job] = true;
        assert_eq!(q.job_tile(job), job % 5);
        assert_eq!(q.job_pass(job), job / 5);
        q.complete_job();
    }
    assert!(seen.iter().all(|s| *s));
    assert!(q.is_finished());
}

#[test]
fn job_queue_zero_budget_makes_no_progress() {
    // A render call whose time budget is already spent dispatches nothing:
    // the queue state is untouched and the render is simply not finished.
    let mut q = JobQueue::new(4, 2);
    let first = q.next_job();
    assert_eq!(first, Some(0));
    assert!(!q.is_finished());
    assert_eq!(q.outstanding(), 1);
}

#[test]
fn job_queue_resumes_after_timeout() {
    // Simulate a render interrupted by a timeout after three results and
    // driven to completion by a later call: every job is still processed
    // exactly once, and only the last call reports the render finished.
    let mut q = JobQueue::new(3, 2);
    let mut issued: Vec<usize> = Vec::new();
    for _ in 0..3 {
        let job = q.next_job().unwrap();
        issued.push(job);
        q.complete_job();
    }
    assert!(!q.is_finished());
    while let Some(job) = q.next_job() {
        issued.push(job);
        q.complete_job();
    }
    assert!(q.is_finished());
    assert_eq!(issued, vec![0, 1, 2, 3, 4, 5]);
}

#[test]
fn job_queue_empty_render_is_finished_at_once() {
    let mut q = JobQueue::new(0, 4);
    assert!(q.is_finished());
    assert!(q.next_job().is_none());
}

#[test]
fn fanout_partitions_tiles() {
    let n_tiles = 10;
    let n_workers = 3;
    let mut owners = vec![0usize; n_tiles];
    let lists: Vec<Vec<usize>> = (0..n_workers)
        .map(|w| worker_tile_indices(w, n_workers, n_tiles))
        .collect();
    assert_eq!(lists[0], vec![0, 3, 6, 9]);
    assert_eq!(lists[1], vec![1, 4, 7]);
    assert_eq!(lists[2], vec![2, 5, 8]);
    for list in lists.iter() {
        for t in list.iter() {
            owners[*t] += 1;
        }
    }
    assert!(owners.iter().all(|c| *c == 1));
}

#[test]
fn fanout_more_workers_than_tiles() {
    let lists: Vec<Vec<usize>> = (0..5).map(|w| worker_tile_indices(w, 5, 2)).collect();
    assert_eq!(lists[0], vec![0]);
    assert_eq!(lists[1], vec![1]);
    assert!(lists[2].is_empty() && lists[3].is_empty() && lists[4].is_empty());
}
