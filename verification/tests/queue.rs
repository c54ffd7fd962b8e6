use git_auto_pull::queue::OperationQueue;

#[test]
fn rejects_duplicate_repository_tasks() {
    let mut queue = OperationQueue::new(2);
    queue.enqueue("one".into(), "等待更新".into()).unwrap();
    assert!(queue.enqueue("one".into(), "等待推送".into()).is_err());
}

#[test]
fn queues_tasks_when_concurrency_is_full() {
    let mut queue = OperationQueue::new(1);
    let (first, _) = queue.enqueue("one".into(), "等待更新".into()).unwrap();
    let (second, _) = queue.enqueue("two".into(), "等待更新".into()).unwrap();
    let first_permit = queue.wait(first).unwrap().unwrap();
    // The second task has to wait while the first one runs.
    assert!(queue.wait(second).unwrap().is_none());
    queue.release(first_permit);
    let permit = queue.wait(second).unwrap().unwrap();
    assert_eq!(permit.repository_id(), "two");
    queue.release(permit);
}

#[test]
fn increasing_concurrency_releases_waiting_tasks() {
    let mut queue = OperationQueue::new(1);
    let (first, _) = queue.enqueue("one".into(), "等待更新".into()).unwrap();
    let (second, _) = queue.enqueue("two".into(), "等待更新".into()).unwrap();
    let first_permit = queue.wait(first).unwrap().unwrap();
    assert!(queue.wait(second).unwrap().is_none());
    queue.set_limit(2);
    let permit = queue.wait(second).unwrap().unwrap();
    queue.release(permit);
    queue.release(first_permit);
}

#[test]
fn running_tasks_are_refused_and_positions_count_from_one() {
    let mut queue = OperationQueue::new(3);
    let (t1, p1) = queue.enqueue("a".into(), "x".into()).unwrap();
    let (t2, p2) = queue.enqueue("b".into(), "y".into()).unwrap();
    assert_eq!((t1, p1), (1, 1));
    assert_eq!((t2, p2), (2, 2));
    let permit = queue.wait(t1).unwrap().unwrap();
    assert_eq!(queue.enqueue("a".into(), "z".into()).unwrap_err(), "该项目正在执行 Git 任务");
    assert_eq!(queue.enqueue("b".into(), "z".into()).unwrap_err(), "该项目已在 Git 任务队列中");
    assert!(queue.contains("a"));
    assert!(queue.contains("b"));
    assert!(!queue.contains("c"));
    queue.release(permit);
    assert!(!queue.contains("a"));
    assert!(queue.enqueue("a".into(), "again".into()).is_ok());
}

#[test]
fn only_the_first_in_line_starts() {
    let mut queue = OperationQueue::new(8);
    let (t1, _) = queue.enqueue("a".into(), "x".into()).unwrap();
    let (t2, _) = queue.enqueue("b".into(), "y".into()).unwrap();
    assert!(queue.wait(t2).unwrap().is_none());
    assert!(queue.wait(t1).unwrap().is_some());
    assert!(queue.wait(t2).unwrap().is_some());
    assert_eq!(queue.wait(99).err().unwrap(), "任务已从队列中移除");
}

#[test]
fn limits_are_clamped_and_snapshots_show_the_queue() {
    let mut queue = OperationQueue::new(0);
    assert_eq!(queue.snapshot().limit, 1);
    queue.set_limit(100);
    assert_eq!(queue.snapshot().limit, 8);
    let (t, _) = queue.enqueue("a".into(), "label-a".into()).unwrap();
    queue.enqueue("b".into(), "label-b".into()).unwrap();
    let _permit = queue.wait(t).unwrap().unwrap();
    let snapshot = queue.snapshot();
    assert_eq!(snapshot.active, vec!["a".to_string()]);
    assert_eq!(snapshot.waiting, vec![("b".to_string(), "label-b".to_string())]);
}

#[test]
fn later_tickets_wait_for_earlier_ones() {
    let mut queue = OperationQueue::new(8);
    let (first, _) = queue.enqueue("one".into(), "等待更新".into()).unwrap();
    let (second, _) = queue.enqueue("two".into(), "等待更新".into()).unwrap();
    assert!(first < second);
    assert!(queue.wait(second).unwrap().is_none());
    let permit = queue.wait(first).unwrap().unwrap();
    assert_eq!(permit.repository_id(), "one");
    assert!(queue.wait(second).unwrap().is_some());
}

#[test]
fn running_tasks_stay_within_the_limit() {
    let mut queue = OperationQueue::new(2);
    let mut permits = Vec::new();
    for id in ["a", "b", "c"] {
        let (ticket, _) = queue.enqueue(id.into(), "等待更新".into()).unwrap();
        if let Ok(Some(p)) = queue.wait(ticket) {
            permits.push(p);
        }
        let s = queue.snapshot();
        assert!(1 <= s.limit && s.limit <= 8 && s.active.len() <= s.limit);
    }
    assert_eq!(permits.len(), 2);
    assert_eq!(queue.snapshot().waiting.len(), 1);
}
