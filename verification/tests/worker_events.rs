use worker_sandbox::queue::{queue, start, QueueBody, WorkerState};

fn body(id: &str) -> QueueBody {
    QueueBody { id: id.to_string() }
}

fn ids(state: &WorkerState) -> Vec<String> {
    state.received.iter().map(|b| b.id.clone()).collect()
}

#[test]
fn start_records_that_setup_ran() {
    let mut s = WorkerState::new();
    assert!(!s.started);
    start(&mut s);
    assert!(s.started);
    assert!(s.received.is_empty());
}

#[test]
fn queue_keeps_every_body_in_order() {
    let mut s = WorkerState::new();
    queue(&mut s, vec![body("a"), body("b")]);
    queue(&mut s, vec![]);
    queue(&mut s, vec![body("c")]);
    assert_eq!(ids(&s), vec!["a", "b", "c"]);
    assert!(!s.started);
}
