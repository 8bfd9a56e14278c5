use vstd::prelude::*;

verus! {

/// The body of a message on the sandbox queue.
#[derive(Clone, Debug)]
pub struct QueueBody {
    pub id: String,
}

/// What the worker keeps across events: whether its start event ran, and
/// the bodies of every queue message it has received, oldest first.
pub struct WorkerState {
    pub started: bool,
    pub received: Vec<QueueBody>,
}

impl WorkerState {
    /// The state of a worker before any event: not started, nothing received.
    pub fn new() -> (s: WorkerState)
        ensures
            !s.started,
            s.received@.len() == 0,
    {
        WorkerState { started: false, received: Vec::new() }
    }
}

/// The start event: records that the setup ran, and leaves the received
/// messages as they were.
pub fn start(state: &mut WorkerState)
    ensures
        final(state).started,
        final(state).received@ == old(state).received@,
{
    state.started = true;
}

/// The queue event: keeps the body of every message of the batch, in the
/// order of the batch, after those already received.
pub fn queue(state: &mut WorkerState, batch: Vec<QueueBody>)
    ensures
        final(state).received@ == old(state).received@ + batch@,
        final(state).started == old(state).started,
{
    let mut batch = batch;
    state.received.append(&mut batch);
}

} // verus!
