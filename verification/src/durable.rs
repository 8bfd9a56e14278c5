use crate::routes::{bool_text, push_bool};
use vstd::prelude::*;

verus! {

/// The storage key under which the alarm object records that its alarm ran.
pub open spec fn flag_key() -> Seq<char> {
    "alarmed"@
}

/// The message an older storage binding gives for a key it does not hold.
pub open spec fn missing_value_message() -> Seq<char> {
    "No such value in storage."@
}

/// How long after a first fetch the alarm is set to go off, in milliseconds.
pub open spec fn alarm_delay_ms() -> u64 {
    100
}

/// A storage operation the alarm object asks its host to perform.
pub enum StorageOp {
    /// Read the boolean stored under the key.
    Get(String),
    /// Store the boolean under the key.
    Put(String, bool),
}

/// What a fetch of the alarm object does next.
pub enum FetchStep {
    /// Set the object's alarm to go off this many milliseconds from now.
    ScheduleAlarm(u64),
    /// Answer 200 with this text.
    Respond(String),
    /// Fail the request with this error message.
    Fail(String),
}

/// What a fetch does next, as values.
pub enum FetchOutcome {
    ScheduleAlarm(u64),
    Respond(Seq<char>),
    Fail(Seq<char>),
}

impl FetchStep {
    pub open spec fn outcome(self) -> FetchOutcome {
        match self {
            FetchStep::ScheduleAlarm(ms) => FetchOutcome::ScheduleAlarm(ms),
            FetchStep::Respond(s) => FetchOutcome::Respond(s@),
            FetchStep::Fail(s) => FetchOutcome::Fail(s@),
        }
    }
}

/// A storage answer, as values.
pub open spec fn result_text<T>(r: Result<T, String>) -> Result<T, Seq<char>> {
    match r {
        Ok(v) => Ok(v),
        Err(e) => Err(e@),
    }
}

/// Whether a read of the flag found nothing stored: no value, or the older
/// binding's "No such value in storage." error.
pub open spec fn flag_missing(read: Result<Option<bool>, Seq<char>>) -> bool {
    ||| read == Ok::<Option<bool>, Seq<char>>(None)
    ||| read == Err::<Option<bool>, Seq<char>>(missing_value_message())
}

/// What a fetch does once the flag has been read: answer with the stored
/// flag; when none is stored, set the alarm; pass any other error on.
pub open spec fn after_flag_read(read: Result<Option<bool>, Seq<char>>) -> FetchOutcome {
    if flag_missing(read) {
        FetchOutcome::ScheduleAlarm(alarm_delay_ms())
    } else {
        match read {
            Ok(Some(b)) => FetchOutcome::Respond(bool_text(b)),
            Ok(None) => FetchOutcome::ScheduleAlarm(alarm_delay_ms()),
            Err(e) => FetchOutcome::Fail(e),
        }
    }
}

/// What a fetch does once setting the alarm was answered: report that the
/// alarm has not run yet, or pass the error on.
pub open spec fn after_alarm_set(set: Result<(), Seq<char>>) -> FetchOutcome {
    match set {
        Ok(()) => FetchOutcome::Respond(bool_text(false)),
        Err(e) => FetchOutcome::Fail(e),
    }
}

/// What the alarm handler does once storing the flag was answered.
pub open spec fn after_flag_stored(put: Result<(), Seq<char>>) -> Result<Seq<char>, Seq<char>> {
    match put {
        Ok(()) => Ok("ALARMED"@),
        Err(e) => Err(e),
    }
}

/// A durable object that schedules an alarm on its first fetch and records,
/// when the alarm goes off, that it did. The host keeps the object's storage
/// and runs the storage operations these methods ask for.
pub struct AlarmObject {}

impl AlarmObject {
    /// A new alarm object.
    pub fn new() -> (o: AlarmObject) {
        AlarmObject {}
    }

    /// Starts a fetch: read the flag.
    pub fn fetch(&self) -> (op: StorageOp)
        ensures
            op matches StorageOp::Get(k) && k@ == flag_key(),
    {
        StorageOp::Get("alarmed".to_owned())
    }

    /// Goes on with a fetch once the flag read was answered.
    pub fn fetch_after_read(&self, read: Result<Option<bool>, String>) -> (step: FetchStep)
        ensures
            step.outcome() == after_flag_read(result_text(read)),
    {
        match read {
            Ok(Some(b)) => {
                let mut text = String::new();
                push_bool(&mut text, b);
                assert(text@ =~= bool_text(b));
                FetchStep::Respond(text)
            },
            Ok(None) => FetchStep::ScheduleAlarm(100),
            Err(e) => {
                let missing = "No such value in storage.".to_owned();
                if e == missing {
                    FetchStep::ScheduleAlarm(100)
                } else {
                    FetchStep::Fail(e)
                }
            },
        }
    }

    /// Ends a fetch once setting the alarm was answered.
    pub fn fetch_after_alarm_set(&self, set: Result<(), String>) -> (step: FetchStep)
        ensures
            step.outcome() == after_alarm_set(result_text(set)),
    {
        match set {
            Ok(()) => {
                let mut text = String::new();
                push_bool(&mut text, false);
                assert(text@ =~= bool_text(false));
                FetchStep::Respond(text)
            },
            Err(e) => FetchStep::Fail(e),
        }
    }

    /// Starts the alarm handler: store `true` under the flag key.
    pub fn alarm(&self) -> (op: StorageOp)
        ensures
            op matches StorageOp::Put(k, v) && k@ == flag_key() && v,
    {
        StorageOp::Put("alarmed".to_owned(), true)
    }

    /// Ends the alarm handler once storing the flag was answered: the text
    /// to answer 200 with, or the error to fail with.
    pub fn alarm_after_put(&self, put: Result<(), String>) -> (r: Result<String, String>)
        ensures
            (match r {
                Ok(t) => Ok::<Seq<char>, Seq<char>>(t@),
                Err(e) => Err(e@),
            }) == after_flag_stored(result_text(put)),
    {
        match put {
            Ok(()) => Ok("ALARMED".to_owned()),
            Err(e) => Err(e),
        }
    }
}

/// What a storage that gives back what was last stored answers to a read of `key`.
pub open spec fn stored(store: Map<Seq<char>, bool>, key: Seq<char>) -> Result<Option<bool>, Seq<char>> {
    if store.dom().contains(key) {
        Ok(Some(store[key]))
    } else {
        Ok(None)
    }
}

/// Before the alarm has ever run (nothing is stored under the flag key), a
/// fetch sets the alarm to go off 100 ms later and, once it is set, answers
/// "false".
pub proof fn first_fetch_schedules_alarm(store: Map<Seq<char>, bool>)
    requires
        !store.dom().contains(flag_key()),
    ensures
        after_flag_read(stored(store, flag_key())) == FetchOutcome::ScheduleAlarm(100),
        after_alarm_set(Ok(())) == FetchOutcome::Respond("false"@),
{
}

/// Once the alarm handler has stored its flag, a fetch that reads it back
/// answers "true".
pub proof fn fetch_after_alarm_answers_true(store: Map<Seq<char>, bool>)
    ensures
        after_flag_read(stored(store.insert(flag_key(), true), flag_key())) == FetchOutcome::Respond("true"@),
        after_flag_stored(Ok(())) == Ok::<Seq<char>, Seq<char>>("ALARMED"@),
{
    assert(store.insert(flag_key(), true).dom().contains(flag_key()));
}

/// How to pick the durable object to forward to.
pub enum StubId {
    /// The object derived from this name.
    Named(String),
    /// A new object with a fresh unique id.
    Unique,
}

/// What to send to the durable object.
pub enum StubTarget {
    /// A request to this URL.
    Url(String),
    /// The incoming request itself.
    Incoming,
}

/// What to do when the namespace binding cannot be had.
pub enum MissingBinding {
    /// Fail the request with the binding's error.
    Propagate,
    /// Panic with this message.
    Abort(String),
}

/// A request forwarded to a durable object: the namespace binding, the object
/// within it, and what it is sent.
pub struct StubCall {
    pub binding: String,
    pub id: StubId,
    pub target: StubTarget,
    pub on_missing: MissingBinding,
}

/// How `handle_alarm` reaches the alarm object: the object named "alarm" in
/// the `ALARM` namespace, fetched at its alarm URL.
pub fn handle_alarm() -> (c: StubCall)
    ensures
        c.binding@ == "ALARM"@,
        c.id matches StubId::Named(n) && n@ == "alarm"@,
        c.target matches StubTarget::Url(u) && u@ == "https://fake-host/alarm"@,
        c.on_missing is Propagate,
{
    StubCall {
        binding: "ALARM".to_owned(),
        id: StubId::Named("alarm".to_owned()),
        target: StubTarget::Url("https://fake-host/alarm".to_owned()),
        on_missing: MissingBinding::Propagate,
    }
}

/// How `handle_id` reaches the counter: the object named "A" in the `COUNTER`
/// namespace, fetched at the root URL; a missing binding aborts.
pub fn handle_id() -> (c: StubCall)
    ensures
        c.binding@ == "COUNTER"@,
        c.id matches StubId::Named(n) && n@ == "A"@,
        c.target matches StubTarget::Url(u) && u@ == "https://fake-host/"@,
        c.on_missing matches MissingBinding::Abort(m) && m@ == "DAWJKHDAD"@,
{
    StubCall {
        binding: "COUNTER".to_owned(),
        id: StubId::Named("A".to_owned()),
        target: StubTarget::Url("https://fake-host/".to_owned()),
        on_missing: MissingBinding::Abort("DAWJKHDAD".to_owned()),
    }
}

/// How `handle_put_raw` reaches its object: a fresh object in the
/// `PUT_RAW_TEST_OBJECT` namespace, sent the incoming request itself.
pub fn handle_put_raw() -> (c: StubCall)
    ensures
        c.binding@ == "PUT_RAW_TEST_OBJECT"@,
        c.id is Unique,
        c.target is Incoming,
        c.on_missing is Propagate,
{
    StubCall {
        binding: "PUT_RAW_TEST_OBJECT".to_owned(),
        id: StubId::Unique,
        target: StubTarget::Incoming,
        on_missing: MissingBinding::Propagate,
    }
}

/// How `GET /durable/:id` reaches the counter: as `handle_id`, but a missing
/// binding fails the request instead of aborting.
pub fn durable_counter_call() -> (c: StubCall)
    ensures
        c.binding@ == "COUNTER"@,
        c.id matches StubId::Named(n) && n@ == "A"@,
        c.target matches StubTarget::Url(u) && u@ == "https://fake-host/"@,
        c.on_missing is Propagate,
{
    StubCall {
        binding: "COUNTER".to_owned(),
        id: StubId::Named("A".to_owned()),
        target: StubTarget::Url("https://fake-host/".to_owned()),
        on_missing: MissingBinding::Propagate,
    }
}

} // verus!
