use vstd::prelude::*;
use crate::items::{decode_records, decoded_prefix, RawItemDetails, SteamItemDetails, SteamItemInstanceID, INVALID_INSTANCE_ID};
use crate::registry::{releases, tears_down, HandleRegistry, INVALID_RESULT};

verus! {

/// How many times a query's status is polled before it times out.
pub const MAX_POLL_ATTEMPTS: u32 = 100;

/// The pause after each poll that did not find the query ready, in milliseconds.
pub const POLL_INTERVAL_MS: u64 = 100;

#[derive(Clone, Copy, Debug, PartialEq, Eq, Structural)]
pub enum InventoryError {
    /// The subsystem refused to start the operation.
    OperationFailed,
    /// A phase of the fill protocol failed.
    GetResultItemsFailed,
    /// The caller's input is structurally invalid.
    InvalidInput,
    /// The query never became ready within the polling budget.
    Timeout,
}

/// Where a retrieval of all items stands.
#[derive(Clone, Copy, Debug, PartialEq, Eq, Structural)]
pub enum QueryPhase {
    /// The query has not been started.
    Starting,
    /// The status of `handle` is to be polled; `attempts` polls came before.
    Polling { handle: i64, attempts: u32 },
    /// The caller sleeps after the `attempts`-th poll found the query not ready.
    Waiting { handle: i64, attempts: u32 },
    /// The fill call is to be made without a buffer, to learn the count.
    Sizing { handle: i64 },
    /// The fill call is to be made with a buffer of `capacity` records.
    Filling { handle: i64, capacity: u32 },
    /// The retrieval is over.
    Finished,
}

/// What the subsystem reported for the last action.
#[derive(Debug)]
pub enum QueryEvent {
    /// The query call returned `ok` and wrote `handle`.
    Started { ok: bool, handle: i64 },
    /// The status poll found the query ready, or not.
    Status { ready: bool },
    /// The pause is over.
    Slept,
    /// The sizing fill call returned `ok` and reported `count`.
    Counted { ok: bool, count: u32 },
    /// The filling call returned `ok`, reported `count`, and left `records` in the buffer.
    Filled { ok: bool, count: u32, records: Vec<RawItemDetails> },
}

/// What the caller is to do next.
#[derive(Debug)]
pub enum QueryAction {
    /// Ask the subsystem to start a query of all items.
    StartQuery,
    /// Ask for the status of `handle`.
    PollStatus { handle: i64 },
    /// Sleep for `millis` milliseconds.
    Sleep { millis: u64 },
    /// Make the fill call for `handle` without a buffer.
    FetchCount { handle: i64 },
    /// Make the fill call for `handle` with a buffer of `capacity` records.
    FetchRecords { handle: i64, capacity: u32 },
    /// Destroy `release` if it is set, then hand `result` to the caller.
    Finish { release: Option<i64>, result: Result<Vec<SteamItemDetails>, InventoryError> },
}

/// A phase that the retrieval can reach.
pub open spec fn phase_wf(phase: QueryPhase) -> bool {
    match phase {
        QueryPhase::Polling { handle, attempts } => handle != INVALID_RESULT && attempts < MAX_POLL_ATTEMPTS,
        QueryPhase::Waiting { handle, attempts } => handle != INVALID_RESULT && 1 <= attempts <= MAX_POLL_ATTEMPTS,
        QueryPhase::Sizing { handle } => handle != INVALID_RESULT,
        QueryPhase::Filling { handle, .. } => handle != INVALID_RESULT,
        _ => true,
    }
}

/// The event that answers the action a phase asks for.
pub open spec fn expects(phase: QueryPhase, event: QueryEvent) -> bool {
    match phase {
        QueryPhase::Starting => event is Started,
        QueryPhase::Polling { .. } => event is Status,
        QueryPhase::Waiting { .. } => event is Slept,
        QueryPhase::Sizing { .. } => event is Counted,
        QueryPhase::Filling { .. } => event is Filled,
        QueryPhase::Finished => false,
    }
}

/// The phase that follows `phase` on `event`.
pub open spec fn next_phase(phase: QueryPhase, event: QueryEvent) -> QueryPhase {
    match phase {
        QueryPhase::Starting => match event {
            QueryEvent::Started { ok, handle } =>
                if ok && handle != INVALID_RESULT {
                    QueryPhase::Polling { handle, attempts: 0 }
                } else {
                    QueryPhase::Finished
                },
            _ => QueryPhase::Finished,
        },
        QueryPhase::Polling { handle, attempts } => match event {
            QueryEvent::Status { ready } =>
                if ready {
                    QueryPhase::Sizing { handle }
                } else {
                    QueryPhase::Waiting { handle, attempts: (attempts + 1) as u32 }
                },
            _ => QueryPhase::Finished,
        },
        QueryPhase::Waiting { handle, attempts } => match event {
            QueryEvent::Slept =>
                if attempts >= MAX_POLL_ATTEMPTS {
                    QueryPhase::Finished
                } else {
                    QueryPhase::Polling { handle, attempts }
                },
            _ => QueryPhase::Finished,
        },
        QueryPhase::Sizing { handle } => match event {
            QueryEvent::Counted { ok, count } =>
                if ok {
                    QueryPhase::Filling { handle, capacity: count }
                } else {
                    QueryPhase::Finished
                },
            _ => QueryPhase::Finished,
        },
        _ => QueryPhase::Finished,
    }
}

/// The action that a phase asks for; at `Finished`, a final report.
pub open spec fn requests(phase: QueryPhase, action: QueryAction) -> bool {
    match phase {
        QueryPhase::Starting => action is StartQuery,
        QueryPhase::Polling { handle, .. } => action == (QueryAction::PollStatus { handle }),
        QueryPhase::Waiting { .. } => action == (QueryAction::Sleep { millis: POLL_INTERVAL_MS }),
        QueryPhase::Sizing { handle } => action == (QueryAction::FetchCount { handle }),
        QueryPhase::Filling { handle, capacity } => action == (QueryAction::FetchRecords { handle, capacity }),
        QueryPhase::Finished => action is Finish,
    }
}

/// What a retrieval that ends on `event` in `phase` hands back.
pub open spec fn outcome(phase: QueryPhase, event: QueryEvent) -> Result<Seq<SteamItemDetails>, InventoryError> {
    match phase {
        QueryPhase::Starting => Err(InventoryError::OperationFailed),
        QueryPhase::Waiting { .. } => Err(InventoryError::Timeout),
        QueryPhase::Filling { .. } => match event {
            QueryEvent::Filled { ok, count, records } =>
                if ok && count <= records@.len() {
                    Ok(decoded_prefix(records@, count as nat))
                } else {
                    Err(InventoryError::GetResultItemsFailed)
                },
            _ => Err(InventoryError::GetResultItemsFailed),
        },
        _ => Err(InventoryError::GetResultItemsFailed),
    }
}

/// The handle that a retrieval ending on `event` in `phase` gives up: the
/// handle of a query that became ready. A query that never started has none,
/// and one that timed out stays pending, for teardown.
pub open spec fn handle_given_up(phase: QueryPhase) -> Option<i64> {
    match phase {
        QueryPhase::Sizing { handle } => Some(handle),
        QueryPhase::Filling { handle, .. } => Some(handle),
        _ => None,
    }
}

/// The pending set after the step from `phase` on `event`.
pub open spec fn pending_after(phase: QueryPhase, event: QueryEvent, before: Set<i64>) -> Set<i64> {
    if next_phase(phase, event) is Finished {
        match handle_given_up(phase) {
            Some(h) => before.remove(h),
            None => before,
        }
    } else {
        match (phase, next_phase(phase, event)) {
            (QueryPhase::Starting, QueryPhase::Polling { handle, .. }) => before.insert(handle),
            _ => before,
        }
    }
}

pub open spec fn result_view(result: Result<Vec<SteamItemDetails>, InventoryError>) -> Result<Seq<SteamItemDetails>, InventoryError> {
    match result {
        Ok(items) => Ok(items@),
        Err(e) => Err(e),
    }
}

/// The phase reached from `phase` after `rounds` polls that each found the
/// query not ready, each followed by its pause.
pub open spec fn unready_rounds(phase: QueryPhase, rounds: nat) -> QueryPhase
    decreases rounds,
{
    if rounds == 0 {
        phase
    } else {
        let waiting = next_phase(phase, QueryEvent::Status { ready: false });
        unready_rounds(next_phase(waiting, QueryEvent::Slept), (rounds - 1) as nat)
    }
}

proof fn lemma_unready_rounds(handle: i64, done: nat, rounds: nat)
    requires
        done < MAX_POLL_ATTEMPTS,
        done + rounds <= MAX_POLL_ATTEMPTS,
    ensures
        unready_rounds(QueryPhase::Polling { handle, attempts: done as u32 }, rounds) == if done + rounds
            < MAX_POLL_ATTEMPTS {
            QueryPhase::Polling { handle, attempts: (done + rounds) as u32 }
        } else {
            QueryPhase::Finished
        },
    decreases rounds,
{
    if rounds > 0 {
        if done + 1 < MAX_POLL_ATTEMPTS {
            lemma_unready_rounds(handle, done + 1, (rounds - 1) as nat);
        } else {
            assert(unready_rounds(QueryPhase::Finished, 0) == QueryPhase::Finished);
        }
    }
}

/// A query whose status is never ready is polled `MAX_POLL_ATTEMPTS` times and
/// no fewer; each poll is followed by a pause of `POLL_INTERVAL_MS`, which adds
/// up to ten seconds of sleep; then the retrieval fails with `Timeout`, and
/// its handle stays pending, for teardown.
pub proof fn lemma_poll_timeout(handle: i64)
    requires
        handle != INVALID_RESULT,
    ensures
        forall|k: nat|
            k < MAX_POLL_ATTEMPTS ==> #[trigger] unready_rounds(
                QueryPhase::Polling { handle, attempts: 0 },
                k,
            ) == (QueryPhase::Polling { handle, attempts: k as u32 }),
        next_phase(
            QueryPhase::Polling { handle, attempts: (MAX_POLL_ATTEMPTS - 1) as u32 },
            QueryEvent::Status { ready: false },
        ) == (QueryPhase::Waiting { handle, attempts: MAX_POLL_ATTEMPTS }),
        requests(
            QueryPhase::Waiting { handle, attempts: MAX_POLL_ATTEMPTS },
            QueryAction::Sleep { millis: POLL_INTERVAL_MS },
        ),
        unready_rounds(QueryPhase::Polling { handle, attempts: 0 }, MAX_POLL_ATTEMPTS as nat)
            == QueryPhase::Finished,
        outcome(QueryPhase::Waiting { handle, attempts: MAX_POLL_ATTEMPTS }, QueryEvent::Slept)
            == Err::<Seq<SteamItemDetails>, InventoryError>(InventoryError::Timeout),
        handle_given_up(QueryPhase::Waiting { handle, attempts: MAX_POLL_ATTEMPTS }) is None,
        MAX_POLL_ATTEMPTS * POLL_INTERVAL_MS == 10_000,
{
    assert forall|k: nat| k < MAX_POLL_ATTEMPTS implies #[trigger] unready_rounds(
        QueryPhase::Polling { handle, attempts: 0 },
        k,
    ) == (QueryPhase::Polling { handle, attempts: k as u32 }) by {
        lemma_unready_rounds(handle, 0, k);
    }
    lemma_unready_rounds(handle, 0, MAX_POLL_ATTEMPTS as nat);
}

impl QueryPhase {
    /// Whether `event` answers the action that this phase asks for.
    pub fn expects(&self, event: &QueryEvent) -> (r: bool)
        ensures
            r == expects(*self, *event),
    {
        match self {
            QueryPhase::Starting => matches!(event, QueryEvent::Started { .. }),
            QueryPhase::Polling { .. } => matches!(event, QueryEvent::Status { .. }),
            QueryPhase::Waiting { .. } => matches!(event, QueryEvent::Slept),
            QueryPhase::Sizing { .. } => matches!(event, QueryEvent::Counted { .. }),
            QueryPhase::Filling { .. } => matches!(event, QueryEvent::Filled { .. }),
            QueryPhase::Finished => false,
        }
    }
}

/// The retrieval engine: it owns the set of handles not yet released.
pub struct Inventory {
    pub pending: HandleRegistry,
}

/// The call that consumes `quantity` units of `item_id`.
#[derive(Clone, Copy, Debug, PartialEq, Eq, Structural)]
pub struct ConsumeCall {
    pub item_id: SteamItemInstanceID,
    pub quantity: u32,
}

impl Inventory {
    pub open spec fn wf(&self) -> bool {
        self.pending.wf()
    }

    pub fn new() -> (r: Inventory)
        ensures
            r.wf(),
            r.pending@ == Set::<i64>::empty(),
    {
        Inventory { pending: HandleRegistry::new() }
    }

    /// Begins the retrieval of all items in the user's inventory: the first
    /// phase, and the action it asks for.
    pub fn get_all_items(&self) -> (r: (QueryPhase, QueryAction))
        ensures
            r.0 == QueryPhase::Starting,
            phase_wf(r.0),
            requests(r.0, r.1),
    {
        (QueryPhase::Starting, QueryAction::StartQuery)
    }

    /// Takes the retrieval one step on from `phase`, on the subsystem's answer
    /// to the action that `phase` asked for: the next phase and its action.
    /// A started query's handle becomes pending at once; a ready query's
    /// handle is released when the retrieval ends, successful or not.
    pub fn advance_items(&mut self, phase: QueryPhase, event: QueryEvent) -> (r: (QueryPhase, QueryAction))
        requires
            old(self).wf(),
            phase_wf(phase),
            expects(phase, event),
        ensures
            final(self).wf(),
            r.0 == next_phase(phase, event),
            phase_wf(r.0),
            requests(r.0, r.1),
            final(self).pending@ == pending_after(phase, event, old(self).pending@),
            r.1 matches QueryAction::Finish { release, result } ==> {
                &&& result_view(result) == outcome(phase, event)
                &&& match handle_given_up(phase) {
                    Some(h) => releases(old(self).pending@, h, release is Some, final(self).pending@)
                        && (release is Some ==> release == Some(h)),
                    None => release is None,
                }
            },
            r.1 matches QueryAction::Finish { result: Ok(items), .. } ==> (event matches QueryEvent::Filled { count, records, .. }
                && items@.len() == count && count <= records@.len()),
    {
        match phase {
            QueryPhase::Starting => {
                let (ok, handle) = match event {
                    QueryEvent::Started { ok, handle } => (ok, handle),
                    _ => (false, INVALID_RESULT),
                };
                if ok && handle != INVALID_RESULT {
                    self.pending.track(handle);
                    (QueryPhase::Polling { handle, attempts: 0 }, QueryAction::PollStatus { handle })
                } else {
                    (QueryPhase::Finished, QueryAction::Finish { release: None, result: Err(InventoryError::OperationFailed) })
                }
            },
            QueryPhase::Polling { handle, attempts } => {
                let ready = match event {
                    QueryEvent::Status { ready } => ready,
                    _ => false,
                };
                if ready {
                    (QueryPhase::Sizing { handle }, QueryAction::FetchCount { handle })
                } else {
                    (QueryPhase::Waiting { handle, attempts: attempts + 1 }, QueryAction::Sleep { millis: POLL_INTERVAL_MS })
                }
            },
            QueryPhase::Waiting { handle, attempts } => {
                if attempts >= MAX_POLL_ATTEMPTS {
                    (QueryPhase::Finished, QueryAction::Finish { release: None, result: Err(InventoryError::Timeout) })
                } else {
                    (QueryPhase::Polling { handle, attempts }, QueryAction::PollStatus { handle })
                }
            },
            QueryPhase::Sizing { handle } => {
                let (ok, count) = match event {
                    QueryEvent::Counted { ok, count } => (ok, count),
                    _ => (false, 0),
                };
                if ok {
                    (QueryPhase::Filling { handle, capacity: count }, QueryAction::FetchRecords { handle, capacity: count })
                } else {
                    let release = self.release_handle(handle);
                    (QueryPhase::Finished, QueryAction::Finish { release, result: Err(InventoryError::GetResultItemsFailed) })
                }
            },
            QueryPhase::Filling { handle, .. } => {
                let result = match event {
                    QueryEvent::Filled { ok, count, records } => {
                        if ok && (count as usize) <= records.len() {
                            Ok(decode_records(&records, count as usize))
                        } else {
                            Err(InventoryError::GetResultItemsFailed)
                        }
                    },
                    _ => Err(InventoryError::GetResultItemsFailed),
                };
                let release = self.release_handle(handle);
                (QueryPhase::Finished, QueryAction::Finish { release, result })
            },
            QueryPhase::Finished => {
                (QueryPhase::Finished, QueryAction::Finish { release: None, result: Err(InventoryError::GetResultItemsFailed) })
            },
        }
    }

    /// Releases `handle`: the result is the handle to destroy, which is set
    /// exactly when the handle was pending, so that no handle is destroyed twice.
    pub fn release_handle(&mut self, handle: i64) -> (r: Option<i64>)
        requires
            old(self).wf(),
        ensures
            final(self).wf(),
            releases(old(self).pending@, handle, r is Some, final(self).pending@),
            r is Some ==> r == Some(handle),
    {
        if self.pending.release(handle) {
            Some(handle)
        } else {
            None
        }
    }

    /// Ends the engine's life: every handle still pending, once, to destroy.
    /// A second teardown finds nothing.
    pub fn teardown(&mut self) -> (r: Vec<i64>)
        requires
            old(self).wf(),
        ensures
            final(self).wf(),
            final(self).pending@ == Set::<i64>::empty(),
            tears_down(old(self).pending@, r@),
    {
        self.pending.release_all()
    }

    /// Checks a request to consume `quantity` units of `item_id`: the call to
    /// make, or `InvalidInput`, without contacting the subsystem, for the
    /// reserved invalid instance identifier.
    pub fn consume_item(&self, item_id: SteamItemInstanceID, quantity: u32) -> (r: Result<ConsumeCall, InventoryError>)
        ensures
            item_id.0 == INVALID_INSTANCE_ID <==> r is Err,
            r is Err ==> r == Err::<ConsumeCall, InventoryError>(InventoryError::InvalidInput),
            r is Ok ==> r == Ok::<ConsumeCall, InventoryError>(ConsumeCall { item_id, quantity }),
    {
        if item_id.0 == INVALID_INSTANCE_ID {
            Err(InventoryError::InvalidInput)
        } else {
            Ok(ConsumeCall { item_id, quantity })
        }
    }

    /// Takes the subsystem's answer to a consume call: `ok` and the handle it
    /// wrote. An accepted call's handle is tracked and released at once: the
    /// result is the handle to destroy. A refused call is `OperationFailed`.
    pub fn consume_started(&mut self, ok: bool, handle: i64) -> (r: Result<i64, InventoryError>)
        requires
            old(self).wf(),
        ensures
            final(self).wf(),
            ok && handle != INVALID_RESULT ==> r == Ok::<i64, InventoryError>(handle)
                && final(self).pending@ == old(self).pending@.remove(handle),
            !(ok && handle != INVALID_RESULT) ==> r == Err::<i64, InventoryError>(InventoryError::OperationFailed)
                && final(self).pending@ == old(self).pending@,
    {
        if ok && handle != INVALID_RESULT {
            self.pending.track(handle);
            let destroy = self.pending.release(handle);
            assert(destroy);
            assert(self.pending@ =~= old(self).pending@.remove(handle));
            Ok(handle)
        } else {
            Err(InventoryError::OperationFailed)
        }
    }
}

} // verus!
