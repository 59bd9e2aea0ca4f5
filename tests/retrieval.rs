use steam_inventory::{
    decode_records, Inventory, InventoryError, QueryAction, QueryEvent, QueryPhase, RawItemDetails,
    SteamItemDetails, SteamItemInstanceID, INVALID_INSTANCE_ID, INVALID_RESULT, MAX_POLL_ATTEMPTS,
    POLL_INTERVAL_MS,
};

fn raw(item_id: u64, definition: i32, quantity: u16, flags: u16) -> RawItemDetails {
    RawItemDetails { item_id, definition, quantity, flags }
}

/// A scripted subsystem: answers each action from the given script and
/// records every call made to it.
struct Script {
    start: (bool, i64),
    statuses: Vec<bool>,
    count: Option<u32>,
    fill: Option<(u32, Vec<RawItemDetails>)>,
    calls: Vec<String>,
    slept_ms: u64,
}

impl Script {
    fn run(&mut self, inv: &mut Inventory) -> (Option<i64>, Result<Vec<SteamItemDetails>, InventoryError>) {
        let (mut phase, mut action) = inv.get_all_items();
        let mut polls = 0usize;
        loop {
            let event = match action {
                QueryAction::StartQuery => {
                    self.calls.push("start".to_string());
                    QueryEvent::Started { ok: self.start.0, handle: self.start.1 }
                }
                QueryAction::PollStatus { handle } => {
                    self.calls.push(format!("poll {}", handle));
                    let ready = self.statuses.get(polls).copied().unwrap_or(false);
                    polls += 1;
                    QueryEvent::Status { ready }
                }
                QueryAction::Sleep { millis } => {
                    self.slept_ms += millis;
                    QueryEvent::Slept
                }
                QueryAction::FetchCount { handle } => {
                    self.calls.push(format!("count {}", handle));
                    match self.count {
                        Some(count) => QueryEvent::Counted { ok: true, count },
                        None => QueryEvent::Counted { ok: false, count: 0 },
                    }
                }
                QueryAction::FetchRecords { handle, capacity } => {
                    self.calls.push(format!("fill {} {}", handle, capacity));
                    match self.fill.clone() {
                        Some((count, records)) => QueryEvent::Filled { ok: true, count, records },
                        None => QueryEvent::Filled { ok: false, count: 0, records: Vec::new() },
                    }
                }
                QueryAction::Finish { release, result } => {
                    if let Some(h) = release {
                        self.calls.push(format!("destroy {}", h));
                    }
                    return (release, result);
                }
            };
            assert!(phase.expects(&event));
            let (next, next_action) = inv.advance_items(phase, event);
            phase = next;
            action = next_action;
        }
    }
}

fn script(start: (bool, i64), statuses: Vec<bool>, count: Option<u32>, fill: Option<(u32, Vec<RawItemDetails>)>) -> Script {
    Script { start, statuses, count, fill, calls: Vec::new(), slept_ms: 0 }
}

#[test]
fn end_to_end_three_records() {
    let records = vec![raw(100, 5, 2, 0), raw(101, 5, 1, 0), raw(102, 6, 4, 1)];
    let mut s = script((true, 7), vec![false, true], Some(3), Some((3, records)));
    let mut inv = Inventory::new();
    let (release, result) = s.run(&mut inv);
    let items = result.unwrap();
    assert_eq!(items.len(), 3);
    let expect = [(100u64, 5i32, 2u16, 0u16), (101, 5, 1, 0), (102, 6, 4, 1)];
    for (item, (id, def, qty, flags)) in items.iter().zip(expect.iter()) {
        assert_eq!(item.item_id.0, *id);
        assert_eq!(item.definition.0, *def);
        assert_eq!(item.quantity, *qty);
        assert_eq!(item.flags, *flags);
    }
    assert_eq!(release, Some(7));
    assert_eq!(s.calls, vec!["start", "poll 7", "poll 7", "count 7", "fill 7 3", "destroy 7"]);
    assert_eq!(s.calls.iter().filter(|c| c.starts_with("destroy")).count(), 1);
    assert_eq!(s.slept_ms, POLL_INTERVAL_MS);
    assert!(!inv.pending.is_tracked(7));
    assert!(inv.teardown().is_empty());
}

#[test]
fn result_length_follows_final_fill_count() {
    let records = vec![raw(1, 1, 1, 0), raw(2, 2, 2, 0), raw(3, 3, 3, 0)];
    let mut s = script((true, 9), vec![true], Some(3), Some((2, records)));
    let mut inv = Inventory::new();
    let (_, result) = s.run(&mut inv);
    let items = result.unwrap();
    assert_eq!(items.len(), 2);
    assert_eq!(items[1].item_id.0, 2);
}

#[test]
fn fill_count_past_buffer_fails() {
    let mut s = script((true, 9), vec![true], Some(1), Some((2, vec![raw(1, 1, 1, 0)])));
    let mut inv = Inventory::new();
    let (release, result) = s.run(&mut inv);
    assert_eq!(result.unwrap_err(), InventoryError::GetResultItemsFailed);
    assert_eq!(release, Some(9));
    assert!(!inv.pending.is_tracked(9));
}

#[test]
fn zero_items_is_not_an_error() {
    let mut s = script((true, 4), vec![true], Some(0), Some((0, Vec::new())));
    let mut inv = Inventory::new();
    let (release, result) = s.run(&mut inv);
    assert!(result.unwrap().is_empty());
    assert_eq!(release, Some(4));
}

#[test]
fn start_refused_is_operation_failed() {
    let mut s = script((false, 3), vec![], None, None);
    let mut inv = Inventory::new();
    let (release, result) = s.run(&mut inv);
    assert_eq!(result.unwrap_err(), InventoryError::OperationFailed);
    assert_eq!(release, None);
    assert_eq!(s.calls, vec!["start"]);
    assert!(inv.teardown().is_empty());
}

#[test]
fn invalid_handle_is_operation_failed() {
    let mut s = script((true, INVALID_RESULT), vec![], None, None);
    let mut inv = Inventory::new();
    let (_, result) = s.run(&mut inv);
    assert_eq!(result.unwrap_err(), InventoryError::OperationFailed);
    assert_eq!(s.calls, vec!["start"]);
}

#[test]
fn sizing_failure_releases_handle() {
    let mut s = script((true, 5), vec![true], None, None);
    let mut inv = Inventory::new();
    let (release, result) = s.run(&mut inv);
    assert_eq!(result.unwrap_err(), InventoryError::GetResultItemsFailed);
    assert_eq!(release, Some(5));
    assert_eq!(s.calls.last().unwrap(), "destroy 5");
}

#[test]
fn filling_failure_releases_handle() {
    let mut s = script((true, 5), vec![true], Some(2), None);
    let mut inv = Inventory::new();
    let (release, result) = s.run(&mut inv);
    assert_eq!(result.unwrap_err(), InventoryError::GetResultItemsFailed);
    assert_eq!(release, Some(5));
}

#[test]
fn never_ready_times_out_after_full_budget() {
    let mut s = script((true, 11), vec![], None, None);
    let mut inv = Inventory::new();
    let (release, result) = s.run(&mut inv);
    assert_eq!(result.unwrap_err(), InventoryError::Timeout);
    assert_eq!(release, None);
    let polls = s.calls.iter().filter(|c| c.starts_with("poll")).count();
    assert_eq!(polls, MAX_POLL_ATTEMPTS as usize);
    assert_eq!(polls, 100);
    assert_eq!(s.slept_ms, 10_000);
    assert!(!s.calls.iter().any(|c| c.starts_with("count")));
    assert!(inv.pending.is_tracked(11));
    assert_eq!(inv.teardown(), vec![11]);
}

#[test]
fn ready_on_last_attempt_succeeds() {
    let mut statuses = vec![false; 99];
    statuses.push(true);
    let mut s = script((true, 2), statuses, Some(1), Some((1, vec![raw(8, 1, 1, 0)])));
    let mut inv = Inventory::new();
    let (_, result) = s.run(&mut inv);
    assert_eq!(result.unwrap().len(), 1);
    assert_eq!(s.slept_ms, 99 * POLL_INTERVAL_MS);
}

#[test]
fn finished_phase_expects_nothing() {
    assert!(!QueryPhase::Finished.expects(&QueryEvent::Slept));
    assert!(QueryPhase::Starting.expects(&QueryEvent::Started { ok: true, handle: 1 }));
    assert!(!QueryPhase::Starting.expects(&QueryEvent::Slept));
}

#[test]
fn decode_copies_fields_in_order() {
    let records = vec![raw(u64::MAX - 1, -3, 65535, 7), raw(0, 0, 0, 0)];
    let items = decode_records(&records, 1);
    assert_eq!(items.len(), 1);
    assert_eq!(items[0].item_id, SteamItemInstanceID(u64::MAX - 1));
    assert_eq!(items[0].definition.0, -3);
    assert_eq!(items[0].quantity, 65535);
    assert_eq!(items[0].flags, 7);
}

#[test]
fn consume_invalid_identifier_is_invalid_input() {
    let inv = Inventory::new();
    let r = inv.consume_item(SteamItemInstanceID(INVALID_INSTANCE_ID), 1);
    assert_eq!(r.unwrap_err(), InventoryError::InvalidInput);
}

#[test]
fn consume_refused_is_operation_failed() {
    let mut inv = Inventory::new();
    let call = inv.consume_item(SteamItemInstanceID(77), 2).unwrap();
    assert_eq!(call.item_id.0, 77);
    assert_eq!(call.quantity, 2);
    assert_eq!(inv.consume_started(false, 3).unwrap_err(), InventoryError::OperationFailed);
    assert_eq!(inv.consume_started(true, INVALID_RESULT).unwrap_err(), InventoryError::OperationFailed);
    assert!(inv.teardown().is_empty());
}

#[test]
fn consume_accepted_releases_its_handle() {
    let mut inv = Inventory::new();
    assert_eq!(inv.consume_started(true, 12), Ok(12));
    assert!(!inv.pending.is_tracked(12));
    assert!(inv.teardown().is_empty());
}
