use std::cell::RefCell;
use steam_inventory::{
    purchase_call, purchase_outcome, Inventory, StartPurchaseResult, SteamError, SteamItemDef,
    INVALID_API_CALL, RESULT_OK,
};

#[test]
fn empty_purchase_is_invalid_parameter() {
    let inv = Inventory::new();
    let r = inv.start_purchase(&Vec::new());
    assert_eq!(r.unwrap_err(), SteamError::InvalidParameter);
}

#[test]
fn purchase_splits_pairs_in_order() {
    let inv = Inventory::new();
    let order = inv.start_purchase(&vec![(SteamItemDef(42), 1), (SteamItemDef(-7), 3)]).unwrap();
    assert_eq!(order.item_defs, vec![42, -7]);
    assert_eq!(order.quantities, vec![1, 3]);
    assert_eq!(order.count, 2);
}

#[test]
fn invalid_call_token_is_invalid_parameter() {
    assert_eq!(purchase_call(INVALID_API_CALL), Err(SteamError::InvalidParameter));
    assert_eq!(purchase_call(31), Ok(31));
}

#[test]
fn purchase_completion_scenario() {
    let inv = Inventory::new();
    let order = inv.start_purchase(&vec![(SteamItemDef(42), 1)]).unwrap();
    assert_eq!(order.item_defs, vec![42]);
    assert_eq!(order.quantities, vec![1]);
    let token = purchase_call(900).unwrap();
    assert_eq!(token, 900);
    let delivered: RefCell<Vec<Result<StartPurchaseResult, SteamError>>> = RefCell::new(Vec::new());
    let cb = |r| delivered.borrow_mut().push(r);
    cb(purchase_outcome(false, RESULT_OK, 555, 999));
    let got = delivered.into_inner();
    assert_eq!(got.len(), 1);
    assert_eq!(got[0], Ok(StartPurchaseResult { order_id: 555, trans_id: 999 }));
}

#[test]
fn purchase_io_failure() {
    assert_eq!(purchase_outcome(true, RESULT_OK, 1, 2), Err(SteamError::IOFailure));
}

#[test]
fn purchase_result_code_is_kept() {
    assert_eq!(purchase_outcome(false, 2, 1, 2), Err(SteamError::ResultCode(2)));
}
