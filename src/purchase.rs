use vstd::prelude::*;
use crate::inventory::Inventory;
use crate::items::SteamItemDef;

verus! {

/// The call token that the subsystem returns when an asynchronous call could not start.
pub const INVALID_API_CALL: u64 = 0;

/// The subsystem's result code for success.
pub const RESULT_OK: i32 = 1;

/// The identifier under which purchase completions are registered with the
/// callback dispatcher; no other kind of operation uses it.
pub const PURCHASE_CALLBACK_ID: i32 = 1301;

/// Why a purchase did not go through.
#[derive(Clone, Copy, Debug, PartialEq, Eq, Structural)]
pub enum SteamError {
    /// The request was refused before the subsystem took it on.
    InvalidParameter,
    /// The completion could not be delivered.
    IOFailure,
    /// The subsystem finished the purchase with this result code, not success.
    ResultCode(i32),
}

/// The identifiers of a purchase that the subsystem started.
#[derive(Clone, Copy, Debug, PartialEq, Eq, Structural)]
pub struct StartPurchaseResult {
    pub order_id: u64,
    pub trans_id: u64,
}

/// The subsystem's start-purchase call: parallel arrays of definitions and
/// quantities, and their common length.
#[derive(Debug)]
pub struct PurchaseOrder {
    pub item_defs: Vec<i32>,
    pub quantities: Vec<u32>,
    pub count: u32,
}

impl Inventory {
    /// Checks a purchase of `items`, pairs of a definition and a quantity: an
    /// empty list is `InvalidParameter`, with no subsystem call; otherwise the
    /// pairs are split, in order, into the arrays of the start-purchase call.
    pub fn start_purchase(&self, items: &Vec<(SteamItemDef, u32)>) -> (r: Result<PurchaseOrder, SteamError>)
        requires
            items@.len() <= u32::MAX,
        ensures
            items@.len() == 0 <==> r is Err,
            r matches Err(e) ==> e == SteamError::InvalidParameter,
            r matches Ok(order) ==> {
                &&& order.count == items@.len()
                &&& order.item_defs@ == items@.map_values(|p: (SteamItemDef, u32)| p.0.0)
                &&& order.quantities@ == items@.map_values(|p: (SteamItemDef, u32)| p.1)
            },
    {
        if items.len() == 0 {
            return Err(SteamError::InvalidParameter);
        }
        let mut item_defs: Vec<i32> = Vec::with_capacity(items.len());
        let mut quantities: Vec<u32> = Vec::with_capacity(items.len());
        let mut i: usize = 0;
        while i < items.len()
            invariant
                i <= items@.len(),
                item_defs@ == items@.take(i as int).map_values(|p: (SteamItemDef, u32)| p.0.0),
                quantities@ == items@.take(i as int).map_values(|p: (SteamItemDef, u32)| p.1),
            decreases items@.len() - i,
        {
            let (def, quantity) = items[i];
            item_defs.push(def.0);
            quantities.push(quantity);
            i = i + 1;
            assert(item_defs@ =~= items@.take(i as int).map_values(|p: (SteamItemDef, u32)| p.0.0));
            assert(quantities@ =~= items@.take(i as int).map_values(|p: (SteamItemDef, u32)| p.1));
        }
        assert(items@.take(i as int) =~= items@);
        Ok(PurchaseOrder { item_defs, quantities, count: items.len() as u32 })
    }
}

/// Takes the call token of a start-purchase call: the invalid token is
/// `InvalidParameter`; any other is the token to register the completion under.
pub fn purchase_call(token: u64) -> (r: Result<u64, SteamError>)
    ensures
        token == INVALID_API_CALL ==> r == Err::<u64, SteamError>(SteamError::InvalidParameter),
        token != INVALID_API_CALL ==> r == Ok::<u64, SteamError>(token),
{
    if token == INVALID_API_CALL {
        Err(SteamError::InvalidParameter)
    } else {
        Ok(token)
    }
}

/// The outcome of a purchase whose completion reported `io_error` and the
/// subsystem's `result` code, order and transaction identifiers.
pub fn purchase_outcome(io_error: bool, result: i32, order_id: u64, trans_id: u64) -> (r: Result<StartPurchaseResult, SteamError>)
    ensures
        io_error ==> r == Err::<StartPurchaseResult, SteamError>(SteamError::IOFailure),
        !io_error && result == RESULT_OK ==> r == Ok::<StartPurchaseResult, SteamError>(StartPurchaseResult { order_id, trans_id }),
        !io_error && result != RESULT_OK ==> r == Err::<StartPurchaseResult, SteamError>(SteamError::ResultCode(result)),
{
    if io_error {
        Err(SteamError::IOFailure)
    } else if result == RESULT_OK {
        Ok(StartPurchaseResult { order_id, trans_id })
    } else {
        Err(SteamError::ResultCode(result))
    }
}

} // verus!
