//! Retrieval of variable-length result sets from a handle-based inventory
//! subsystem: handle bookkeeping, the polling and two-phase fill protocol,
//! and the decisions of the callback-driven purchase path.

mod inventory;
mod items;
mod purchase;
mod registry;

pub use inventory::{
    expects, handle_given_up, lemma_poll_timeout, next_phase, outcome, pending_after, phase_wf,
    requests, result_view, unready_rounds, ConsumeCall, Inventory, InventoryError, QueryAction,
    QueryEvent, QueryPhase, MAX_POLL_ATTEMPTS, POLL_INTERVAL_MS,
};
pub use items::{
    decode_records, decoded, decoded_prefix, RawItemDetails, SteamItemDef, SteamItemDetails,
    SteamItemInstanceID, SteamItemPrice, INVALID_INSTANCE_ID,
};
pub use purchase::{
    purchase_call, purchase_outcome, PurchaseOrder, StartPurchaseResult, SteamError,
    INVALID_API_CALL, PURCHASE_CALLBACK_ID, RESULT_OK,
};
pub use registry::{
    lemma_release_idempotent, lemma_teardown_releases_once, releases, tears_down, HandleRegistry,
    INVALID_RESULT,
};
