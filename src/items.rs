use vstd::prelude::*;

verus! {

/// The instance identifier that the subsystem reserves for "no item".
pub const INVALID_INSTANCE_ID: u64 = 0xFFFF_FFFF_FFFF_FFFF;

/// Represents a unique identifier for an inventory item instance.
#[derive(Clone, Copy, Debug, PartialEq, Eq, Structural)]
pub struct SteamItemInstanceID(pub u64);

/// Represents a unique identifier for an item definition.
#[derive(Clone, Copy, Debug, PartialEq, Eq, Structural)]
pub struct SteamItemDef(pub i32);

/// Represents an individual inventory item with its unique details.
#[derive(Clone, Copy, Debug, PartialEq, Eq, Structural)]
pub struct SteamItemDetails {
    pub item_id: SteamItemInstanceID,
    pub definition: SteamItemDef,
    pub quantity: u16,
    pub flags: u16,
}

/// Current and base price of one item definition.
#[derive(Clone, Copy, Debug, PartialEq, Eq, Structural)]
pub struct SteamItemPrice {
    pub item_def: SteamItemDef,
    pub price: u64,
    pub base_price: u64,
}

/// One fixed-size record as the subsystem's fill call writes it.
#[derive(Clone, Copy, Debug, PartialEq, Eq, Structural)]
pub struct RawItemDetails {
    pub item_id: u64,
    pub definition: i32,
    pub quantity: u16,
    pub flags: u16,
}

/// The decoded form of a raw record: every field copied as it is.
pub open spec fn decoded(raw: RawItemDetails) -> SteamItemDetails {
    SteamItemDetails {
        item_id: SteamItemInstanceID(raw.item_id),
        definition: SteamItemDef(raw.definition),
        quantity: raw.quantity,
        flags: raw.flags,
    }
}

/// The first `count` records of `raw`, decoded, in the order given.
pub open spec fn decoded_prefix(raw: Seq<RawItemDetails>, count: nat) -> Seq<SteamItemDetails> {
    raw.take(count as int).map_values(|r: RawItemDetails| decoded(r))
}

/// Decodes the first `count` records of `raw`; nothing past `count` is read.
pub fn decode_records(raw: &Vec<RawItemDetails>, count: usize) -> (r: Vec<SteamItemDetails>)
    requires
        count <= raw@.len(),
    ensures
        r@ == decoded_prefix(raw@, count as nat),
        r@.len() == count,
{
    let mut out: Vec<SteamItemDetails> = Vec::with_capacity(count);
    let mut i: usize = 0;
    while i < count
        invariant
            i <= count,
            count <= raw@.len(),
            out@ == decoded_prefix(raw@, i as nat),
        decreases count - i,
    {
        let rec = raw[i];
        out.push(SteamItemDetails {
            item_id: SteamItemInstanceID(rec.item_id),
            definition: SteamItemDef(rec.definition),
            quantity: rec.quantity,
            flags: rec.flags,
        });
        i = i + 1;
        assert(out@ =~= decoded_prefix(raw@, i as nat));
    }
    out
}

} // verus!
