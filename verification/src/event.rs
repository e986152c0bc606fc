use vstd::prelude::*;
use vstd::utf8::encode_utf8;

use crate::errors::ErrorCode;
use crate::identity::Identity;

verus! {

// Fixed schema budgets, in serialized bytes, for the string fields of a
// record. The persisted layout is fixed-size and reserved at creation, so
// an oversized field is rejected at creation time, never truncated.
pub const EVENT_ID_MAX_BYTES: usize = 50;
pub const NAME_MAX_BYTES: usize = 200;
pub const DESCRIPTION_MAX_BYTES: usize = 1000;
pub const LOCATION_MAX_BYTES: usize = 100;
pub const CATEGORY_MAX_BYTES: usize = 50;
pub const IMAGE_CID_MAX_BYTES: usize = 200;
pub const METADATA_CID_MAX_BYTES: usize = 200;

/// The length of a string once serialized, in bytes.
pub open spec fn byte_len(s: String) -> nat {
    encode_utf8(s@).len()
}

/// The sole persisted entity: one event record.
pub struct Event {
    /// Identity of the organizer; set once at creation, never mutated.
    pub creator: Identity,
    /// Organizer-chosen identifier, unique among that organizer's events;
    /// part of the record's derived address.
    pub event_id: String,
    pub name: String,
    pub description: String,
    /// Price per ticket, immutable after creation.
    pub price: u64,
    /// Capacity, immutable after creation.
    pub max_tickets: u64,
    /// Monotonically non-decreasing counter, starts at 0.
    pub tickets_sold: u64,
    /// Scheduled time of the event, seconds.
    pub event_date: i64,
    /// Gate on purchasing, mutable only by an authorized toggle.
    pub is_active: bool,
    pub location: String,
    pub category: String,
    /// Opaque content identifier of externally stored media.
    pub image_cid: String,
    /// Opaque content identifier of externally stored metadata.
    pub metadata_cid: String,
    /// Environment time at creation, seconds; set once.
    pub created_at: i64,
}

impl Event {
    /// Every string field fits its fixed schema budget.
    pub open spec fn strings_within_budget(self) -> bool {
        &&& byte_len(self.event_id) <= EVENT_ID_MAX_BYTES
        &&& byte_len(self.name) <= NAME_MAX_BYTES
        &&& byte_len(self.description) <= DESCRIPTION_MAX_BYTES
        &&& byte_len(self.location) <= LOCATION_MAX_BYTES
        &&& byte_len(self.category) <= CATEGORY_MAX_BYTES
        &&& byte_len(self.image_cid) <= IMAGE_CID_MAX_BYTES
        &&& byte_len(self.metadata_cid) <= METADATA_CID_MAX_BYTES
    }

    /// The record invariant: it holds at every observable point in a
    /// record's life.
    pub open spec fn wf(self) -> bool {
        &&& self.tickets_sold <= self.max_tickets
        &&& self.strings_within_budget()
    }

    /// The seed tuple the record's storage address is derived from.
    /// Two records collide exactly when their seeds are equal, so the
    /// seed itself serves as the address in this model.
    pub open spec fn address(self) -> (Seq<u8>, Seq<char>) {
        (self.creator.key(), self.event_id@)
    }
}

/// The record `create_event` initializes when every field is accepted.
pub open spec fn initial_event(
    creator: Identity,
    event_id: String,
    name: String,
    description: String,
    price: u64,
    max_tickets: u64,
    event_date: i64,
    location: String,
    category: String,
    image_cid: String,
    metadata_cid: String,
    now: i64,
) -> Event {
    Event {
        creator,
        event_id,
        name,
        description,
        price,
        max_tickets,
        tickets_sold: 0,
        event_date,
        is_active: true,
        location,
        category,
        image_cid,
        metadata_cid,
        created_at: now,
    }
}

/// Creates and initializes an event record from the organizer's inputs.
///
/// `now` is the execution environment's clock reading, handed in by the
/// caller that dispatched the operation. An oversized string field is
/// rejected with `SerializationOverflow`; nothing is truncated. On
/// success the record starts with no tickets sold and purchasing open.
pub fn create_event(
    creator: Identity,
    event_id: String,
    name: String,
    description: String,
    price: u64,
    max_tickets: u64,
    event_date: i64,
    location: String,
    category: String,
    image_cid: String,
    metadata_cid: String,
    now: i64,
) -> (r: Result<Event, ErrorCode>)
    ensures
        ({
            let e = initial_event(
                creator, event_id, name, description, price, max_tickets,
                event_date, location, category, image_cid, metadata_cid, now,
            );
            if e.strings_within_budget() {
                r == Ok::<Event, ErrorCode>(e)
            } else {
                r == Err::<Event, ErrorCode>(ErrorCode::SerializationOverflow)
            }
        }),
        r is Ok ==> r->Ok_0.wf(),
{
    if event_id.as_str().as_bytes().len() > EVENT_ID_MAX_BYTES
        || name.as_str().as_bytes().len() > NAME_MAX_BYTES
        || description.as_str().as_bytes().len() > DESCRIPTION_MAX_BYTES
        || location.as_str().as_bytes().len() > LOCATION_MAX_BYTES
        || category.as_str().as_bytes().len() > CATEGORY_MAX_BYTES
        || image_cid.as_str().as_bytes().len() > IMAGE_CID_MAX_BYTES
        || metadata_cid.as_str().as_bytes().len() > METADATA_CID_MAX_BYTES
    {
        return Err(ErrorCode::SerializationOverflow);
    }
    Ok(Event {
        creator,
        event_id,
        name,
        description,
        price,
        max_tickets,
        tickets_sold: 0,
        event_date,
        is_active: true,
        location,
        category,
        image_cid,
        metadata_cid,
        created_at: now,
    })
}

/// Whether a toggle request is authorized: either the requesting signer
/// or the asserted secondary authority must be the record's creator.
pub open spec fn toggle_authorized(e: Event, requester: Identity, authority: Identity) -> bool {
    requester.key() == e.creator.key() || authority.key() == e.creator.key()
}

/// The record a toggle leaves behind, paired with its result.
pub open spec fn toggle_result(e: Event, requester: Identity, authority: Identity) -> (
    Result<(), ErrorCode>,
    Event,
) {
    if toggle_authorized(e, requester, authority) {
        (Ok(()), Event { is_active: !e.is_active, ..e })
    } else {
        (Err(ErrorCode::Unauthorized), e)
    }
}

/// Flips the availability gate of a record.
///
/// Fails with `Unauthorized`, leaving the record unchanged, unless the
/// requester or the asserted secondary authority is the record's creator.
pub fn toggle_event_active(event: &mut Event, requester: &Identity, authority: &Identity) -> (r:
    Result<(), ErrorCode>)
    ensures
        (r, *final(event)) == toggle_result(*old(event), *requester, *authority),
        old(event).wf() ==> final(event).wf(),
{
    if !(*requester == event.creator || *authority == event.creator) {
        return Err(ErrorCode::Unauthorized);
    }
    event.is_active = !event.is_active;
    Ok(())
}

/// The first check a purchase request fails, if any. The checks are
/// sequential: availability, then quantity, then capacity, then the
/// arithmetic of the payment. A transfer the two balances cannot support
/// (a debit past zero or a credit past `u64::MAX`) is reported as
/// `MathOverflow`, like the payment-total overflow itself.
pub open spec fn purchase_error(e: Event, buyer_balance: u64, payee_balance: u64, quantity: u64) -> Option<
    ErrorCode,
> {
    if !e.is_active {
        Some(ErrorCode::EventNotActive)
    } else if quantity == 0 {
        Some(ErrorCode::InvalidQuantity)
    } else if e.tickets_sold + quantity > e.max_tickets {
        Some(ErrorCode::NotEnoughTickets)
    } else if e.price * quantity > u64::MAX || buyer_balance < e.price * quantity
        || payee_balance + e.price * quantity > u64::MAX {
        Some(ErrorCode::MathOverflow)
    } else {
        None
    }
}

/// The complete outcome of a purchase request: its result, the record it
/// leaves behind, and the two balances it leaves behind. On any error all
/// three are exactly the inputs; on success the sold counter rises by the
/// quantity and the payment moves from buyer to payee in one step.
pub open spec fn purchase_result(e: Event, buyer_balance: u64, payee_balance: u64, quantity: u64) -> (
    Result<(), ErrorCode>,
    Event,
    u64,
    u64,
) {
    match purchase_error(e, buyer_balance, payee_balance, quantity) {
        Some(err) => (Err(err), e, buyer_balance, payee_balance),
        None => (
            Ok(()),
            Event { tickets_sold: (e.tickets_sold + quantity) as u64, ..e },
            (buyer_balance - e.price * quantity) as u64,
            (payee_balance + e.price * quantity) as u64,
        ),
    }
}

/// Sells `quantity` tickets against a record, debiting the buyer and
/// crediting the payee by `price * quantity` in the same step that the
/// sold counter rises: the caller observes both effects or neither.
///
/// The checks run in order; the first failure aborts with that error and
/// no mutation at all. The capacity comparison is computed without
/// wraparound, and every arithmetic step is checked.
pub fn buy_ticket(
    event: &mut Event,
    buyer_balance: &mut u64,
    payee_balance: &mut u64,
    quantity: u64,
) -> (r: Result<(), ErrorCode>)
    requires
        old(event).tickets_sold <= old(event).max_tickets,
    ensures
        (r, *final(event), *final(buyer_balance), *final(payee_balance)) == purchase_result(
            *old(event),
            *old(buyer_balance),
            *old(payee_balance),
            quantity,
        ),
        old(event).wf() ==> final(event).wf(),
{
    if !event.is_active {
        return Err(ErrorCode::EventNotActive);
    }
    if quantity == 0 {
        return Err(ErrorCode::InvalidQuantity);
    }
    if quantity > event.max_tickets - event.tickets_sold {
        return Err(ErrorCode::NotEnoughTickets);
    }
    let total_cost = match event.price.checked_mul(quantity) {
        Some(t) => t,
        None => {
            return Err(ErrorCode::MathOverflow);
        },
    };
    let debited = match buyer_balance.checked_sub(total_cost) {
        Some(b) => b,
        None => {
            return Err(ErrorCode::MathOverflow);
        },
    };
    let credited = match payee_balance.checked_add(total_cost) {
        Some(p) => p,
        None => {
            return Err(ErrorCode::MathOverflow);
        },
    };
    let sold = match event.tickets_sold.checked_add(quantity) {
        Some(s) => s,
        None => {
            return Err(ErrorCode::MathOverflow);
        },
    };
    *buyer_balance = debited;
    *payee_balance = credited;
    event.tickets_sold = sold;
    Ok(())
}

} // verus!
