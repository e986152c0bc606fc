use vstd::prelude::*;

use crate::errors::ErrorCode;
use crate::event::{
    initial_event, purchase_error, purchase_result, toggle_authorized, toggle_result, Event,
};
use crate::identity::Identity;

verus! {

/// A record starts with no tickets sold, with purchasing open, and with
/// every other field exactly as supplied at creation.
pub proof fn law_creation_initial_state(
    creator: Identity,
    event_id: String,
    name: String,
    description: String,
    price: u64,
    max_tickets: u64,
    event_date: i64,
    location: String,
    category: String,
    image_cid: String,
    metadata_cid: String,
    now: i64,
)
    ensures
        ({
            let e = initial_event(
                creator, event_id, name, description, price, max_tickets,
                event_date, location, category, image_cid, metadata_cid, now,
            );
            e.tickets_sold == 0 && e.is_active && e.creator == creator && e.event_id == event_id
                && e.name == name && e.description == description && e.price == price
                && e.max_tickets == max_tickets && e.event_date == event_date && e.location
                == location && e.category == category && e.image_cid == image_cid
                && e.metadata_cid == metadata_cid && e.created_at == now
        }),
{
}

/// A purchase that asks for more tickets than remain under the capacity
/// fails with `NotEnoughTickets` and changes nothing: the record and both
/// balances come out exactly as they went in. (Stated for requests that
/// pass the two checks sequenced before the capacity check: the event is
/// active and the quantity is nonzero.)
pub proof fn law_capacity_exhausted_rejected(
    e: Event,
    buyer_balance: u64,
    payee_balance: u64,
    quantity: u64,
)
    requires
        e.is_active,
        quantity != 0,
        e.tickets_sold + quantity > e.max_tickets,
    ensures
        purchase_result(e, buyer_balance, payee_balance, quantity) == (
            Err::<(), ErrorCode>(ErrorCode::NotEnoughTickets),
            e,
            buyer_balance,
            payee_balance,
        ),
{
}

/// A purchase of zero tickets fails with `InvalidQuantity` and changes
/// nothing, whatever the capacity, price, or balances. (Stated for active
/// events: the availability check is sequenced first.)
pub proof fn law_zero_quantity_rejected(e: Event, buyer_balance: u64, payee_balance: u64)
    requires
        e.is_active,
    ensures
        purchase_result(e, buyer_balance, payee_balance, 0) == (
            Err::<(), ErrorCode>(ErrorCode::InvalidQuantity),
            e,
            buyer_balance,
            payee_balance,
        ),
{
}

/// A successful purchase raises the sold counter by exactly the quantity,
/// debits the buyer by exactly `price * quantity`, credits the payee by
/// exactly the same amount, and touches nothing else on the record.
pub proof fn law_successful_purchase(
    e: Event,
    buyer_balance: u64,
    payee_balance: u64,
    quantity: u64,
)
    requires
        purchase_error(e, buyer_balance, payee_balance, quantity) is None,
    ensures
        ({
            let (r, e2, buyer2, payee2) = purchase_result(
                e, buyer_balance, payee_balance, quantity,
            );
            &&& r == Ok::<(), ErrorCode>(())
            &&& e2.tickets_sold == e.tickets_sold + quantity
            &&& buyer2 == buyer_balance - e.price * quantity
            &&& payee2 == payee_balance + e.price * quantity
            &&& e2 == Event { tickets_sold: e2.tickets_sold, ..e }
        }),
{
}

/// The payment moves money, never makes or destroys it: across any
/// purchase, successful or failed, the two balances keep their sum.
pub proof fn law_purchase_conserves_funds(
    e: Event,
    buyer_balance: u64,
    payee_balance: u64,
    quantity: u64,
)
    ensures
        ({
            let (r, e2, buyer2, payee2) = purchase_result(
                e, buyer_balance, payee_balance, quantity,
            );
            buyer2 + payee2 == buyer_balance + payee_balance
        }),
{
}

/// The sold counter never goes down: whatever a purchase request asks
/// for, the record it leaves behind has sold at least as many tickets as
/// before.
pub proof fn law_sold_counter_monotonic(
    e: Event,
    buyer_balance: u64,
    payee_balance: u64,
    quantity: u64,
)
    ensures
        purchase_result(e, buyer_balance, payee_balance, quantity).1.tickets_sold
            >= e.tickets_sold,
{
}

/// A purchase never executes against a record whose availability gate is
/// off: it can only succeed on an active event.
pub proof fn law_purchase_requires_active(
    e: Event,
    buyer_balance: u64,
    payee_balance: u64,
    quantity: u64,
)
    ensures
        purchase_result(e, buyer_balance, payee_balance, quantity).0 is Ok ==> e.is_active,
{
}

/// An authorized toggle flips the availability gate and touches nothing
/// else on the record.
pub proof fn law_toggle_flips(e: Event, requester: Identity, authority: Identity)
    requires
        toggle_authorized(e, requester, authority),
    ensures
        ({
            let (r, e2) = toggle_result(e, requester, authority);
            r == Ok::<(), ErrorCode>(()) && e2.is_active == !e.is_active && e2 == Event {
                is_active: e2.is_active,
                ..e
            }
        }),
{
}

/// Two authorized toggles in a row return the record to exactly its
/// original state.
pub proof fn law_toggle_twice_restores(e: Event, requester: Identity, authority: Identity)
    requires
        toggle_authorized(e, requester, authority),
    ensures
        toggle_result(toggle_result(e, requester, authority).1, requester, authority).1 == e,
{
}

/// A toggle requested by identities of which neither is the creator fails
/// with `Unauthorized` and leaves the record — its availability gate
/// included — unchanged.
pub proof fn law_toggle_unauthorized(e: Event, requester: Identity, authority: Identity)
    requires
        !toggle_authorized(e, requester, authority),
    ensures
        toggle_result(e, requester, authority) == (
            Err::<(), ErrorCode>(ErrorCode::Unauthorized),
            e,
        ),
{
}

} // verus!
