use vstd::prelude::*;

use crate::errors::ErrorCode;
use crate::event::{
    buy_ticket, create_event, initial_event, purchase_result, toggle_event_active, toggle_result,
    Event,
};
use crate::identity::Identity;

verus! {

/// The allocator's view of storage: every live event record, each at the
/// address derived from `(creator, event_id)`. There is no separate index
/// of events; uniqueness comes from the address derivation alone, so the
/// registry holds at most one record per seed tuple and refuses a second
/// allocation at the same address.
pub struct EventRegistry {
    events: Vec<Event>,
}

impl View for EventRegistry {
    type V = Seq<Event>;

    closed spec fn view(&self) -> Seq<Event> {
        self.events@
    }
}

/// Whether `e` sits at the address derived from `(creator, event_id)`.
pub open spec fn at_address(e: Event, creator: Identity, event_id: String) -> bool {
    e.address() == (creator.key(), event_id@)
}

impl EventRegistry {
    /// The registry invariant: every record satisfies its own invariant,
    /// and no two records share an address.
    pub open spec fn wf(self) -> bool {
        &&& forall|i: int| 0 <= i < self@.len() ==> (#[trigger] self@[i]).wf()
        &&& forall|i: int, j: int|
            0 <= i < j < self@.len() ==> (#[trigger] self@[i]).address() != (
            #[trigger] self@[j]).address()
    }

    /// Whether some record is already allocated at the address derived
    /// from `(creator, event_id)`.
    pub open spec fn has_address(self, creator: Identity, event_id: String) -> bool {
        exists|i: int| 0 <= i < self@.len() && at_address(#[trigger] self@[i], creator, event_id)
    }

    /// An empty registry.
    pub fn new() -> (r: EventRegistry)
        ensures
            r@ == Seq::<Event>::empty(),
            r.wf(),
    {
        EventRegistry { events: Vec::new() }
    }

    /// The number of live records.
    pub fn len(&self) -> (n: usize)
        ensures
            n == self@.len(),
    {
        self.events.len()
    }

    /// Reads the record at position `i`.
    pub fn record_at(&self, i: usize) -> (e: &Event)
        requires
            i < self@.len(),
        ensures
            *e == self@[i as int],
    {
        &self.events[i]
    }

    /// Looks the record stored at the address derived from
    /// `(creator, event_id)` up, returning its position.
    pub fn find_event(&self, creator: &Identity, event_id: &String) -> (r: Option<usize>)
        ensures
            match r {
                Some(i) => i < self@.len() && at_address(self@[i as int], *creator, *event_id),
                None => !self.has_address(*creator, *event_id),
            },
    {
        let n = self.events.len();
        let mut i: usize = 0;
        while i < n
            invariant
                n == self@.len(),
                i <= n,
                forall|j: int| 0 <= j < i ==> !at_address(#[trigger] self@[j], *creator, *event_id),
            decreases n - i,
        {
            let e = &self.events[i];
            if e.creator == *creator && e.event_id == *event_id {
                return Some(i);
            }
            i += 1;
        }
        None
    }

    /// Allocates and initializes a record at the address derived from
    /// `(creator, event_id)`.
    ///
    /// Fails with `AddressAlreadyInUse` when that address already holds a
    /// record — the re-used event id is an error, never an overwrite —
    /// and with `SerializationOverflow` when a string field exceeds its
    /// schema budget. On success the new record is appended, with no
    /// tickets sold, purchasing open, and `created_at` set to `now`.
    pub fn create_event(
        &mut self,
        creator: Identity,
        event_id: String,
        name: String,
        description: String,
        price: u64,
        max_tickets: u64,
        event_date: i64,
        location: String,
        category: String,
        image_cid: String,
        metadata_cid: String,
        now: i64,
    ) -> (r: Result<(), ErrorCode>)
        requires
            old(self).wf(),
        ensures
            final(self).wf(),
            ({
                let e = initial_event(
                    creator, event_id, name, description, price, max_tickets,
                    event_date, location, category, image_cid, metadata_cid, now,
                );
                if old(self).has_address(creator, event_id) {
                    r == Err::<(), ErrorCode>(ErrorCode::AddressAlreadyInUse) && final(self)@
                        == old(self)@
                } else if !e.strings_within_budget() {
                    r == Err::<(), ErrorCode>(ErrorCode::SerializationOverflow) && final(self)@
                        == old(self)@
                } else {
                    r == Ok::<(), ErrorCode>(()) && final(self)@ == old(self)@.push(e)
                }
            }),
    {
        match self.find_event(&creator, &event_id) {
            Some(_) => Err(ErrorCode::AddressAlreadyInUse),
            None => {
                let event = match create_event(
                    creator, event_id, name, description, price, max_tickets,
                    event_date, location, category, image_cid, metadata_cid, now,
                ) {
                    Ok(event) => event,
                    Err(err) => {
                        return Err(err);
                    },
                };
                proof {
                    assert forall|i: int| 0 <= i < self@.len() implies (
                    #[trigger] self@[i]).address() != event.address() by {
                        assert(!at_address(self@[i], creator, event_id));
                    }
                }
                self.events.push(event);
                Ok(())
            },
        }
    }

    /// Flips the availability gate of the record at position `i`, under
    /// the record-level authorization rule; no other record changes.
    pub fn toggle_event_active_at(
        &mut self,
        i: usize,
        requester: &Identity,
        authority: &Identity,
    ) -> (r: Result<(), ErrorCode>)
        requires
            old(self).wf(),
            i < old(self)@.len(),
        ensures
            final(self).wf(),
            (r, final(self)@[i as int]) == toggle_result(old(self)@[i as int], *requester, *authority),
            final(self)@ == old(self)@.update(i as int, final(self)@[i as int]),
    {
        let event = &mut self.events[i];
        toggle_event_active(event, requester, authority)
    }

    /// Sells tickets against the record at position `i`, moving the
    /// payment between the two balances exactly as the record-level
    /// purchase does; no other record changes.
    pub fn buy_ticket_at(
        &mut self,
        i: usize,
        buyer_balance: &mut u64,
        payee_balance: &mut u64,
        quantity: u64,
    ) -> (r: Result<(), ErrorCode>)
        requires
            old(self).wf(),
            i < old(self)@.len(),
        ensures
            final(self).wf(),
            (r, final(self)@[i as int], *final(buyer_balance), *final(payee_balance))
                == purchase_result(
                old(self)@[i as int],
                *old(buyer_balance),
                *old(payee_balance),
                quantity,
            ),
            final(self)@ == old(self)@.update(i as int, final(self)@[i as int]),
    {
        let event = &mut self.events[i];
        buy_ticket(event, buyer_balance, payee_balance, quantity)
    }
}

} // verus!
