use vstd::prelude::*;

verus! {

/// The error kinds an operation can abort with.
///
/// Every operation detects its error synchronously and aborts with no
/// partial mutation: a failed call leaves the event record and all
/// balances exactly as they were.
#[derive(Clone, Copy, Debug, PartialEq, Eq, Structural)]
pub enum ErrorCode {
    /// A purchase was attempted while the event's availability gate is off.
    EventNotActive,
    /// A purchase asked for zero tickets.
    InvalidQuantity,
    /// A purchase asked for more tickets than remain under the capacity.
    NotEnoughTickets,
    /// A toggle was requested by an identity that is not the creator.
    Unauthorized,
    /// An arithmetic step (payment total, debit, or credit) does not fit in 64 bits.
    MathOverflow,
    /// A creation targeted an address that already holds a record.
    AddressAlreadyInUse,
    /// A string field exceeds its fixed schema budget in serialized bytes.
    SerializationOverflow,
}

} // verus!
