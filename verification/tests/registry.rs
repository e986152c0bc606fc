use event_tickets::registry::EventRegistry;
use event_tickets::{ErrorCode, Identity};

fn id(tag: u8) -> Identity {
    Identity { bytes: [tag; 32] }
}

fn create(
    registry: &mut EventRegistry,
    creator: Identity,
    event_id: &str,
    price: u64,
    max_tickets: u64,
) -> Result<(), ErrorCode> {
    registry.create_event(
        creator,
        String::from(event_id),
        String::from("Name"),
        String::from("Description"),
        price,
        max_tickets,
        1_780_000_000,
        String::from("Location"),
        String::from("category"),
        String::from("img-cid"),
        String::from("meta-cid"),
        1_760_000_000,
    )
}

#[test]
fn create_then_read_back() {
    let creator = id(1);
    let mut registry = EventRegistry::new();
    assert_eq!(create(&mut registry, creator, "gala", 250, 40), Ok(()));
    assert_eq!(registry.len(), 1);
    let i = registry
        .find_event(&creator, &String::from("gala"))
        .unwrap();
    let e = registry.record_at(i);
    assert!(e.creator == creator);
    assert_eq!(e.event_id, "gala");
    assert_eq!(e.price, 250);
    assert_eq!(e.max_tickets, 40);
    assert_eq!(e.tickets_sold, 0);
    assert!(e.is_active);
}

#[test]
fn duplicate_address_is_rejected() {
    let creator = id(1);
    let mut registry = EventRegistry::new();
    assert_eq!(create(&mut registry, creator, "gala", 250, 40), Ok(()));
    assert_eq!(
        create(&mut registry, creator, "gala", 99, 7),
        Err(ErrorCode::AddressAlreadyInUse)
    );
    assert_eq!(registry.len(), 1);
    // The first record is untouched by the failed creation.
    let i = registry
        .find_event(&creator, &String::from("gala"))
        .unwrap();
    assert_eq!(registry.record_at(i).price, 250);
}

#[test]
fn distinct_seeds_allocate_distinct_records() {
    let alice = id(1);
    let bob = id(2);
    let mut registry = EventRegistry::new();
    assert_eq!(create(&mut registry, alice, "gala", 250, 40), Ok(()));
    // Same creator, different event id.
    assert_eq!(create(&mut registry, alice, "expo", 10, 5), Ok(()));
    // Different creator, same event id.
    assert_eq!(create(&mut registry, bob, "gala", 30, 8), Ok(()));
    assert_eq!(registry.len(), 3);
    assert!(registry.find_event(&bob, &String::from("expo")).is_none());
}

#[test]
fn oversized_field_is_rejected_by_allocation() {
    let creator = id(1);
    let mut registry = EventRegistry::new();
    assert_eq!(
        create(&mut registry, creator, &"x".repeat(51), 1, 1),
        Err(ErrorCode::SerializationOverflow)
    );
    assert_eq!(registry.len(), 0);
}

#[test]
fn toggle_and_buy_through_the_registry() {
    let creator = id(1);
    let operator = id(2);
    let stranger = id(3);
    let mut registry = EventRegistry::new();
    assert_eq!(create(&mut registry, creator, "gala", 100, 10), Ok(()));
    let i = registry
        .find_event(&creator, &String::from("gala"))
        .unwrap();

    let mut buyer: u64 = 1000;
    let mut payee: u64 = 0;
    assert_eq!(
        registry.buy_ticket_at(i, &mut buyer, &mut payee, 5),
        Ok(())
    );
    assert_eq!(registry.record_at(i).tickets_sold, 5);
    assert_eq!((buyer, payee), (500, 500));

    assert_eq!(
        registry.toggle_event_active_at(i, &stranger, &stranger),
        Err(ErrorCode::Unauthorized)
    );
    assert!(registry.record_at(i).is_active);
    assert_eq!(
        registry.toggle_event_active_at(i, &operator, &creator),
        Ok(())
    );
    assert!(!registry.record_at(i).is_active);
    assert_eq!(
        registry.buy_ticket_at(i, &mut buyer, &mut payee, 1),
        Err(ErrorCode::EventNotActive)
    );
    assert_eq!(registry.record_at(i).tickets_sold, 5);
    assert_eq!((buyer, payee), (500, 500));
}
