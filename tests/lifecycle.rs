use lumentix::fees::platform_fee;
use lumentix::market::Marketplace;
use lumentix::types::{EventStatus, LumentixError, Principal, TicketStatus};

fn who(name: &str) -> Principal {
    Principal::from_str(name)
}

fn setup(fee_bps: u32) -> (Principal, Marketplace) {
    let mut market = Marketplace::new();
    let admin = who("admin");
    market.initialize(admin.clone()).unwrap();
    market.set_platform_fee(admin.clone(), fee_bps).unwrap();
    (admin, market)
}

fn event(market: &mut Marketplace, organizer: &Principal, price: i128, capacity: u32) -> u64 {
    market
        .create_event(
            organizer.clone(),
            "Concert".to_string(),
            "An evening of music".to_string(),
            "Main hall".to_string(),
            10,
            20,
            price,
            capacity,
        )
        .unwrap()
}

fn published(market: &mut Marketplace, organizer: &Principal, price: i128, capacity: u32) -> u64 {
    let id = event(market, organizer, price, capacity);
    market.update_event_status(id, EventStatus::Published, organizer.clone()).unwrap();
    id
}

#[test]
fn fee_formula_values() {
    assert_eq!(platform_fee(1000, 250), 25);
    assert_eq!(platform_fee(100, 500), 5);
    assert_eq!(platform_fee(199, 5000), 99);
    assert_eq!(platform_fee(9999, 1), 0);
    assert_eq!(platform_fee(0, 10000), 0);
    assert_eq!(platform_fee(12345, 10000), 12345);
    assert_eq!(platform_fee(12345, 0), 0);
}

#[test]
fn fee_formula_largest_amount() {
    assert_eq!(platform_fee(i128::MAX, 10000), i128::MAX);
    assert_eq!(platform_fee(i128::MAX, 5000), i128::MAX / 2);
}

#[test]
fn event_ids_are_sequential() {
    let (_admin, mut market) = setup(0);
    let org = who("org");
    assert_eq!(event(&mut market, &org, 10, 1), 1);
    assert_eq!(event(&mut market, &org, 10, 1), 2);
    assert_eq!(event(&mut market, &org, 10, 1), 3);
    let e = market.get_event(3).unwrap();
    assert_eq!(e.tickets_sold, 0);
    assert_eq!(e.status, EventStatus::Draft);
    assert_eq!(e.price, 10);
    assert_eq!(e.capacity, 1);
    assert_eq!(e.name, "Concert");
}

#[test]
fn create_event_failure_precedence() {
    let (_admin, mut market) = setup(0);
    let org = who("org");
    let all_bad = market.create_event(org.clone(), "".to_string(), "".to_string(), "".to_string(), 5, 5, 0, 0);
    assert_eq!(all_bad, Err(LumentixError::EmptyString));
    let no_location = market.create_event(org.clone(), "a".to_string(), "b".to_string(), "".to_string(), 1, 2, 1, 1);
    assert_eq!(no_location, Err(LumentixError::EmptyString));
    let no_description = market.create_event(org.clone(), "a".to_string(), "".to_string(), "c".to_string(), 1, 2, 1, 1);
    assert_eq!(no_description, Err(LumentixError::EmptyString));
    let equal_times = market.create_event(org.clone(), "a".to_string(), "b".to_string(), "c".to_string(), 5, 5, 0, 0);
    assert_eq!(equal_times, Err(LumentixError::InvalidTimeRange));
    let negative_price = market.create_event(org.clone(), "a".to_string(), "b".to_string(), "c".to_string(), 1, 2, -5, 0);
    assert_eq!(negative_price, Err(LumentixError::InvalidAmount));
    let zero_capacity = market.create_event(org.clone(), "a".to_string(), "b".to_string(), "c".to_string(), 1, 2, 5, 0);
    assert_eq!(zero_capacity, Err(LumentixError::CapacityExceeded));
    assert!(market.get_event(1).is_err());
    assert_eq!(event(&mut market, &org, 10, 1), 1);
}

#[test]
fn status_machine_terminal_states() {
    let (_admin, mut market) = setup(0);
    let org = who("org");
    let a = event(&mut market, &org, 10, 1);
    assert_eq!(market.update_event_status(a, EventStatus::Cancelled, org.clone()), Ok(()));
    assert_eq!(
        market.update_event_status(a, EventStatus::Published, org.clone()),
        Err(LumentixError::InvalidStatusTransition)
    );
    let b = published(&mut market, &org, 10, 1);
    assert_eq!(market.update_event_status(b, EventStatus::Completed, org.clone()), Ok(()));
    assert_eq!(
        market.update_event_status(b, EventStatus::Cancelled, org.clone()),
        Err(LumentixError::InvalidStatusTransition)
    );
    assert_eq!(
        market.update_event_status(b, EventStatus::Draft, org.clone()),
        Err(LumentixError::InvalidStatusTransition)
    );
    assert_eq!(
        market.update_event_status(99, EventStatus::Published, org),
        Err(LumentixError::NotFound)
    );
}

#[test]
fn capacity_is_exact() {
    let (_admin, mut market) = setup(0);
    let org = who("org");
    let id = published(&mut market, &org, 10, 3);
    assert_eq!(market.purchase_ticket(who("b1"), id, 10), Ok(1));
    assert_eq!(market.purchase_ticket(who("b2"), id, 10), Ok(2));
    assert_eq!(market.purchase_ticket(who("b3"), id, 10), Ok(3));
    assert_eq!(market.purchase_ticket(who("b4"), id, 10), Err(LumentixError::EventSoldOut));
    assert_eq!(market.get_event(id).unwrap().tickets_sold, 3);
}

#[test]
fn failed_purchase_changes_nothing() {
    let (_admin, mut market) = setup(1000);
    let org = who("org");
    let id = published(&mut market, &org, 100, 5);
    assert_eq!(market.purchase_ticket(who("b"), id, 99), Err(LumentixError::InsufficientFunds));
    assert_eq!(market.purchase_ticket(who("b"), 7, 100), Err(LumentixError::NotFound));
    assert_eq!(market.get_event(id).unwrap().tickets_sold, 0);
    assert_eq!(market.get_platform_balance(), 0);
    assert_eq!(market.get_event_escrow(id), 0);
    assert!(market.get_ticket(1).is_err());
}

#[test]
fn purchase_splits_payment_between_platform_and_escrow() {
    let (_admin, mut market) = setup(250);
    let org = who("org");
    let first = published(&mut market, &org, 1000, 5);
    let second = published(&mut market, &org, 40, 5);
    let t = market.purchase_ticket(who("b"), first, 1000).unwrap();
    assert_eq!(market.get_platform_balance(), 25);
    assert_eq!(market.get_event_escrow(first), 975);
    assert_eq!(market.get_event_escrow(second), 0);
    let ticket = market.get_ticket(t).unwrap();
    assert_eq!(ticket.purchase_price, 1000);
    assert_eq!(ticket.event_id, first);
    assert_eq!(ticket.status, TicketStatus::Valid);
    market.purchase_ticket(who("c"), second, 40).unwrap();
    assert_eq!(market.get_platform_balance(), 26);
    assert_eq!(market.get_event_escrow(second), 39);
    assert_eq!(market.get_event_escrow(42), 0);
}

#[test]
fn ticket_ids_are_global() {
    let (_admin, mut market) = setup(0);
    let a = published(&mut market, &who("o1"), 5, 5);
    let b = published(&mut market, &who("o2"), 5, 5);
    assert_eq!(market.purchase_ticket(who("x"), a, 5), Ok(1));
    assert_eq!(market.purchase_ticket(who("y"), b, 5), Ok(2));
    assert_eq!(market.purchase_ticket(who("z"), a, 5), Ok(3));
    assert_eq!(market.get_ticket(2).unwrap().event_id, b);
}

#[test]
fn refund_releases_escrow_once() {
    let (_admin, mut market) = setup(500);
    let org = who("org");
    let buyer = who("buyer");
    let id = published(&mut market, &org, 100, 5);
    let t = market.purchase_ticket(buyer.clone(), id, 100).unwrap();
    assert_eq!(market.get_event_escrow(id), 95);
    assert_eq!(market.refund_ticket(t, buyer.clone()), Err(LumentixError::EventNotCancelled));
    market.cancel_event(org.clone(), id).unwrap();
    assert_eq!(market.refund_ticket(t, who("stranger")), Err(LumentixError::Unauthorized));
    assert_eq!(market.refund_ticket(t, buyer.clone()), Ok(()));
    assert_eq!(market.get_event_escrow(id), 0);
    assert_eq!(market.get_ticket(t).unwrap().status, TicketStatus::Refunded);
    assert_eq!(market.refund_ticket(t, buyer), Err(LumentixError::TicketAlreadyUsed));
    assert_eq!(market.use_ticket(t, org), Err(LumentixError::TicketAlreadyUsed));
    assert_eq!(market.get_platform_balance(), 5);
    assert_eq!(market.get_event(id).unwrap().tickets_sold, 1);
}

#[test]
fn used_ticket_cannot_be_refunded() {
    let (_admin, mut market) = setup(0);
    let org = who("org");
    let buyer = who("buyer");
    let id = published(&mut market, &org, 10, 5);
    let t = market.purchase_ticket(buyer.clone(), id, 10).unwrap();
    market.use_ticket(t, org.clone()).unwrap();
    assert_eq!(market.get_ticket(t).unwrap().status, TicketStatus::Used);
    market.cancel_event(org, id).unwrap();
    assert_eq!(market.refund_ticket(t, buyer), Err(LumentixError::TicketAlreadyUsed));
    assert_eq!(market.get_event_escrow(id), 10);
}

#[test]
fn unknown_tickets_are_not_found() {
    let (_admin, mut market) = setup(0);
    assert_eq!(market.use_ticket(1, who("x")), Err(LumentixError::NotFound));
    assert_eq!(market.refund_ticket(0, who("x")), Err(LumentixError::NotFound));
    assert_eq!(market.get_ticket(1).unwrap_err(), LumentixError::NotFound);
    assert_eq!(market.get_event(0).unwrap_err(), LumentixError::NotFound);
}

#[test]
fn withdraw_twice_reports_no_fees() {
    let (admin, mut market) = setup(10000);
    let id = published(&mut market, &who("org"), 7, 5);
    market.purchase_ticket(who("b"), id, 7).unwrap();
    assert_eq!(market.get_event_escrow(id), 0);
    assert_eq!(market.withdraw_platform_fees(admin.clone()), Ok(7));
    assert_eq!(market.get_platform_balance(), 0);
    assert_eq!(market.withdraw_platform_fees(admin), Err(LumentixError::NoPlatformFees));
}

#[test]
fn fee_administration_before_and_after_setup() {
    let mut market = Marketplace::new();
    let admin = who("admin");
    assert_eq!(market.set_platform_fee(admin.clone(), 100), Err(LumentixError::Unauthorized));
    assert_eq!(market.withdraw_platform_fees(admin.clone()), Err(LumentixError::Unauthorized));
    assert_eq!(market.get_platform_fee(), 0);
    market.initialize(admin.clone()).unwrap();
    assert_eq!(market.initialize(who("other")), Err(LumentixError::AlreadyInitialized));
    assert_eq!(market.set_platform_fee(admin.clone(), 10000), Ok(()));
    assert_eq!(market.get_platform_fee(), 10000);
    assert_eq!(market.set_platform_fee(admin.clone(), 10001), Err(LumentixError::InvalidPlatformFee));
    assert_eq!(market.get_platform_fee(), 10000);
    assert_eq!(market.set_platform_fee(who("other"), 1), Err(LumentixError::Unauthorized));
    assert_eq!(market.set_platform_fee(admin, 0), Ok(()));
    assert_eq!(market.get_platform_fee(), 0);
}

#[test]
fn parts_round_trip() {
    let (admin, mut market) = setup(500);
    let org = who("org");
    let id = published(&mut market, &org, 100, 5);
    let t = market.purchase_ticket(who("b"), id, 100).unwrap();
    let (a, fee, balance, events, tickets, escrow) = market.into_parts();
    assert_eq!(a, Some(admin.clone()));
    assert_eq!((fee, balance), (500, 5));
    assert_eq!(escrow, vec![95]);
    let mut again = Marketplace::restore(a, fee, balance, events, tickets, escrow).unwrap();
    assert_eq!(again.admin(), Some(admin.clone()));
    assert_eq!(again.get_ticket(t).unwrap().purchase_price, 100);
    assert_eq!(again.purchase_ticket(who("c"), id, 100), Ok(2));
    assert_eq!(again.get_event(id).unwrap().tickets_sold, 2);
    assert_eq!(again.withdraw_platform_fees(admin), Ok(10));
}

#[test]
fn restore_rejects_malformed_parts() {
    let (_admin, mut market) = setup(0);
    let org = who("org");
    let id = published(&mut market, &org, 10, 2);
    market.purchase_ticket(who("b"), id, 10).unwrap();
    let (a, fee, balance, events, tickets, escrow) = market.into_parts();
    assert!(Marketplace::restore(a.clone(), 10001, balance, events.clone(), tickets.clone(), escrow.clone()).is_none());
    assert!(Marketplace::restore(a.clone(), fee, -1, events.clone(), tickets.clone(), escrow.clone()).is_none());
    assert!(Marketplace::restore(None, 5, 0, events.clone(), tickets.clone(), escrow.clone()).is_none());
    assert!(Marketplace::restore(a.clone(), fee, balance, events.clone(), tickets.clone(), vec![]).is_none());
    let mut renumbered = events.clone();
    renumbered[0].id = 2;
    assert!(Marketplace::restore(a.clone(), fee, balance, renumbered, tickets.clone(), escrow.clone()).is_none());
    let mut oversold = events.clone();
    oversold[0].tickets_sold = 3;
    assert!(Marketplace::restore(a.clone(), fee, balance, oversold, tickets.clone(), escrow.clone()).is_none());
    let mut dangling = tickets.clone();
    dangling[0].event_id = 2;
    assert!(Marketplace::restore(a.clone(), fee, balance, events.clone(), dangling, escrow.clone()).is_none());
    assert!(Marketplace::restore(a, fee, balance, events, tickets, escrow).is_some());
    assert!(Marketplace::restore(None, 0, 0, vec![], vec![], vec![]).is_some());
}

#[test]
fn refund_amount_uses_current_rate() {
    let (admin, mut market) = setup(1000);
    let org = who("org");
    let id = published(&mut market, &org, 200, 5);
    let t = market.purchase_ticket(who("b"), id, 200).unwrap();
    assert_eq!(market.ticket_refund_amount(t), Some(180));
    market.set_platform_fee(admin, 500).unwrap();
    assert_eq!(market.ticket_refund_amount(t), Some(190));
    assert_eq!(market.ticket_refund_amount(9), None);
}

#[test]
fn overpayment_is_charged_at_the_price() {
    let (_admin, mut market) = setup(250);
    let id = published(&mut market, &who("org"), 100, 5);
    let t = market.purchase_ticket(who("b"), id, 1000).unwrap();
    assert_eq!(market.get_platform_balance(), 2);
    assert_eq!(market.get_event_escrow(id), 98);
    assert_eq!(market.get_ticket(t).unwrap().purchase_price, 100);
}
