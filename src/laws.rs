//! Properties of the marketplace model that relate its operations.
use vstd::prelude::*;
use crate::fees::{fee_of, lemma_fee_bounds};
use crate::model::MarketModel;
use crate::types::{EventStatus, LumentixError, TicketStatus};

verus! {

/// A successful purchase keeps the marketplace well formed.
pub proof fn lemma_purchase_preserves_wf(m: MarketModel, buyer: Seq<char>, event_id: u64, payment: i128)
    requires
        m.wf(),
        m.purchase_result(event_id, payment) is Ok,
        m.tickets.len() < u64::MAX,
    ensures
        m.purchased(buyer, event_id).wf(),
{
    assert(m.events[event_id - 1].price > 0);
    let m2 = m.purchased(buyer, event_id);
    let price = m.event(event_id).price as int;
    lemma_fee_bounds(price, m.fee_bps as int);
    if m.fee_bps == 0 {
        assert(price * 0 == 0);
        assert(fee_of(price, 0) == 0);
    }
    assert(m2.escrow.len() == m2.events.len());
    assert(m2.platform_balance >= 0);
    assert forall|i: int| 0 <= i < m2.events.len() implies {
        let e = #[trigger] m2.events[i];
        &&& e.id == i + 1
        &&& e.price > 0
        &&& e.capacity > 0
        &&& e.tickets_sold <= e.capacity
    } by {
        assert(m.events[i].id == i + 1);
    }
    assert forall|j: int| 0 <= j < m2.tickets.len() implies {
        let t = #[trigger] m2.tickets[j];
        &&& t.id == j + 1
        &&& 1 <= t.event_id <= m2.events.len()
        &&& t.purchase_price > 0
    } by {
        if j < m.tickets.len() {
            assert(m.tickets[j].id == j + 1);
        }
    }
}

/// A new event gets the id after the largest one so far, starts as a draft
/// with no tickets sold, and the marketplace stays well formed.
pub proof fn lemma_create_event_next_id(
    m: MarketModel,
    organizer: Seq<char>,
    name: Seq<char>,
    description: Seq<char>,
    location: Seq<char>,
    start_time: u64,
    end_time: u64,
    price: i128,
    capacity: u32,
)
    requires
        m.wf(),
        m.events.len() < u64::MAX,
    ensures
        forall|i: int| 0 <= i < m.events.len() ==> #[trigger] m.events[i].id <= m.max_event_id(),
        match m.create_event_result(name, description, location, start_time, end_time, price, capacity) {
            Ok(id) => {
                let m2 = m.event_created(
                    organizer,
                    name,
                    description,
                    location,
                    start_time,
                    end_time,
                    price,
                    capacity,
                );
                &&& id == m.max_event_id() + 1
                &&& m2.has_event(id)
                &&& m2.event(id).status == EventStatus::Draft
                &&& m2.event(id).tickets_sold == 0
                &&& m2.event(id).organizer == organizer
                &&& m2.wf()
            },
            Err(_) => true,
        },
{
    if m.events.len() > 0 {
        assert(m.events[m.events.len() - 1].id == m.events.len());
    }
    if m.create_event_result(name, description, location, start_time, end_time, price, capacity) is Ok {
        let m2 = m.event_created(organizer, name, description, location, start_time, end_time, price, capacity);
        assert forall|i: int| 0 <= i < m2.events.len() implies {
            let e = #[trigger] m2.events[i];
            &&& e.id == i + 1
            &&& e.price > 0
            &&& e.capacity > 0
            &&& e.tickets_sold <= e.capacity
        } by {
            if i < m.events.len() {
                assert(m.events[i].id == i + 1);
            }
        }
        assert forall|j: int| 0 <= j < m2.tickets.len() implies {
            let t = #[trigger] m2.tickets[j];
            &&& t.id == j + 1
            &&& 1 <= t.event_id <= m2.events.len()
            &&& t.purchase_price > 0
        } by {
            assert(m.tickets[j].id == j + 1);
        }
    }
}

/// Which failure `create_event` reports: an empty text first, then a time
/// range that does not move forward, then a price that is not positive, then
/// a zero capacity; it succeeds exactly when none of these holds.
pub proof fn lemma_create_event_failures(
    m: MarketModel,
    name: Seq<char>,
    description: Seq<char>,
    location: Seq<char>,
    start_time: u64,
    end_time: u64,
    price: i128,
    capacity: u32,
)
    ensures
        ({
            let r = m.create_event_result(name, description, location, start_time, end_time, price, capacity);
            let texts_ok = name.len() > 0 && description.len() > 0 && location.len() > 0;
            &&& (r == Err::<u64, LumentixError>(LumentixError::EmptyString)) <==> !texts_ok
            &&& (r == Err::<u64, LumentixError>(LumentixError::InvalidTimeRange)) <==> (texts_ok
                && start_time >= end_time)
            &&& (r == Err::<u64, LumentixError>(LumentixError::InvalidAmount)) <==> (texts_ok
                && start_time < end_time && price <= 0)
            &&& (r == Err::<u64, LumentixError>(LumentixError::CapacityExceeded)) <==> (texts_ok
                && start_time < end_time && price > 0 && capacity == 0)
            &&& r is Ok <==> (texts_ok && start_time < end_time && price > 0 && capacity > 0)
        }),
{
}

/// The organizer of an event may publish a draft and cancel a published
/// event, may not complete a draft, and nobody else may change its status.
pub proof fn lemma_status_transitions(m: MarketModel, event_id: u64, caller: Seq<char>)
    requires
        m.wf(),
        m.has_event(event_id),
    ensures
        caller != m.event(event_id).organizer ==> forall|s: EventStatus|
            #[trigger] m.update_status_result(event_id, s, caller) == Err::<(), LumentixError>(
                LumentixError::Unauthorized,
            ),
        caller == m.event(event_id).organizer && m.event(event_id).status == EventStatus::Draft ==> {
            &&& m.update_status_result(event_id, EventStatus::Published, caller) is Ok
            &&& m.status_updated(event_id, EventStatus::Published).event(event_id).status
                == EventStatus::Published
            &&& m.update_status_result(event_id, EventStatus::Completed, caller) == Err::<
                (),
                LumentixError,
            >(LumentixError::InvalidStatusTransition)
        },
        caller == m.event(event_id).organizer && m.event(event_id).status == EventStatus::Published
            ==> {
            &&& m.update_status_result(event_id, EventStatus::Cancelled, caller) is Ok
            &&& m.status_updated(event_id, EventStatus::Cancelled).event(event_id).status
                == EventStatus::Cancelled
        },
{
}

/// On a published event, a purchase succeeds exactly while tickets remain and
/// the payment covers the price; once the last ticket is sold the next
/// purchase reports the event sold out, and no purchase succeeds on a draft.
pub proof fn lemma_purchase_capacity(
    m: MarketModel,
    buyer: Seq<char>,
    event_id: u64,
    payment: i128,
    next_payment: i128,
)
    requires
        m.wf(),
        m.has_event(event_id),
    ensures
        m.event(event_id).status == EventStatus::Draft ==> m.purchase_result(event_id, payment)
            == Err::<u64, LumentixError>(LumentixError::InvalidStatusTransition),
        m.event(event_id).status == EventStatus::Published ==> {
            &&& m.purchase_result(event_id, payment) is Ok <==> (m.event(event_id).tickets_sold
                < m.event(event_id).capacity && payment >= m.event(event_id).price)
            &&& m.event(event_id).tickets_sold < m.event(event_id).capacity && payment < m.event(
                event_id,
            ).price ==> m.purchase_result(event_id, payment) == Err::<u64, LumentixError>(
                LumentixError::InsufficientFunds,
            )
        },
        m.event(event_id).status == EventStatus::Published && m.event(event_id).tickets_sold + 1
            == m.event(event_id).capacity && payment >= m.event(event_id).price ==> {
            let m2 = m.purchased(buyer, event_id);
            &&& m.purchase_result(event_id, payment) is Ok
            &&& m2.event(event_id).tickets_sold == m2.event(event_id).capacity
            &&& m2.purchase_result(event_id, next_payment) == Err::<u64, LumentixError>(
                LumentixError::EventSoldOut,
            )
        },
{
}

/// A purchase moves the event's price into the marketplace, whatever the
/// payment offered: the fee on the price, rounded down, to the platform
/// balance and the rest to the event's escrow; the ticket records the price,
/// and other events' escrow balances do not change.
pub proof fn lemma_purchase_fee_split(m: MarketModel, buyer: Seq<char>, event_id: u64, payment: i128)
    requires
        m.wf(),
        m.purchase_result(event_id, payment) is Ok,
        m.tickets.len() < u64::MAX,
    ensures
        ({
            let m2 = m.purchased(buyer, event_id);
            let price = m.event(event_id).price as int;
            let fee = price * m.fee_bps as int / 10000;
            &&& m2.platform_balance == m.platform_balance + fee
            &&& m2.escrow_of(event_id) == m.escrow_of(event_id) + price - fee
            &&& 0 <= fee <= price
            &&& m2.platform_balance + m2.escrow_of(event_id) == m.platform_balance + m.escrow_of(
                event_id,
            ) + price
            &&& m2.ticket((m.tickets.len() + 1) as u64).purchase_price == price
            &&& forall|k: u64| #[trigger] m.has_event(k) && k != event_id ==> m2.escrow_of(k)
                == m.escrow_of(k)
        }),
{
    assert(m.events[event_id - 1].price > 0);
    lemma_fee_bounds(m.event(event_id).price as int, m.fee_bps as int);
}

/// A ticket can be used once, and only by the organizer of its event.
pub proof fn lemma_use_ticket_once(m: MarketModel, ticket_id: u64, caller: Seq<char>)
    requires
        m.wf(),
        m.has_ticket(ticket_id),
    ensures
        caller != m.event(m.ticket(ticket_id).event_id).organizer ==> m.use_ticket_result(
            ticket_id,
            caller,
        ) == Err::<(), LumentixError>(LumentixError::Unauthorized),
        m.use_ticket_result(ticket_id, caller) is Ok ==> {
            let m2 = m.ticket_status_set(ticket_id, TicketStatus::Used);
            &&& m2.ticket(ticket_id).status == TicketStatus::Used
            &&& m2.use_ticket_result(ticket_id, caller) == Err::<(), LumentixError>(
                LumentixError::TicketAlreadyUsed,
            )
        },
{
}

/// The owner of a ticket gets a refund only once its event is cancelled, and
/// only once.
pub proof fn lemma_refund_once(m: MarketModel, ticket_id: u64, caller: Seq<char>)
    requires
        m.wf(),
        m.has_ticket(ticket_id),
        caller == m.ticket(ticket_id).owner,
    ensures
        m.event(m.ticket(ticket_id).event_id).status != EventStatus::Cancelled ==> m.refund_result(
            ticket_id,
            caller,
        ) == Err::<(), LumentixError>(LumentixError::EventNotCancelled),
        m.event(m.ticket(ticket_id).event_id).status == EventStatus::Cancelled && m.ticket(
            ticket_id,
        ).status == TicketStatus::Valid ==> m.refund_result(ticket_id, caller) is Ok,
        m.refund_result(ticket_id, caller) is Ok ==> {
            let m2 = m.refunded(ticket_id);
            &&& m2.ticket(ticket_id).status == TicketStatus::Refunded
            &&& m2.refund_result(ticket_id, caller) == Err::<(), LumentixError>(
                LumentixError::TicketAlreadyUsed,
            )
        },
{
}

/// Withdrawing hands out the whole platform balance and leaves it at zero, so
/// a second withdrawal right after reports that there are no fees.
pub proof fn lemma_withdraw_twice(m: MarketModel, caller: Seq<char>)
    requires
        m.wf(),
        m.withdraw_result(caller) is Ok,
    ensures
        m.withdraw_result(caller) == Ok::<int, LumentixError>(m.platform_balance),
        m.withdrawn().platform_balance == 0,
        m.withdrawn().withdraw_result(caller) == Err::<int, LumentixError>(
            LumentixError::NoPlatformFees,
        ),
{
}

/// Only the administrator may set the fee rate, and never above 10000 basis
/// points.
pub proof fn lemma_set_fee_rejections(m: MarketModel, caller: Seq<char>, bps: u32)
    ensures
        !m.is_admin(caller) ==> m.set_fee_result(caller, bps) == Err::<(), LumentixError>(
            LumentixError::Unauthorized,
        ),
        m.is_admin(caller) && bps > 10000 ==> m.set_fee_result(caller, bps) == Err::<
            (),
            LumentixError,
        >(LumentixError::InvalidPlatformFee),
        m.set_fee_result(caller, bps) is Ok ==> bps <= 10000,
{
}

} // verus!
