//! The abstract marketplace state and each operation as a step on it.
use vstd::prelude::*;
use crate::fees::fee_of;
use crate::status::allowed_transition;
use crate::types::{EventStatus, EventView, LumentixError, TicketStatus, TicketView};

verus! {

/// The whole marketplace: configuration, the event and ticket records in id
/// order (the record with id `k` stands at index `k - 1`), and the escrow
/// balance of each event, at the same index as its event.
pub struct MarketModel {
    pub admin: Option<Seq<char>>,
    pub fee_bps: u32,
    pub platform_balance: int,
    pub events: Seq<EventView>,
    pub tickets: Seq<TicketView>,
    pub escrow: Seq<int>,
}

impl MarketModel {
    pub open spec fn wf(self) -> bool {
        &&& self.fee_bps <= 10000
        &&& self.platform_balance >= 0
        &&& self.admin is None ==> self.fee_bps == 0 && self.platform_balance == 0
        &&& self.escrow.len() == self.events.len()
        &&& forall|i: int| 0 <= i < self.events.len() ==> {
            let e = #[trigger] self.events[i];
            &&& e.id == i + 1
            &&& e.price > 0
            &&& e.capacity > 0
            &&& e.tickets_sold <= e.capacity
        }
        &&& forall|j: int| 0 <= j < self.tickets.len() ==> {
            let t = #[trigger] self.tickets[j];
            &&& t.id == j + 1
            &&& 1 <= t.event_id <= self.events.len()
            &&& t.purchase_price > 0
        }
    }

    /// The state before any operation.
    pub open spec fn empty() -> MarketModel {
        MarketModel {
            admin: None,
            fee_bps: 0,
            platform_balance: 0,
            events: Seq::empty(),
            tickets: Seq::empty(),
            escrow: Seq::empty(),
        }
    }

    /// The largest event id handed out so far, 0 before the first event.
    pub open spec fn max_event_id(self) -> int {
        if self.events.len() == 0 {
            0
        } else {
            self.events.last().id as int
        }
    }

    pub open spec fn has_event(self, id: u64) -> bool {
        1 <= id <= self.events.len()
    }

    pub open spec fn event(self, id: u64) -> EventView {
        self.events[id - 1]
    }

    pub open spec fn escrow_of(self, id: u64) -> int {
        self.escrow[id - 1]
    }

    pub open spec fn has_ticket(self, id: u64) -> bool {
        1 <= id <= self.tickets.len()
    }

    pub open spec fn ticket(self, id: u64) -> TicketView {
        self.tickets[id - 1]
    }

    pub open spec fn is_admin(self, caller: Seq<char>) -> bool {
        self.admin == Some(caller)
    }

    // ---- initialize ----

    pub open spec fn initialize_result(self, admin: Seq<char>) -> Result<(), LumentixError> {
        if self.admin is Some {
            Err(LumentixError::AlreadyInitialized)
        } else {
            Ok(())
        }
    }

    pub open spec fn initialized(self, admin: Seq<char>) -> MarketModel {
        MarketModel { admin: Some(admin), fee_bps: 0, platform_balance: 0, ..self }
    }

    // ---- create_event ----

    pub open spec fn create_event_result(
        self,
        name: Seq<char>,
        description: Seq<char>,
        location: Seq<char>,
        start_time: u64,
        end_time: u64,
        price: i128,
        capacity: u32,
    ) -> Result<u64, LumentixError> {
        if name.len() == 0 || description.len() == 0 || location.len() == 0 {
            Err(LumentixError::EmptyString)
        } else if start_time >= end_time {
            Err(LumentixError::InvalidTimeRange)
        } else if price <= 0 {
            Err(LumentixError::InvalidAmount)
        } else if capacity == 0 {
            Err(LumentixError::CapacityExceeded)
        } else {
            Ok((self.events.len() + 1) as u64)
        }
    }

    pub open spec fn event_created(
        self,
        organizer: Seq<char>,
        name: Seq<char>,
        description: Seq<char>,
        location: Seq<char>,
        start_time: u64,
        end_time: u64,
        price: i128,
        capacity: u32,
    ) -> MarketModel {
        let e = EventView {
            id: (self.events.len() + 1) as u64,
            organizer,
            name,
            description,
            location,
            start_time,
            end_time,
            price,
            capacity,
            tickets_sold: 0,
            status: EventStatus::Draft,
        };
        MarketModel { events: self.events.push(e), escrow: self.escrow.push(0), ..self }
    }

    // ---- update_event_status ----

    pub open spec fn update_status_result(
        self,
        event_id: u64,
        new_status: EventStatus,
        caller: Seq<char>,
    ) -> Result<(), LumentixError> {
        if !self.has_event(event_id) {
            Err(LumentixError::NotFound)
        } else if self.event(event_id).organizer != caller {
            Err(LumentixError::Unauthorized)
        } else if !allowed_transition(self.event(event_id).status, new_status) {
            Err(LumentixError::InvalidStatusTransition)
        } else {
            Ok(())
        }
    }

    pub open spec fn status_updated(self, event_id: u64, new_status: EventStatus) -> MarketModel {
        let e = self.event(event_id);
        MarketModel {
            events: self.events.update(event_id - 1, EventView { status: new_status, ..e }),
            ..self
        }
    }

    // ---- purchase_ticket ----

    pub open spec fn purchase_result(self, event_id: u64, payment: i128) -> Result<
        u64,
        LumentixError,
    > {
        if !self.has_event(event_id) {
            Err(LumentixError::NotFound)
        } else if self.event(event_id).status != EventStatus::Published {
            Err(LumentixError::InvalidStatusTransition)
        } else if self.event(event_id).tickets_sold >= self.event(event_id).capacity {
            Err(LumentixError::EventSoldOut)
        } else if payment < self.event(event_id).price {
            Err(LumentixError::InsufficientFunds)
        } else {
            Ok((self.tickets.len() + 1) as u64)
        }
    }

    /// The state after a successful purchase: the event's price is charged,
    /// the fee on it goes to the platform and the rest to the event's escrow.
    pub open spec fn purchased(self, buyer: Seq<char>, event_id: u64) -> MarketModel {
        let e = self.event(event_id);
        let fee = fee_of(e.price as int, self.fee_bps as int);
        let t = TicketView {
            id: (self.tickets.len() + 1) as u64,
            event_id,
            owner: buyer,
            purchase_price: e.price,
            status: TicketStatus::Valid,
        };
        MarketModel {
            platform_balance: self.platform_balance + fee,
            escrow: self.escrow.update(event_id - 1, self.escrow_of(event_id) + e.price - fee),
            events: self.events.update(
                event_id - 1,
                EventView { tickets_sold: (e.tickets_sold + 1) as u32, ..e },
            ),
            tickets: self.tickets.push(t),
            ..self
        }
    }

    // ---- use_ticket ----

    pub open spec fn use_ticket_result(self, ticket_id: u64, caller: Seq<char>) -> Result<
        (),
        LumentixError,
    > {
        if !self.has_ticket(ticket_id) {
            Err(LumentixError::NotFound)
        } else if self.event(self.ticket(ticket_id).event_id).organizer != caller {
            Err(LumentixError::Unauthorized)
        } else if self.ticket(ticket_id).status != TicketStatus::Valid {
            Err(LumentixError::TicketAlreadyUsed)
        } else {
            Ok(())
        }
    }

    pub open spec fn ticket_status_set(self, ticket_id: u64, status: TicketStatus) -> MarketModel {
        let t = self.ticket(ticket_id);
        MarketModel {
            tickets: self.tickets.update(ticket_id - 1, TicketView { status, ..t }),
            ..self
        }
    }

    // ---- refund_ticket ----

    pub open spec fn refund_result(self, ticket_id: u64, caller: Seq<char>) -> Result<
        (),
        LumentixError,
    > {
        if !self.has_ticket(ticket_id) {
            Err(LumentixError::NotFound)
        } else if self.ticket(ticket_id).owner != caller {
            Err(LumentixError::Unauthorized)
        } else if self.event(self.ticket(ticket_id).event_id).status != EventStatus::Cancelled {
            Err(LumentixError::EventNotCancelled)
        } else if self.ticket(ticket_id).status != TicketStatus::Valid {
            Err(LumentixError::TicketAlreadyUsed)
        } else {
            Ok(())
        }
    }

    /// What a refund releases from escrow: the price paid less the fee on it
    /// at the current rate.
    pub open spec fn refund_amount(self, ticket_id: u64) -> int {
        let p = self.ticket(ticket_id).purchase_price as int;
        p - fee_of(p, self.fee_bps as int)
    }

    pub open spec fn refunded(self, ticket_id: u64) -> MarketModel {
        let eid = self.ticket(ticket_id).event_id;
        let m = self.ticket_status_set(ticket_id, TicketStatus::Refunded);
        MarketModel {
            escrow: m.escrow.update(eid - 1, self.escrow_of(eid) - self.refund_amount(ticket_id)),
            ..m
        }
    }

    // ---- platform fee administration ----

    pub open spec fn set_fee_result(self, caller: Seq<char>, bps: u32) -> Result<(), LumentixError> {
        if !self.is_admin(caller) {
            Err(LumentixError::Unauthorized)
        } else if bps > 10000 {
            Err(LumentixError::InvalidPlatformFee)
        } else {
            Ok(())
        }
    }

    pub open spec fn withdraw_result(self, caller: Seq<char>) -> Result<int, LumentixError> {
        if !self.is_admin(caller) {
            Err(LumentixError::Unauthorized)
        } else if self.platform_balance == 0 {
            Err(LumentixError::NoPlatformFees)
        } else {
            Ok(self.platform_balance)
        }
    }

    pub open spec fn withdrawn(self) -> MarketModel {
        MarketModel { platform_balance: 0, ..self }
    }
}

} // verus!
