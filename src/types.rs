//! Records of the marketplace and their abstract views.
use vstd::prelude::*;

verus! {

/// An opaque caller identity, known by its textual key.
#[derive(Clone, Debug, PartialEq, Eq)]
pub struct Principal {
    key: String,
}

impl View for Principal {
    type V = Seq<char>;

    closed spec fn view(&self) -> Seq<char> {
        self.key@
    }
}

impl Principal {
    pub fn new(key: String) -> (r: Principal)
        ensures
            r@ == key@,
    {
        Principal { key }
    }

    pub fn from_str(key: &str) -> (r: Principal)
        ensures
            r@ == key@,
    {
        Principal { key: key.to_string() }
    }

    /// Whether both values name the same principal.
    pub fn same(&self, other: &Principal) -> (r: bool)
        ensures
            r == (self@ == other@),
    {
        self.key == other.key
    }

    pub fn as_str(&self) -> (r: &str)
        ensures
            r@ == self@,
    {
        self.key.as_str()
    }

    pub fn duplicate(&self) -> (r: Principal)
        ensures
            r@ == self@,
    {
        Principal { key: self.key.clone() }
    }
}

/// Failures reported by the marketplace operations.
#[derive(Clone, Copy, Debug, PartialEq, Eq, Structural)]
pub enum LumentixError {
    AlreadyInitialized,
    Unauthorized,
    EmptyString,
    InvalidTimeRange,
    InvalidAmount,
    CapacityExceeded,
    InvalidStatusTransition,
    EventSoldOut,
    InsufficientFunds,
    TicketAlreadyUsed,
    EventNotCancelled,
    InvalidPlatformFee,
    NoPlatformFees,
    NotFound,
}

#[derive(Clone, Copy, Debug, PartialEq, Eq, Structural)]
pub enum EventStatus {
    Draft,
    Published,
    Cancelled,
    Completed,
}

#[derive(Clone, Copy, Debug, PartialEq, Eq, Structural)]
pub enum TicketStatus {
    Valid,
    Used,
    Refunded,
}

#[derive(Clone, Debug, PartialEq, Eq)]
pub struct Event {
    pub id: u64,
    pub organizer: Principal,
    pub name: String,
    pub description: String,
    pub location: String,
    pub start_time: u64,
    pub end_time: u64,
    pub price: i128,
    pub capacity: u32,
    pub tickets_sold: u32,
    pub status: EventStatus,
}

/// What an event is, with its texts and organizer as character sequences.
pub struct EventView {
    pub id: u64,
    pub organizer: Seq<char>,
    pub name: Seq<char>,
    pub description: Seq<char>,
    pub location: Seq<char>,
    pub start_time: u64,
    pub end_time: u64,
    pub price: i128,
    pub capacity: u32,
    pub tickets_sold: u32,
    pub status: EventStatus,
}

impl View for Event {
    type V = EventView;

    open spec fn view(&self) -> EventView {
        EventView {
            id: self.id,
            organizer: self.organizer@,
            name: self.name@,
            description: self.description@,
            location: self.location@,
            start_time: self.start_time,
            end_time: self.end_time,
            price: self.price,
            capacity: self.capacity,
            tickets_sold: self.tickets_sold,
            status: self.status,
        }
    }
}

impl Event {
    pub fn duplicate(&self) -> (r: Event)
        ensures
            r@ == self@,
    {
        Event {
            id: self.id,
            organizer: self.organizer.duplicate(),
            name: self.name.clone(),
            description: self.description.clone(),
            location: self.location.clone(),
            start_time: self.start_time,
            end_time: self.end_time,
            price: self.price,
            capacity: self.capacity,
            tickets_sold: self.tickets_sold,
            status: self.status,
        }
    }
}

#[derive(Clone, Debug, PartialEq, Eq)]
pub struct Ticket {
    pub id: u64,
    pub event_id: u64,
    pub owner: Principal,
    pub purchase_price: i128,
    pub status: TicketStatus,
}

pub struct TicketView {
    pub id: u64,
    pub event_id: u64,
    pub owner: Seq<char>,
    pub purchase_price: i128,
    pub status: TicketStatus,
}

impl View for Ticket {
    type V = TicketView;

    open spec fn view(&self) -> TicketView {
        TicketView {
            id: self.id,
            event_id: self.event_id,
            owner: self.owner@,
            purchase_price: self.purchase_price,
            status: self.status,
        }
    }
}

impl Ticket {
    pub fn duplicate(&self) -> (r: Ticket)
        ensures
            r@ == self@,
    {
        Ticket {
            id: self.id,
            event_id: self.event_id,
            owner: self.owner.duplicate(),
            purchase_price: self.purchase_price,
            status: self.status,
        }
    }
}

} // verus!
