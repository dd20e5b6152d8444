//! The marketplace engine: every operation checks all its failure conditions
//! before it changes anything, so a failed call leaves the state as it was.
use vstd::prelude::*;
use crate::fees::{platform_fee, BPS_DENOMINATOR};
use crate::laws::{lemma_create_event_next_id, lemma_purchase_preserves_wf};
use crate::model::MarketModel;
use crate::status::can_transition;
use crate::types::{
    Event, EventStatus, EventView, LumentixError, Principal, Ticket, TicketStatus, TicketView,
};

verus! {

pub struct Marketplace {
    admin: Option<Principal>,
    fee_bps: u32,
    platform_balance: i128,
    events: Vec<Event>,
    tickets: Vec<Ticket>,
    escrow: Vec<i128>,
}

pub open spec fn admin_view(admin: Option<Principal>) -> Option<Seq<char>> {
    match admin {
        Some(p) => Some(p@),
        None => None,
    }
}

pub open spec fn event_views(events: Seq<Event>) -> Seq<EventView> {
    events.map_values(|e: Event| e@)
}

pub open spec fn ticket_views(tickets: Seq<Ticket>) -> Seq<TicketView> {
    tickets.map_values(|t: Ticket| t@)
}

pub open spec fn balance_views(balances: Seq<i128>) -> Seq<int> {
    balances.map_values(|b: i128| b as int)
}

/// The model of a marketplace held as separate parts.
pub open spec fn model_of_parts(
    admin: Option<Principal>,
    fee_bps: u32,
    platform_balance: i128,
    events: Seq<Event>,
    tickets: Seq<Ticket>,
    escrow: Seq<i128>,
) -> MarketModel {
    MarketModel {
        admin: admin_view(admin),
        fee_bps,
        platform_balance: platform_balance as int,
        events: event_views(events),
        tickets: ticket_views(tickets),
        escrow: balance_views(escrow),
    }
}

impl View for Marketplace {
    type V = MarketModel;

    closed spec fn view(&self) -> MarketModel {
        model_of_parts(
            self.admin,
            self.fee_bps,
            self.platform_balance,
            self.events@,
            self.tickets@,
            self.escrow@,
        )
    }
}

impl Marketplace {
    pub closed spec fn wf(&self) -> bool {
        &&& self@.wf()
        &&& self.events@.len() == self.escrow@.len()
    }

    /// A well-formed marketplace has a well-formed model: ids follow
    /// positions, every ticket names a stored event, and the fee rate and
    /// balances are in range.
    pub proof fn lemma_wf_model(&self)
        requires
            self.wf(),
        ensures
            self@.wf(),
    {
    }

    pub fn new() -> (r: Marketplace)
        ensures
            r.wf(),
            r@ == MarketModel::empty(),
    {
        let r = Marketplace {
            admin: None,
            fee_bps: 0,
            platform_balance: 0,
            events: Vec::new(),
            tickets: Vec::new(),
            escrow: Vec::new(),
        };
        assert(r@.events =~= Seq::empty());
        assert(r@.tickets =~= Seq::empty());
        assert(r@.escrow =~= Seq::empty());
        r
    }

    /// One-time setup: records the administrator, with a zero fee rate and
    /// an empty platform balance.
    pub fn initialize(&mut self, admin: Principal) -> (r: Result<(), LumentixError>)
        requires
            old(self).wf(),
        ensures
            final(self).wf(),
            r == old(self)@.initialize_result(admin@),
            r is Ok ==> final(self)@ == old(self)@.initialized(admin@),
            r is Err ==> final(self)@ == old(self)@,
    {
        if self.admin.is_some() {
            return Err(LumentixError::AlreadyInitialized);
        }
        self.admin = Some(admin);
        self.fee_bps = 0;
        self.platform_balance = 0;
        Ok(())
    }

    fn check_text(s: &String) -> (r: bool)
        ensures
            r == (s@.len() > 0),
    {
        !s.as_str().is_empty()
    }

    pub fn create_event(
        &mut self,
        organizer: Principal,
        name: String,
        description: String,
        location: String,
        start_time: u64,
        end_time: u64,
        price: i128,
        capacity: u32,
    ) -> (r: Result<u64, LumentixError>)
        requires
            old(self).wf(),
            old(self)@.events.len() < u64::MAX,
        ensures
            final(self).wf(),
            r == old(self)@.create_event_result(
                name@,
                description@,
                location@,
                start_time,
                end_time,
                price,
                capacity,
            ),
            r is Ok ==> final(self)@ == old(self)@.event_created(
                organizer@,
                name@,
                description@,
                location@,
                start_time,
                end_time,
                price,
                capacity,
            ),
            r matches Ok(id) ==> {
                &&& id == old(self)@.max_event_id() + 1
                &&& final(self)@.has_event(id)
                &&& final(self)@.event(id).status == EventStatus::Draft
                &&& final(self)@.event(id).tickets_sold == 0
            },
            r is Err ==> final(self)@ == old(self)@,
    {
        if !Self::check_text(&name) || !Self::check_text(&description) || !Self::check_text(
            &location,
        ) {
            return Err(LumentixError::EmptyString);
        }
        if start_time >= end_time {
            return Err(LumentixError::InvalidTimeRange);
        }
        if price <= 0 {
            return Err(LumentixError::InvalidAmount);
        }
        if capacity == 0 {
            return Err(LumentixError::CapacityExceeded);
        }
        let id: u64 = self.events.len() as u64 + 1;
        let ghost old_model = self@;
        let e = Event {
            id,
            organizer,
            name,
            description,
            location,
            start_time,
            end_time,
            price,
            capacity,
            tickets_sold: 0,
            status: EventStatus::Draft,
        };
        self.events.push(e);
        self.escrow.push(0);
        proof {
            let expect = old_model.event_created(
                e.organizer@,
                e.name@,
                e.description@,
                e.location@,
                start_time,
                end_time,
                price,
                capacity,
            );
            assert(self@.events =~= expect.events);
            assert(self@.escrow =~= expect.escrow);
            lemma_create_event_next_id(
                old_model,
                e.organizer@,
                e.name@,
                e.description@,
                e.location@,
                start_time,
                end_time,
                price,
                capacity,
            );
        }
        Ok(id)
    }

    pub fn get_event(&self, event_id: u64) -> (r: Result<Event, LumentixError>)
        requires
            self.wf(),
        ensures
            match r {
                Ok(e) => self@.has_event(event_id) && e@ == self@.event(event_id),
                Err(err) => !self@.has_event(event_id) && err == LumentixError::NotFound,
            },
    {
        if event_id == 0 || event_id > self.events.len() as u64 {
            return Err(LumentixError::NotFound);
        }
        Ok(self.events[(event_id - 1) as usize].duplicate())
    }

    pub fn update_event_status(
        &mut self,
        event_id: u64,
        new_status: EventStatus,
        caller: Principal,
    ) -> (r: Result<(), LumentixError>)
        requires
            old(self).wf(),
        ensures
            final(self).wf(),
            r == old(self)@.update_status_result(event_id, new_status, caller@),
            r is Ok ==> final(self)@ == old(self)@.status_updated(event_id, new_status),
            r is Err ==> final(self)@ == old(self)@,
    {
        if event_id == 0 || event_id > self.events.len() as u64 {
            return Err(LumentixError::NotFound);
        }
        let i = (event_id - 1) as usize;
        if !self.events[i].organizer.same(&caller) {
            return Err(LumentixError::Unauthorized);
        }
        if !can_transition(self.events[i].status, new_status) {
            return Err(LumentixError::InvalidStatusTransition);
        }
        let ghost old_model = self@;
        self.events[i].status = new_status;
        proof {
            assert(self@.events =~= old_model.status_updated(event_id, new_status).events);
        }
        Ok(())
    }

    /// Cancels an event; the same as a status update to `Cancelled`.
    pub fn cancel_event(&mut self, caller: Principal, event_id: u64) -> (r: Result<
        (),
        LumentixError,
    >)
        requires
            old(self).wf(),
        ensures
            final(self).wf(),
            r == old(self)@.update_status_result(event_id, EventStatus::Cancelled, caller@),
            r is Ok ==> final(self)@ == old(self)@.status_updated(event_id, EventStatus::Cancelled),
            r is Err ==> final(self)@ == old(self)@,
    {
        self.update_event_status(event_id, EventStatus::Cancelled, caller)
    }
    /// Sells one ticket of a published event to `buyer`, whose payment must
    /// cover the price. The price is charged: the platform takes the fee on it
    /// and the rest is held in the event's escrow.
    pub fn purchase_ticket(&mut self, buyer: Principal, event_id: u64, payment_amount: i128) -> (r:
        Result<u64, LumentixError>)
        requires
            old(self).wf(),
            old(self)@.tickets.len() < u64::MAX,
            old(self)@.purchase_result(event_id, payment_amount) is Ok ==> {
                &&& old(self)@.platform_balance + old(self)@.event(event_id).price <= i128::MAX
                &&& old(self)@.escrow_of(event_id) + old(self)@.event(event_id).price <= i128::MAX
            },
        ensures
            final(self).wf(),
            r == old(self)@.purchase_result(event_id, payment_amount),
            r is Ok ==> final(self)@ == old(self)@.purchased(buyer@, event_id),
            r is Err ==> final(self)@ == old(self)@,
    {
        if event_id == 0 || event_id > self.events.len() as u64 {
            return Err(LumentixError::NotFound);
        }
        let i = (event_id - 1) as usize;
        if self.events[i].status != EventStatus::Published {
            return Err(LumentixError::InvalidStatusTransition);
        }
        if self.events[i].tickets_sold >= self.events[i].capacity {
            return Err(LumentixError::EventSoldOut);
        }
        if payment_amount < self.events[i].price {
            return Err(LumentixError::InsufficientFunds);
        }
        let ghost old_model = self@;
        let price = self.events[i].price;
        assert(self@.events[i as int] == self.events@[i as int]@);
        let fee = platform_fee(price, self.fee_bps);
        let id: u64 = self.tickets.len() as u64 + 1;
        self.platform_balance = self.platform_balance + fee;
        self.escrow.set(i, self.escrow[i] + (price - fee));
        self.events[i].tickets_sold = self.events[i].tickets_sold + 1;
        let t = Ticket {
            id,
            event_id,
            owner: buyer,
            purchase_price: price,
            status: TicketStatus::Valid,
        };
        self.tickets.push(t);
        proof {
            let expect = old_model.purchased(t.owner@, event_id);
            assert(self@.events =~= expect.events);
            assert(self@.escrow =~= expect.escrow);
            assert(self@.tickets =~= expect.tickets);
            assert(self@ == expect);
            lemma_purchase_preserves_wf(old_model, t.owner@, event_id, payment_amount);
        }
        Ok(id)
    }

    /// Marks a valid ticket as used; only the organizer of its event may.
    pub fn use_ticket(&mut self, ticket_id: u64, caller: Principal) -> (r: Result<
        (),
        LumentixError,
    >)
        requires
            old(self).wf(),
        ensures
            final(self).wf(),
            r == old(self)@.use_ticket_result(ticket_id, caller@),
            r is Ok ==> final(self)@ == old(self)@.ticket_status_set(ticket_id, TicketStatus::Used),
            r is Err ==> final(self)@ == old(self)@,
    {
        if ticket_id == 0 || ticket_id > self.tickets.len() as u64 {
            return Err(LumentixError::NotFound);
        }
        let j = (ticket_id - 1) as usize;
        assert(self@.tickets[j as int] == self.tickets@[j as int]@);
        let n_events = self.events.len();
        assert(1 <= self@.tickets[j as int].event_id <= n_events);
        let i = (self.tickets[j].event_id - 1) as usize;
        assert(self@.events[i as int] == self.events@[i as int]@);
        if !self.events[i].organizer.same(&caller) {
            return Err(LumentixError::Unauthorized);
        }
        if self.tickets[j].status != TicketStatus::Valid {
            return Err(LumentixError::TicketAlreadyUsed);
        }
        let ghost old_model = self@;
        self.tickets[j].status = TicketStatus::Used;
        proof {
            assert(self@.tickets =~= old_model.ticket_status_set(
                ticket_id,
                TicketStatus::Used,
            ).tickets);
        }
        Ok(())
    }

    /// Refunds a valid ticket of a cancelled event to its owner, releasing the
    /// price paid less the fee at the current rate from the event's escrow.
    pub fn refund_ticket(&mut self, ticket_id: u64, caller: Principal) -> (r: Result<
        (),
        LumentixError,
    >)
        requires
            old(self).wf(),
            old(self)@.refund_result(ticket_id, caller@) is Ok ==> old(self)@.escrow_of(
                old(self)@.ticket(ticket_id).event_id,
            ) >= old(self)@.refund_amount(ticket_id),
        ensures
            final(self).wf(),
            r == old(self)@.refund_result(ticket_id, caller@),
            r is Ok ==> final(self)@ == old(self)@.refunded(ticket_id),
            r is Err ==> final(self)@ == old(self)@,
    {
        if ticket_id == 0 || ticket_id > self.tickets.len() as u64 {
            return Err(LumentixError::NotFound);
        }
        let j = (ticket_id - 1) as usize;
        assert(self@.tickets[j as int] == self.tickets@[j as int]@);
        if !self.tickets[j].owner.same(&caller) {
            return Err(LumentixError::Unauthorized);
        }
        let n_events = self.events.len();
        assert(1 <= self@.tickets[j as int].event_id <= n_events);
        let i = (self.tickets[j].event_id - 1) as usize;
        assert(self@.events[i as int] == self.events@[i as int]@);
        assert(self@.escrow[i as int] == self.escrow@[i as int] as int);
        if self.events[i].status != EventStatus::Cancelled {
            return Err(LumentixError::EventNotCancelled);
        }
        if self.tickets[j].status != TicketStatus::Valid {
            return Err(LumentixError::TicketAlreadyUsed);
        }
        let ghost old_model = self@;
        let price = self.tickets[j].purchase_price;
        let amount = price - platform_fee(price, self.fee_bps);
        self.escrow.set(i, self.escrow[i] - amount);
        self.tickets[j].status = TicketStatus::Refunded;
        proof {
            let expect = old_model.refunded(ticket_id);
            assert(self@.escrow =~= expect.escrow);
            assert(self@.tickets =~= expect.tickets);
        }
        Ok(())
    }

    pub fn set_platform_fee(&mut self, caller: Principal, bps: u32) -> (r: Result<
        (),
        LumentixError,
    >)
        requires
            old(self).wf(),
        ensures
            final(self).wf(),
            r == old(self)@.set_fee_result(caller@, bps),
            r is Ok ==> final(self)@ == (MarketModel { fee_bps: bps, ..old(self)@ }),
            r is Err ==> final(self)@ == old(self)@,
    {
        if !self.is_admin(&caller) {
            return Err(LumentixError::Unauthorized);
        }
        if bps > BPS_DENOMINATOR {
            return Err(LumentixError::InvalidPlatformFee);
        }
        self.fee_bps = bps;
        Ok(())
    }

    /// Hands the whole platform balance to the administrator and zeroes it.
    pub fn withdraw_platform_fees(&mut self, caller: Principal) -> (r: Result<
        i128,
        LumentixError,
    >)
        requires
            old(self).wf(),
        ensures
            final(self).wf(),
            match r {
                Ok(v) => old(self)@.withdraw_result(caller@) == Ok::<int, LumentixError>(v as int),
                Err(e) => old(self)@.withdraw_result(caller@) == Err::<int, LumentixError>(e),
            },
            r is Ok ==> final(self)@ == old(self)@.withdrawn(),
            r is Err ==> final(self)@ == old(self)@,
    {
        if !self.is_admin(&caller) {
            return Err(LumentixError::Unauthorized);
        }
        if self.platform_balance == 0 {
            return Err(LumentixError::NoPlatformFees);
        }
        let amount = self.platform_balance;
        self.platform_balance = 0;
        Ok(amount)
    }

    fn is_admin(&self, caller: &Principal) -> (r: bool)
        ensures
            r == self@.is_admin(caller@),
    {
        match &self.admin {
            Some(a) => a.same(caller),
            None => false,
        }
    }

    pub fn get_ticket(&self, ticket_id: u64) -> (r: Result<Ticket, LumentixError>)
        requires
            self.wf(),
        ensures
            match r {
                Ok(t) => self@.has_ticket(ticket_id) && t@ == self@.ticket(ticket_id),
                Err(err) => !self@.has_ticket(ticket_id) && err == LumentixError::NotFound,
            },
    {
        if ticket_id == 0 || ticket_id > self.tickets.len() as u64 {
            return Err(LumentixError::NotFound);
        }
        Ok(self.tickets[(ticket_id - 1) as usize].duplicate())
    }

    pub fn get_platform_fee(&self) -> (r: u32)
        ensures
            r == self@.fee_bps,
    {
        self.fee_bps
    }

    pub fn get_platform_balance(&self) -> (r: i128)
        ensures
            r == self@.platform_balance,
    {
        self.platform_balance
    }

    /// The escrow balance held for an event; zero for an unknown id.
    pub fn get_event_escrow(&self, event_id: u64) -> (r: i128)
        requires
            self.wf(),
        ensures
            self@.has_event(event_id) ==> r == self@.escrow_of(event_id),
            !self@.has_event(event_id) ==> r == 0,
    {
        if event_id == 0 || event_id > self.escrow.len() as u64 {
            return 0;
        }
        self.escrow[(event_id - 1) as usize]
    }
    /// Rebuilds a marketplace from parts held elsewhere between calls; `None`
    /// when the parts do not form a well-formed marketplace.
    pub fn restore(
        admin: Option<Principal>,
        fee_bps: u32,
        platform_balance: i128,
        events: Vec<Event>,
        tickets: Vec<Ticket>,
        escrow: Vec<i128>,
    ) -> (r: Option<Marketplace>)
        ensures
            ({
                let m = model_of_parts(admin, fee_bps, platform_balance, events@, tickets@, escrow@);
                match r {
                    Some(market) => market.wf() && market@ == m,
                    None => !m.wf(),
                }
            }),
    {
        let ghost m = model_of_parts(admin, fee_bps, platform_balance, events@, tickets@, escrow@);
        if fee_bps > BPS_DENOMINATOR || platform_balance < 0 {
            return None;
        }
        if admin.is_none() && (fee_bps != 0 || platform_balance != 0) {
            return None;
        }
        if escrow.len() != events.len() {
            return None;
        }
        let mut i: usize = 0;
        while i < events.len()
            invariant
                0 <= i <= events@.len(),
                m == model_of_parts(admin, fee_bps, platform_balance, events@, tickets@, escrow@),
                forall|k: int| 0 <= k < i ==> {
                    let e = #[trigger] m.events[k];
                    &&& e.id == k + 1
                    &&& e.price > 0
                    &&& e.capacity > 0
                    &&& e.tickets_sold <= e.capacity
                },
            decreases events@.len() - i,
        {
            let e = &events[i];
            assert(m.events[i as int] == events@[i as int]@);
            if e.id == 0 || e.id - 1 != i as u64 || e.price <= 0 || e.capacity == 0
                || e.tickets_sold > e.capacity {
                return None;
            }
            i = i + 1;
        }
        let n_events = events.len();
        let mut j: usize = 0;
        while j < tickets.len()
            invariant
                0 <= j <= tickets@.len(),
                n_events == events@.len(),
                m == model_of_parts(admin, fee_bps, platform_balance, events@, tickets@, escrow@),
                forall|k: int| 0 <= k < j ==> {
                    let t = #[trigger] m.tickets[k];
                    &&& t.id == k + 1
                    &&& 1 <= t.event_id <= m.events.len()
                    &&& t.purchase_price > 0
                },
            decreases tickets@.len() - j,
        {
            let t = &tickets[j];
            assert(m.tickets[j as int] == tickets@[j as int]@);
            if t.id == 0 || t.id - 1 != j as u64 || t.event_id == 0 || t.event_id > n_events as u64
                || t.purchase_price <= 0 {
                return None;
            }
            j = j + 1;
        }
        let market = Marketplace { admin, fee_bps, platform_balance, events, tickets, escrow };
        Some(market)
    }

    /// Takes a marketplace apart, for keeping it elsewhere between calls.
    pub fn into_parts(self) -> (r: (Option<Principal>, u32, i128, Vec<Event>, Vec<Ticket>, Vec<i128>))
        ensures
            model_of_parts(r.0, r.1, r.2, r.3@, r.4@, r.5@) == self@,
    {
        (self.admin, self.fee_bps, self.platform_balance, self.events, self.tickets, self.escrow)
    }

    /// The administrator, once the marketplace is initialized.
    pub fn admin(&self) -> (r: Option<Principal>)
        ensures
            admin_view(r) == self@.admin,
    {
        match &self.admin {
            Some(a) => Some(a.duplicate()),
            None => None,
        }
    }
    /// What refunding a ticket would release from its event's escrow at the
    /// current fee rate; `None` for an unknown ticket.
    pub fn ticket_refund_amount(&self, ticket_id: u64) -> (r: Option<i128>)
        requires
            self.wf(),
        ensures
            match r {
                Some(a) => self@.has_ticket(ticket_id) && a == self@.refund_amount(ticket_id),
                None => !self@.has_ticket(ticket_id),
            },
    {
        if ticket_id == 0 || ticket_id > self.tickets.len() as u64 {
            return None;
        }
        let j = (ticket_id - 1) as usize;
        assert(self@.tickets[j as int] == self.tickets@[j as int]@);
        let price = self.tickets[j].purchase_price;
        Some(price - platform_fee(price, self.fee_bps))
    }
}

} // verus!
