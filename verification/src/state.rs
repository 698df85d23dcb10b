use crate::error::ErrorCode;
use crate::pubkey::Pubkey;
use vstd::prelude::*;

verus! {

/// The phase of a raffle. Phases only ever move forward:
/// `Active` to `Ended` to `Completed`.
#[derive(Clone, Copy, Debug, PartialEq, Eq, Structural)]
pub enum RaffleState {
    /// Tickets can be purchased.
    Active,
    /// Sales are closed; the raffle waits for its draw.
    Ended,
    /// The winner has been drawn and the escrow paid out.
    Completed,
}

/// The ledger entry of one raffle.
#[derive(Clone, Debug, PartialEq, Eq)]
pub struct Raffle {
    /// The party that created the raffle.
    pub creator: Pubkey,
    /// The price of one ticket, in lamports.
    pub ticket_price: u64,
    /// The number of tickets on sale.
    pub max_tickets: u32,
    /// The Unix time from which the raffle can be drawn without being sold out.
    pub end_time: i64,
    /// The number of tickets sold so far.
    pub total_tickets_sold: u32,
    /// The buyer of each ticket, in the order of sale.
    pub ticket_buyers: Vec<Pubkey>,
    /// The winner, once drawn.
    pub winner: Option<Pubkey>,
    /// The phase the raffle is in.
    pub state: RaffleState,
    /// The bump seed of the raffle's address.
    pub bump: u8,
    /// The number by which the creator tells their raffles apart.
    pub raffle_id: u64,
}

/// The receipt of one purchase. It is written once and never changed.
#[derive(Clone, Copy, Debug, PartialEq, Eq)]
pub struct Ticket {
    /// The address of the raffle the ticket belongs to.
    pub raffle: Pubkey,
    /// The party that bought the ticket.
    pub buyer: Pubkey,
    /// The position of the ticket in the order of sale, counted from zero.
    pub ticket_number: u32,
    /// The Unix time of the purchase.
    pub purchase_time: i64,
    /// The bump seed of the ticket's address.
    pub bump: u8,
}

/// A raffle as a mathematical value: field by field what `Raffle` holds,
/// with the buyers as a sequence.
pub struct RaffleView {
    pub creator: Pubkey,
    pub ticket_price: u64,
    pub max_tickets: u32,
    pub end_time: i64,
    pub total_tickets_sold: u32,
    pub ticket_buyers: Seq<Pubkey>,
    pub winner: Option<Pubkey>,
    pub state: RaffleState,
    pub bump: u8,
    pub raffle_id: u64,
}

impl View for Raffle {
    type V = RaffleView;

    open spec fn view(&self) -> RaffleView {
        RaffleView {
            creator: self.creator,
            ticket_price: self.ticket_price,
            max_tickets: self.max_tickets,
            end_time: self.end_time,
            total_tickets_sold: self.total_tickets_sold,
            ticket_buyers: self.ticket_buyers@,
            winner: self.winner,
            state: self.state,
            bump: self.bump,
            raffle_id: self.raffle_id,
        }
    }
}

impl RaffleState {
    /// The place of a phase in the order in which a raffle passes through
    /// them.
    pub open spec fn rank(self) -> nat {
        match self {
            RaffleState::Active => 0,
            RaffleState::Ended => 1,
            RaffleState::Completed => 2,
        }
    }
}

impl RaffleView {
    /// Whether `later` has the configuration that this raffle got at its
    /// creation: creator, number, price, limit, end time and bump seed.
    pub open spec fn same_configuration(self, later: RaffleView) -> bool {
        &&& later.creator == self.creator
        &&& later.raffle_id == self.raffle_id
        &&& later.ticket_price == self.ticket_price
        &&& later.max_tickets == self.max_tickets
        &&& later.end_time == self.end_time
        &&& later.bump == self.bump
    }

    /// Whether `later` can come after this raffle: the configuration is the
    /// same, the counter has not gone down, the roster has only grown at its
    /// end, the phase has not moved back, and a winner once recorded stays.
    pub open spec fn precedes(self, later: RaffleView) -> bool {
        &&& self.same_configuration(later)
        &&& self.total_tickets_sold <= later.total_tickets_sold
        &&& self.ticket_buyers.is_prefix_of(later.ticket_buyers)
        &&& self.state.rank() <= later.state.rank()
        &&& (self.winner is Some ==> later.winner == self.winner)
    }

    /// What holds of every raffle that the operations produce: price and
    /// limit are positive, the counter stays within the limit and counts the
    /// buyers, and a winner is recorded exactly in the last phase and is one of
    /// the buyers.
    pub open spec fn wf(self) -> bool {
        &&& self.ticket_price > 0
        &&& self.max_tickets > 0
        &&& self.total_tickets_sold <= self.max_tickets
        &&& self.ticket_buyers.len() == self.total_tickets_sold
        &&& (self.state == RaffleState::Completed <==> self.winner is Some)
        &&& (self.winner matches Some(w) ==> self.ticket_buyers.contains(w))
    }

    /// Why these parameters cannot make a raffle at time `now`, if they cannot.
    /// The price is looked at first, then the limit, then the end time.
    pub open spec fn creation_refusal(
        ticket_price: u64,
        max_tickets: u32,
        end_time: i64,
        now: i64,
    ) -> Option<ErrorCode> {
        if ticket_price == 0 {
            Some(ErrorCode::InvalidTicketPrice)
        } else if max_tickets == 0 {
            Some(ErrorCode::InvalidMaxTickets)
        } else if end_time <= now {
            Some(ErrorCode::InvalidEndTime)
        } else {
            None
        }
    }

    /// The raffle as it stands right after its creation.
    pub open spec fn created(
        creator: Pubkey,
        bump: u8,
        raffle_id: u64,
        ticket_price: u64,
        max_tickets: u32,
        end_time: i64,
    ) -> RaffleView {
        RaffleView {
            creator,
            ticket_price,
            max_tickets,
            end_time,
            total_tickets_sold: 0,
            ticket_buyers: Seq::empty(),
            winner: None,
            state: RaffleState::Active,
            bump,
            raffle_id,
        }
    }

    /// Why the raffle sells no ticket, if it does not. The phase is looked at
    /// first, then the number of tickets left.
    pub open spec fn purchase_refusal(self) -> Option<ErrorCode> {
        if self.state != RaffleState::Active {
            Some(ErrorCode::RaffleNotActive)
        } else if self.total_tickets_sold >= self.max_tickets {
            Some(ErrorCode::RaffleSoldOut)
        } else {
            None
        }
    }

    /// The number that the next ticket sold gets: the count of tickets sold
    /// before it.
    pub open spec fn next_ticket_number(self) -> u32 {
        self.total_tickets_sold
    }

    /// The raffle after it sold its next ticket to `buyer`. The sale of the
    /// last ticket ends the raffle.
    pub open spec fn after_purchase(self, buyer: Pubkey) -> RaffleView {
        RaffleView {
            total_tickets_sold: (self.total_tickets_sold + 1) as u32,
            ticket_buyers: self.ticket_buyers.push(buyer),
            state: if self.total_tickets_sold + 1 >= self.max_tickets {
                RaffleState::Ended
            } else {
                self.state
            },
            ..self
        }
    }

    /// The raffle after it sold one ticket to each of `buyers` in turn.
    pub open spec fn after_purchases(self, buyers: Seq<Pubkey>) -> RaffleView
        decreases buyers.len(),
    {
        if buyers.len() == 0 {
            self
        } else {
            self.after_purchases(buyers.drop_last()).after_purchase(buyers.last())
        }
    }

    /// Whether the raffle sells a ticket to each of `buyers` in turn: none of
    /// these purchases is refused by the raffle as the earlier ones left it.
    pub open spec fn sells_to_all(self, buyers: Seq<Pubkey>) -> bool
        decreases buyers.len(),
    {
        buyers.len() > 0 ==> {
            &&& self.sells_to_all(buyers.drop_last())
            &&& self.after_purchases(buyers.drop_last()).purchase_refusal() is None
        }
    }

    /// Whether sales are over at time `now`: the raffle has ended, or it is
    /// still marked active but its end time has come.
    pub open spec fn closed_at(self, now: i64) -> bool {
        self.state == RaffleState::Ended || (self.state == RaffleState::Active && now
            >= self.end_time)
    }

    /// Why the raffle cannot be drawn at time `now`, if it cannot. Whether
    /// sales are over is looked at first, then whether any ticket was sold.
    pub open spec fn draw_refusal(self, now: i64) -> Option<ErrorCode> {
        if !self.closed_at(now) {
            Some(ErrorCode::RaffleNotEnded)
        } else if self.total_tickets_sold == 0 {
            Some(ErrorCode::NoTicketsSold)
        } else {
            None
        }
    }

    /// The position of the winning ticket for the slot counter `slot`: the
    /// remainder of the counter by the number of tickets sold.
    pub open spec fn winning_index(self, slot: u64) -> int {
        slot as int % self.total_tickets_sold as int
    }

    /// The buyer of the winning ticket for the slot counter `slot`.
    pub open spec fn winning_buyer(self, slot: u64) -> Pubkey {
        self.ticket_buyers[self.winning_index(slot)]
    }

    /// The raffle after `winner` was drawn.
    pub open spec fn after_draw(self, winner: Pubkey) -> RaffleView {
        RaffleView { winner: Some(winner), state: RaffleState::Completed, ..self }
    }
}

impl Default for Raffle {
    /// The blank entry that a creation fills in.
    fn default() -> (blank: Raffle)
        ensures
            blank.creator.is_zero(),
            blank@ == RaffleView::created(blank.creator, 0, 0, 0, 0, 0),
    {
        Raffle {
            creator: Pubkey::default(),
            ticket_price: 0,
            max_tickets: 0,
            end_time: 0,
            total_tickets_sold: 0,
            ticket_buyers: Vec::new(),
            winner: None,
            state: RaffleState::Active,
            bump: 0,
            raffle_id: 0,
        }
    }
}

impl Default for Ticket {
    /// The blank receipt that a purchase fills in.
    fn default() -> (blank: Ticket)
        ensures
            blank.raffle.is_zero(),
            blank.buyer.is_zero(),
            blank.ticket_number == 0,
            blank.purchase_time == 0,
            blank.bump == 0,
    {
        Ticket {
            raffle: Pubkey::default(),
            buyer: Pubkey::default(),
            ticket_number: 0,
            purchase_time: 0,
            bump: 0,
        }
    }
}

/// Whether `key` is among `keys`.
pub fn contains_key(keys: &Vec<Pubkey>, key: &Pubkey) -> (found: bool)
    ensures
        found == keys@.contains(*key),
{
    let mut i: usize = 0;
    while i < keys.len()
        invariant
            i <= keys.len(),
            forall|j: int| 0 <= j < i ==> keys@[j] != *key,
        decreases keys.len() - i,
    {
        if keys[i] == *key {
            return true;
        }
        i = i + 1;
    }
    false
}

impl Raffle {
    /// Whether the entry is well formed, as every entry is that the
    /// operations produce.
    pub fn is_wf(&self) -> (ok: bool)
        ensures
            ok == self@.wf(),
    {
        let counts = self.ticket_price > 0 && self.max_tickets > 0 && self.total_tickets_sold
            <= self.max_tickets && self.ticket_buyers.len() == self.total_tickets_sold as usize;
        let completed = self.state == RaffleState::Completed;
        match self.winner {
            Some(w) => counts && completed && contains_key(&self.ticket_buyers, &w),
            None => counts && !completed,
        }
    }
}

} // verus!
