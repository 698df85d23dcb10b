use crate::accounts::Clock;
use crate::error::ErrorCode;
use crate::pubkey::Pubkey;
use crate::state::{Raffle, RaffleState, RaffleView};
use vstd::prelude::*;

verus! {

/// The accounts that a creation works on.
#[derive(Clone, Debug, PartialEq, Eq)]
pub struct CreateRaffle {
    /// The entry that the creation fills in.
    pub raffle: Raffle,
    /// The party that creates the raffle.
    pub creator: Pubkey,
    /// The bump seed of the raffle's address.
    pub bump: u8,
}

/// The accounts of a creation as a mathematical value: the raffle by its
/// view.
pub struct CreateRaffleView {
    pub raffle: RaffleView,
    pub creator: Pubkey,
    pub bump: u8,
}

impl View for CreateRaffle {
    type V = CreateRaffleView;

    open spec fn view(&self) -> CreateRaffleView {
        CreateRaffleView { raffle: self.raffle@, creator: self.creator, bump: self.bump }
    }
}

impl CreateRaffleView {
    /// What a creation that is not refused makes of these accounts: the
    /// entry holds the new raffle of this creator, whatever it held before.
    pub open spec fn created(
        self,
        raffle_id: u64,
        ticket_price: u64,
        max_tickets: u32,
        end_time: i64,
    ) -> CreateRaffleView {
        CreateRaffleView {
            raffle: RaffleView::created(
                self.creator,
                self.bump,
                raffle_id,
                ticket_price,
                max_tickets,
                end_time,
            ),
            ..self
        }
    }
}

/// Creates a raffle.
///
/// The price and the limit must be positive, and the end time must lie after
/// the time of `clock`; they are looked at in this order, and the first that
/// fails gives `InvalidTicketPrice`, `InvalidMaxTickets` or `InvalidEndTime`.
/// The new raffle is active, has sold nothing and has no winner. No funds
/// move. A refused creation changes nothing.
pub fn create_raffle(
    ctx: &mut CreateRaffle,
    clock: &Clock,
    raffle_id: u64,
    ticket_price: u64,
    max_tickets: u32,
    end_time: i64,
) -> (result: Result<(), ErrorCode>)
    ensures
        match result {
            Ok(()) => {
                &&& RaffleView::creation_refusal(
                    ticket_price,
                    max_tickets,
                    end_time,
                    clock.unix_timestamp,
                ) is None
                &&& final(ctx)@ == old(ctx)@.created(
                    raffle_id,
                    ticket_price,
                    max_tickets,
                    end_time,
                )
            },
            Err(e) => {
                &&& RaffleView::creation_refusal(
                    ticket_price,
                    max_tickets,
                    end_time,
                    clock.unix_timestamp,
                ) == Some(e)
                &&& *final(ctx) == *old(ctx)
            },
        },
        result is Ok ==> {
            &&& final(ctx).raffle.total_tickets_sold == 0
            &&& final(ctx).raffle.state == RaffleState::Active
            &&& final(ctx).raffle.winner is None
            &&& final(ctx).raffle@.wf()
        },
{
    if ticket_price == 0 {
        return Err(ErrorCode::InvalidTicketPrice);
    }
    if max_tickets == 0 {
        return Err(ErrorCode::InvalidMaxTickets);
    }
    if end_time <= clock.unix_timestamp {
        return Err(ErrorCode::InvalidEndTime);
    }
    ctx.raffle = Raffle {
        creator: ctx.creator,
        ticket_price,
        max_tickets,
        end_time,
        total_tickets_sold: 0,
        ticket_buyers: Vec::new(),
        winner: None,
        state: RaffleState::Active,
        bump: ctx.bump,
        raffle_id,
    };
    Ok(())
}

} // verus!
