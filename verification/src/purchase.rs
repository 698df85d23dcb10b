use crate::accounts::{Clock, Transfer, TransferOutcome};
use crate::error::ErrorCode;
use crate::pubkey::Pubkey;
use crate::state::{Raffle, RaffleState, RaffleView, Ticket};
use vstd::prelude::*;

verus! {

/// The accounts that a purchase works on. The funds themselves are not
/// among them: the purchase names the transfer, and whoever keeps the funds
/// makes it.
#[derive(Clone, Debug, PartialEq, Eq)]
pub struct BuyTicket {
    /// The raffle that sells the ticket.
    pub raffle: Raffle,
    /// The address of the raffle, under which its escrow keeps the funds.
    pub escrow: Pubkey,
    /// The receipt that the purchase fills in.
    pub ticket: Ticket,
    /// The bump seed of the receipt's address.
    pub ticket_bump: u8,
    /// The buyer, who pays the price.
    pub buyer: Pubkey,
}

/// Why a purchase did not go through.
#[derive(Clone, Copy, Debug, PartialEq, Eq, Structural)]
pub enum PurchaseError {
    /// The raffle sells no ticket, for the reason given.
    Refused(ErrorCode),
    /// The raffle would have sold the ticket, but the price was not moved
    /// from the buyer to the escrow.
    TransferFailed,
}

/// The accounts of a purchase as a mathematical value: the raffle by its
/// view.
pub struct BuyTicketView {
    pub raffle: RaffleView,
    pub escrow: Pubkey,
    pub ticket: Ticket,
    pub ticket_bump: u8,
    pub buyer: Pubkey,
}

impl View for BuyTicket {
    type V = BuyTicketView;

    open spec fn view(&self) -> BuyTicketView {
        BuyTicketView {
            raffle: self.raffle@,
            escrow: self.escrow,
            ticket: self.ticket,
            ticket_bump: self.ticket_bump,
            buyer: self.buyer,
        }
    }
}

impl BuyTicketView {
    /// Why the raffle sells no ticket, if it does not: it is not active
    /// (`RaffleNotActive`), or else it has no ticket left (`RaffleSoldOut`).
    /// Nothing else about the raffle refuses a purchase.
    pub open spec fn refusal(self) -> Option<ErrorCode> {
        self.raffle.purchase_refusal()
    }

    /// The transfer that pays for the ticket: exactly the price, from the
    /// buyer to the escrow.
    pub open spec fn transfer_due(self) -> Transfer {
        Transfer { from: self.buyer, to: self.escrow, lamports: self.raffle.ticket_price }
    }

    /// Why the purchase does not go through, if it does not, when the
    /// transfer that pays for it ended as `transfer` says. What the raffle
    /// refuses comes first; a failed transfer counts only for a ticket that
    /// the raffle would have sold.
    pub open spec fn failure(self, transfer: TransferOutcome) -> Option<PurchaseError> {
        match self.refusal() {
            Some(e) => Some(PurchaseError::Refused(e)),
            None => if transfer == TransferOutcome::Failed {
                Some(PurchaseError::TransferFailed)
            } else {
                None
            },
        }
    }

    /// The receipt of a purchase at time `now` that goes through.
    pub open spec fn receipt(self, now: i64) -> Ticket {
        Ticket {
            raffle: self.escrow,
            buyer: self.buyer,
            ticket_number: self.raffle.next_ticket_number(),
            purchase_time: now,
            bump: self.ticket_bump,
        }
    }

    /// What a purchase at time `now` that goes through makes of these
    /// accounts: the receipt is filled in, the raffle has one more ticket
    /// sold to this buyer, and nothing else has changed.
    pub open spec fn bought(self, now: i64) -> BuyTicketView {
        BuyTicketView {
            raffle: self.raffle.after_purchase(self.buyer),
            ticket: self.receipt(now),
            ..self
        }
    }
}

impl BuyTicket {
    /// Decides on the raffle alone whether it sells its next ticket, and
    /// names the transfer that pays for it. Nothing is changed and no funds
    /// move: the caller makes the transfer and hands its outcome to
    /// `buy_ticket`.
    pub fn transfer_due(&self) -> (due: Result<Transfer, ErrorCode>)
        ensures
            match due {
                Ok(transfer) => self@.refusal() is None && transfer == self@.transfer_due(),
                Err(e) => self@.refusal() == Some(e),
            },
            due != Err::<Transfer, ErrorCode>(ErrorCode::MathOverflow),
    {
        if self.raffle.state != RaffleState::Active {
            return Err(ErrorCode::RaffleNotActive);
        }
        if self.raffle.total_tickets_sold >= self.raffle.max_tickets {
            return Err(ErrorCode::RaffleSoldOut);
        }
        Ok(Transfer { from: self.buyer, to: self.escrow, lamports: self.raffle.ticket_price })
    }
}

/// Sells the next ticket of a raffle, once the transfer that pays for it has
/// been tried.
///
/// `transfer` says how the transfer of `BuyTicket::transfer_due` ended. The
/// purchase goes through exactly when the raffle is active, has a ticket left
/// and the transfer was made. Then the receipt gets the number of tickets
/// sold before it and the buyer joins the roster; the sale of the last ticket
/// ends the raffle.
///
/// Otherwise nothing has changed and no receipt is written. What the raffle
/// refuses is looked at first and comes back as `Refused`, with
/// `RaffleNotActive` or `RaffleSoldOut`; a transfer that failed comes back as
/// `TransferFailed`. No purchase fails with `MathOverflow`: the counter is
/// added to with a check, but below the limit it cannot overflow.
pub fn buy_ticket(ctx: &mut BuyTicket, clock: &Clock, transfer: TransferOutcome) -> (result: Result<
    (),
    PurchaseError,
>)
    ensures
        match result {
            Ok(()) => {
                &&& old(ctx)@.failure(transfer) is None
                &&& final(ctx)@ == old(ctx)@.bought(clock.unix_timestamp)
            },
            Err(e) => old(ctx)@.failure(transfer) == Some(e) && *final(ctx) == *old(ctx),
        },
        result is Ok <==> old(ctx).raffle.state == RaffleState::Active && old(
            ctx
        ).raffle.total_tickets_sold < old(ctx).raffle.max_tickets && transfer
            == TransferOutcome::Made,
        result != Err::<(), PurchaseError>(PurchaseError::Refused(ErrorCode::MathOverflow)),
        old(ctx).raffle@.wf() ==> final(ctx).raffle@.wf(),
        result is Ok ==> final(ctx).ticket.ticket_number == old(ctx).raffle.total_tickets_sold,
        result is Ok ==> final(ctx).raffle.ticket_buyers@.len() == old(
            ctx
        ).raffle.ticket_buyers@.len() + 1,
        old(ctx).raffle.state == RaffleState::Active && old(ctx).raffle.total_tickets_sold >= old(
            ctx
        ).raffle.max_tickets ==> result == Err::<(), PurchaseError>(
            PurchaseError::Refused(ErrorCode::RaffleSoldOut),
        ),
{
    if ctx.raffle.state != RaffleState::Active {
        return Err(PurchaseError::Refused(ErrorCode::RaffleNotActive));
    }
    if ctx.raffle.total_tickets_sold >= ctx.raffle.max_tickets {
        return Err(PurchaseError::Refused(ErrorCode::RaffleSoldOut));
    }
    match transfer {
        TransferOutcome::Made => {},
        TransferOutcome::Failed => {
            return Err(PurchaseError::TransferFailed);
        },
    }
    let ticket_number = ctx.raffle.total_tickets_sold;
    let sold = match ticket_number.checked_add(1) {
        Some(count) => count,
        None => {
            return Err(PurchaseError::Refused(ErrorCode::MathOverflow));
        },
    };
    ctx.ticket = Ticket {
        raffle: ctx.escrow,
        buyer: ctx.buyer,
        ticket_number,
        purchase_time: clock.unix_timestamp,
        bump: ctx.ticket_bump,
    };
    ctx.raffle.ticket_buyers.push(ctx.buyer);
    ctx.raffle.total_tickets_sold = sold;
    if sold >= ctx.raffle.max_tickets {
        ctx.raffle.state = RaffleState::Ended;
    }
    Ok(())
}

} // verus!
