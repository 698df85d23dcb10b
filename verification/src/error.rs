use vstd::prelude::*;

verus! {

/// Why an operation was refused. A refused operation changes nothing.
#[derive(Clone, Copy, Debug, PartialEq, Eq, Structural)]
pub enum ErrorCode {
    /// The ticket price of a new raffle is zero.
    InvalidTicketPrice,
    /// The ticket limit of a new raffle is zero.
    InvalidMaxTickets,
    /// The end time of a new raffle is not after the current time.
    InvalidEndTime,
    /// A ticket was asked for while the raffle is not selling.
    RaffleNotActive,
    /// A ticket was asked for after the last one was sold.
    RaffleSoldOut,
    /// A draw was asked for while the raffle is neither ended nor expired.
    RaffleNotEnded,
    /// A draw was asked for although nobody bought a ticket.
    NoTicketsSold,
    /// Kept for administrative operations; no operation returns it.
    Unauthorized,
    /// Kept for cancellation; no operation returns it.
    CannotCancelWithTickets,
    /// A counter or an amount of money left the range of its type.
    MathOverflow,
    /// None of the accounts offered to receive the prize is the winner's.
    InvalidWinningTicket,
}

impl ErrorCode {
    /// The text shown to a user for each kind of refusal.
    pub open spec fn message_text(self) -> Seq<char> {
        match self {
            ErrorCode::InvalidTicketPrice => "Ticket price must be greater than zero"@,
            ErrorCode::InvalidMaxTickets => "Max tickets must be greater than zero"@,
            ErrorCode::InvalidEndTime => "End time must be in the future"@,
            ErrorCode::RaffleNotActive => "Raffle is not active"@,
            ErrorCode::RaffleSoldOut => "Raffle has sold out"@,
            ErrorCode::RaffleNotEnded => "Raffle has not ended yet"@,
            ErrorCode::NoTicketsSold => "No tickets have been sold"@,
            ErrorCode::Unauthorized => "Unauthorized operation"@,
            ErrorCode::CannotCancelWithTickets => "Cannot cancel raffle with tickets sold"@,
            ErrorCode::MathOverflow => "Math overflow occurred"@,
            ErrorCode::InvalidWinningTicket => "Invalid winning ticket provided"@,
        }
    }

    /// The text shown to a user for this kind of refusal.
    pub fn message(&self) -> (text: &'static str)
        ensures
            text@ == self.message_text(),
    {
        match self {
            ErrorCode::InvalidTicketPrice => "Ticket price must be greater than zero",
            ErrorCode::InvalidMaxTickets => "Max tickets must be greater than zero",
            ErrorCode::InvalidEndTime => "End time must be in the future",
            ErrorCode::RaffleNotActive => "Raffle is not active",
            ErrorCode::RaffleSoldOut => "Raffle has sold out",
            ErrorCode::RaffleNotEnded => "Raffle has not ended yet",
            ErrorCode::NoTicketsSold => "No tickets have been sold",
            ErrorCode::Unauthorized => "Unauthorized operation",
            ErrorCode::CannotCancelWithTickets => "Cannot cancel raffle with tickets sold",
            ErrorCode::MathOverflow => "Math overflow occurred",
            ErrorCode::InvalidWinningTicket => "Invalid winning ticket provided",
        }
    }
}

} // verus!
