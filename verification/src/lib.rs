//! A raffle engine that keeps the pooled ticket money in escrow: a party
//! creates a raffle, others buy tickets, and a draw picks the winner and
//! splits the escrow between winner and creator.

pub mod accounts;
pub mod address;
pub mod create;
pub mod draw;
pub mod error;
pub mod laws;
pub mod pubkey;
pub mod purchase;
pub mod state;

pub use accounts::{Account, Clock, Transfer, TransferOutcome};
pub use create::{create_raffle, CreateRaffle};
pub use draw::{draw_winner, DrawWinner, Settlement};
pub use error::ErrorCode;
pub use pubkey::Pubkey;
pub use purchase::{buy_ticket, BuyTicket, PurchaseError};
pub use state::{Raffle, RaffleState, Ticket};
