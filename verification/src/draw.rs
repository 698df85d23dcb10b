use crate::accounts::{
    find_account, first_with_key, lemma_first_with_key, move_funds, Account, Clock,
};
use crate::error::ErrorCode;
use crate::pubkey::Pubkey;
use crate::state::{Raffle, RaffleState, RaffleView};
use vstd::prelude::*;

verus! {

/// The accounts that a draw works on. Accounts that bear one address are one
/// holder of funds: what is paid to the address shows in each of them.
#[derive(Clone, Debug, PartialEq, Eq)]
pub struct DrawWinner {
    /// The raffle to draw.
    pub raffle: Raffle,
    /// The escrow of the raffle: its address and the lamports it holds.
    pub escrow: Account,
    /// The account that receives the creator's fee.
    pub creator: Account,
    /// The accounts offered to receive the prize: one of them must bear the
    /// winner's address.
    pub remaining_accounts: Vec<Account>,
}

/// What a draw decided and paid.
#[derive(Clone, Copy, Debug, PartialEq, Eq)]
pub struct Settlement {
    /// The position of the winning ticket in the order of sale.
    pub winning_index: u32,
    /// The buyer of the winning ticket.
    pub winner: Pubkey,
    /// The position, among the accounts offered, of the first that bears the
    /// winner's address.
    pub recipient: usize,
    /// The lamports the escrow held when the draw began.
    pub balance: u64,
    /// The lamports paid to the winner.
    pub winner_prize: u64,
    /// The lamports paid to the creator.
    pub creator_fee: u64,
}

/// The winner's share of `balance`: nine tenths, rounded down.
pub open spec fn prize_of(balance: u64) -> int {
    balance * 90 / 100
}

/// The creator's share of `balance`: what the winner's share leaves.
pub open spec fn fee_of(balance: u64) -> int {
    balance - prize_of(balance)
}

/// Whether the shares of `balance` cannot be computed in `u64`: ninety times
/// the balance does not fit.
pub open spec fn split_overflows(balance: u64) -> bool {
    balance * 90 > u64::MAX
}

/// Splits `balance` into the winner's prize and the creator's fee. The two
/// shares add up to the balance. Fails with `MathOverflow` exactly when
/// ninety times the balance does not fit in `u64`.
pub fn split_prize(balance: u64) -> (shares: Result<(u64, u64), ErrorCode>)
    ensures
        match shares {
            Ok((winner_prize, creator_fee)) => {
                &&& !split_overflows(balance)
                &&& winner_prize == prize_of(balance)
                &&& creator_fee == fee_of(balance)
                &&& winner_prize + creator_fee == balance
            },
            Err(e) => e == ErrorCode::MathOverflow && split_overflows(balance),
        },
{
    let scaled = match balance.checked_mul(90) {
        Some(product) => product,
        None => {
            return Err(ErrorCode::MathOverflow);
        },
    };
    let winner_prize = match scaled.checked_div(100) {
        Some(quotient) => quotient,
        None => {
            return Err(ErrorCode::MathOverflow);
        },
    };
    let creator_fee = match balance.checked_sub(winner_prize) {
        Some(rest) => rest,
        None => {
            return Err(ErrorCode::MathOverflow);
        },
    };
    Ok((winner_prize, creator_fee))
}

/// The position of the winning ticket: the remainder of the slot counter by
/// the number of tickets sold.
pub fn winning_index(slot: u64, tickets_sold: u32) -> (index: u32)
    requires
        tickets_sold > 0,
    ensures
        index == slot as int % tickets_sold as int,
        index < tickets_sold,
{
    let sold: u64 = tickets_sold as u64;
    let rem: u64 = slot % sold;
    rem as u32
}

/// The accounts of a draw as a mathematical value: the raffle by its view,
/// the accounts offered as a sequence.
pub struct DrawWinnerView {
    pub raffle: RaffleView,
    pub escrow: Account,
    pub creator: Account,
    pub remaining_accounts: Seq<Account>,
}

impl View for DrawWinner {
    type V = DrawWinnerView;

    open spec fn view(&self) -> DrawWinnerView {
        DrawWinnerView {
            raffle: self.raffle@,
            escrow: self.escrow,
            creator: self.creator,
            remaining_accounts: self.remaining_accounts@,
        }
    }
}

impl DrawWinnerView {
    /// The buyer of the winning ticket at `clock`.
    pub open spec fn winner(self, clock: Clock) -> Pubkey {
        self.raffle.winning_buyer(clock.slot)
    }

    /// The position of the first account offered that bears the winner's
    /// address at `clock`, if there is one.
    pub open spec fn recipient(self, clock: Clock) -> Option<int> {
        first_with_key(self.remaining_accounts, self.winner(clock))
    }

    /// The funds held under the address `key` when the draw begins. They are
    /// read at the escrow if it bears the address, else at the creator's
    /// account, else at the first account offered that bears it.
    pub open spec fn funds(self, key: Pubkey) -> int {
        if key == self.escrow.key {
            self.escrow.lamports as int
        } else if key == self.creator.key {
            self.creator.lamports as int
        } else {
            match first_with_key(self.remaining_accounts, key) {
                Some(i) => self.remaining_accounts[i].lamports as int,
                None => 0,
            }
        }
    }

    /// Whether the draw at `clock` pays to or from the address `key`: it is
    /// the escrow's, the winner's or the creator's.
    pub open spec fn concerns(self, clock: Clock, key: Pubkey) -> bool {
        key == self.escrow.key || key == self.winner(clock) || key == self.creator.key
    }

    /// What the draw at `clock` adds to the funds under the address `key`:
    /// the prize if it is the winner's, the fee if it is the creator's, less
    /// all that the escrow held if it is the escrow's. An address in several
    /// of these roles gets the sum.
    pub open spec fn gain(self, clock: Clock, key: Pubkey) -> int {
        let balance = self.escrow.lamports;
        (if key == self.winner(clock) {
            prize_of(balance)
        } else {
            0
        }) + (if key == self.creator.key {
            fee_of(balance)
        } else {
            0
        }) - (if key == self.escrow.key {
            balance as int
        } else {
            0
        })
    }

    /// Why the draw is refused at `clock`, if it is. In this order: sales are
    /// not over (`RaffleNotEnded`); no ticket was sold (`NoTicketsSold`); none
    /// of the accounts offered is the winner's (`InvalidWinningTicket`); the
    /// shares, then the winner's funds with the prize, then the creator's
    /// funds with the fee leave the range of `u64` (`MathOverflow`). Where the
    /// creator is the winner, the fee is added on top of the prize. Funds
    /// that the escrow pays to its own address cannot overflow.
    pub open spec fn refusal(self, clock: Clock) -> Option<ErrorCode> {
        let balance = self.escrow.lamports;
        let winner = self.winner(clock);
        let creator = self.creator.key;
        if self.raffle.draw_refusal(clock.unix_timestamp) is Some {
            self.raffle.draw_refusal(clock.unix_timestamp)
        } else if self.recipient(clock) is None {
            Some(ErrorCode::InvalidWinningTicket)
        } else if split_overflows(balance) {
            Some(ErrorCode::MathOverflow)
        } else if winner != self.escrow.key && self.funds(winner) + prize_of(balance) > u64::MAX {
            Some(ErrorCode::MathOverflow)
        } else if creator != self.escrow.key && self.funds(creator) + self.gain(clock, creator)
            > u64::MAX {
            Some(ErrorCode::MathOverflow)
        } else {
            None
        }
    }

    /// What a draw at `clock` reports when it is not refused.
    pub open spec fn settlement(self, clock: Clock) -> Settlement {
        Settlement {
            winning_index: self.raffle.winning_index(clock.slot) as u32,
            winner: self.winner(clock),
            recipient: self.recipient(clock).unwrap() as usize,
            balance: self.escrow.lamports,
            winner_prize: prize_of(self.escrow.lamports) as u64,
            creator_fee: fee_of(self.escrow.lamports) as u64,
        }
    }

    /// An account as it stands after the draw at `clock`: if the draw pays to
    /// or from its address, it shows the funds of that address with what the
    /// draw added; else it is as it was.
    pub open spec fn settled(self, clock: Clock, account: Account) -> Account {
        if self.concerns(clock, account.key) {
            Account {
                key: account.key,
                lamports: (self.funds(account.key) + self.gain(clock, account.key)) as u64,
            }
        } else {
            account
        }
    }

    /// What a draw at `clock` that is not refused makes of these accounts:
    /// the raffle is completed with its winner recorded, the escrow has paid
    /// out all it held, the winner's address has received the prize and the
    /// creator's address the fee, every account shows the funds of its
    /// address, and nothing else has changed.
    pub open spec fn drawn(self, clock: Clock) -> DrawWinnerView {
        DrawWinnerView {
            raffle: self.raffle.after_draw(self.winner(clock)),
            escrow: self.settled(clock, self.escrow),
            creator: self.settled(clock, self.creator),
            remaining_accounts: Seq::new(
                self.remaining_accounts.len(),
                |i: int| self.settled(clock, self.remaining_accounts[i]),
            ),
        }
    }
}

/// An account as it stands once the balances of three addresses are known:
/// if it bears the address of `first`, of `second` or of `third`, looked at in
/// this order, it shows that balance; else it is as it was.
pub open spec fn shown(account: Account, first: Account, second: Account, third: Account) -> Account {
    if account.key == first.key {
        Account { key: account.key, lamports: first.lamports }
    } else if account.key == second.key {
        Account { key: account.key, lamports: second.lamports }
    } else if account.key == third.key {
        Account { key: account.key, lamports: third.lamports }
    } else {
        account
    }
}

/// Writes the balances of three addresses into every account of `accounts`
/// that bears one of them.
fn show_balances(accounts: &mut Vec<Account>, first: Account, second: Account, third: Account)
    ensures
        final(accounts)@.len() == old(accounts)@.len(),
        forall|i: int|
            0 <= i < old(accounts)@.len() ==> (#[trigger] final(accounts)@[i]) == shown(
                old(accounts)@[i],
                first,
                second,
                third,
            ),
{
    let mut i: usize = 0;
    while i < accounts.len()
        invariant
            i <= accounts.len(),
            accounts@.len() == old(accounts)@.len(),
            forall|j: int|
                0 <= j < i ==> (#[trigger] accounts@[j]) == shown(
                    old(accounts)@[j],
                    first,
                    second,
                    third,
                ),
            forall|j: int| i <= j < accounts@.len() ==> (#[trigger] accounts@[j]) == old(accounts)@[j],
        decreases accounts.len() - i,
    {
        let key = accounts[i].key;
        if key == first.key {
            accounts[i].lamports = first.lamports;
        } else if key == second.key {
            accounts[i].lamports = second.lamports;
        } else if key == third.key {
            accounts[i].lamports = third.lamports;
        }
        i = i + 1;
    }
}

/// Draws the winner of a raffle and pays out its escrow.
///
/// A raffle that is still marked active counts as ended once `clock` has
/// reached its end time. The winning ticket is the one at position
/// `slot % total_tickets_sold`; the slot counter is public, so whoever
/// chooses the moment of the draw can foresee its outcome. One of
/// `remaining_accounts` must bear the winner's address. That address receives
/// nine tenths of the escrow, rounded down; the address of `creator`
/// receives the rest, on top of the prize if the creator is the winner. The
/// raffle is then completed.
///
/// The roster must hold a buyer for every ticket counted as sold, as it does
/// in every raffle that the operations produce.
///
/// The draw is refused exactly when `DrawWinnerView::refusal` names an error,
/// with that error, and then nothing has changed: the raffle is as it was,
/// also where its end time has come, and no funds have moved.
pub fn draw_winner(ctx: &mut DrawWinner, clock: &Clock) -> (result: Result<Settlement, ErrorCode>)
    requires
        old(ctx).raffle.total_tickets_sold <= old(ctx).raffle.ticket_buyers@.len(),
    ensures
        match result {
            Ok(settlement) => {
                &&& old(ctx)@.refusal(*clock) is None
                &&& settlement == old(ctx)@.settlement(*clock)
                &&& final(ctx)@ == old(ctx)@.drawn(*clock)
            },
            Err(e) => old(ctx)@.refusal(*clock) == Some(e) && *final(ctx) == *old(ctx),
        },
        old(ctx).raffle@.wf() ==> final(ctx).raffle@.wf(),
        old(ctx).raffle.state == RaffleState::Completed ==> result == Err::<Settlement, ErrorCode>(
            ErrorCode::RaffleNotEnded,
        ),
        result is Ok ==> final(ctx).raffle.state == RaffleState::Completed,
        result matches Ok(settlement) ==> settlement.winner_prize + settlement.creator_fee == old(
            ctx
        ).escrow.lamports,
{
    let closed = match ctx.raffle.state {
        RaffleState::Active => clock.unix_timestamp >= ctx.raffle.end_time,
        RaffleState::Ended => true,
        RaffleState::Completed => false,
    };
    if !closed {
        return Err(ErrorCode::RaffleNotEnded);
    }
    if ctx.raffle.total_tickets_sold == 0 {
        return Err(ErrorCode::NoTicketsSold);
    }
    let index = winning_index(clock.slot, ctx.raffle.total_tickets_sold);
    let winner = ctx.raffle.ticket_buyers[index as usize];
    let recipient = match find_account(&ctx.remaining_accounts, &winner) {
        Some(position) => position,
        None => {
            return Err(ErrorCode::InvalidWinningTicket);
        },
    };
    let balance = ctx.escrow.lamports;
    let (winner_prize, creator_fee) = match split_prize(balance) {
        Ok(shares) => shares,
        Err(e) => {
            return Err(e);
        },
    };
    let winner_is_escrow = winner == ctx.escrow.key;
    let creator_is_escrow = ctx.creator.key == ctx.escrow.key;
    let creator_is_winner = ctx.creator.key == winner;
    proof {
        lemma_first_with_key(ctx.remaining_accounts@, winner);
    }
    // The prize goes from the escrow to the winner's address.
    let (escrow_paid, winner_paid) = if winner_is_escrow {
        (balance, balance)
    } else {
        let winner_funds = if creator_is_winner {
            ctx.creator.lamports
        } else {
            ctx.remaining_accounts[recipient].lamports
        };
        match move_funds(balance, winner_funds, winner_prize) {
            Ok(balances) => balances,
            Err(e) => {
                return Err(e);
            },
        }
    };
    // The fee goes from the escrow to the creator's address, which may have
    // received the prize just before.
    let (escrow_left, creator_paid) = if creator_is_escrow {
        (escrow_paid, escrow_paid)
    } else {
        let creator_funds = if creator_is_winner {
            winner_paid
        } else {
            ctx.creator.lamports
        };
        match move_funds(escrow_paid, creator_funds, creator_fee) {
            Ok(balances) => balances,
            Err(e) => {
                return Err(e);
            },
        }
    };
    let winner_left = if winner_is_escrow {
        escrow_left
    } else if creator_is_winner {
        creator_paid
    } else {
        winner_paid
    };
    let escrow = Account { key: ctx.escrow.key, lamports: escrow_left };
    let paid = Account { key: winner, lamports: winner_left };
    let creator = Account { key: ctx.creator.key, lamports: creator_paid };
    show_balances(&mut ctx.remaining_accounts, escrow, paid, creator);
    ctx.escrow = escrow;
    ctx.creator = creator;
    ctx.raffle.winner = Some(winner);
    ctx.raffle.state = RaffleState::Completed;
    proof {
        assert(ctx@.remaining_accounts =~= old(ctx)@.drawn(*clock).remaining_accounts);
    }
    Ok(
        Settlement {
            winning_index: index,
            winner,
            recipient,
            balance,
            winner_prize,
            creator_fee,
        },
    )
}

} // verus!
