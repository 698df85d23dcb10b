use crate::accounts::{
    first_with_key, is_first_with_key, lemma_first_with_key, Clock, TransferOutcome,
};
use crate::draw::{fee_of, prize_of, split_overflows, DrawWinnerView};
use crate::error::ErrorCode;
use crate::pubkey::Pubkey;
use crate::purchase::{BuyTicketView, PurchaseError};
use crate::state::{RaffleState, RaffleView};
use vstd::prelude::*;

verus! {

/// A raffle made from parameters that pass the creation rules has sold
/// nothing, is active, has no winner and is well formed.
pub proof fn lemma_created_raffle_is_fresh(
    creator: Pubkey,
    bump: u8,
    raffle_id: u64,
    ticket_price: u64,
    max_tickets: u32,
    end_time: i64,
    now: i64,
)
    requires
        RaffleView::creation_refusal(ticket_price, max_tickets, end_time, now) is None,
    ensures
        ({
            let raffle = RaffleView::created(
                creator,
                bump,
                raffle_id,
                ticket_price,
                max_tickets,
                end_time,
            );
            &&& raffle.total_tickets_sold == 0
            &&& raffle.ticket_buyers.len() == 0
            &&& raffle.state == RaffleState::Active
            &&& raffle.winner is None
            &&& raffle.wf()
        }),
{
}

/// Over any run of purchases that the raffle admits, the roster grows by the
/// buyers in their order and the counter by their number, so the roster is
/// always as long as the counter says; the purchase at position `k` of the
/// run gets a ticket number that is `k` more than the first one got; and the
/// run sells no more tickets than the raffle had left.
pub proof fn lemma_roster_follows_sales(raffle: RaffleView, buyers: Seq<Pubkey>)
    requires
        raffle.wf(),
        raffle.sells_to_all(buyers),
    ensures
        raffle.after_purchases(buyers).wf(),
        raffle.total_tickets_sold + buyers.len() <= raffle.max_tickets,
        raffle.after_purchases(buyers).max_tickets == raffle.max_tickets,
        raffle.after_purchases(buyers).ticket_buyers == raffle.ticket_buyers + buyers,
        raffle.after_purchases(buyers).total_tickets_sold == raffle.total_tickets_sold
            + buyers.len(),
        raffle.after_purchases(buyers).ticket_buyers.len() == raffle.after_purchases(
            buyers,
        ).total_tickets_sold,
        forall|k: int|
            0 <= k < buyers.len() ==> (#[trigger] raffle.after_purchases(
                buyers.take(k),
            )).next_ticket_number() == raffle.next_ticket_number() + k,
    decreases buyers.len(),
{
    if buyers.len() > 0 {
        let earlier = buyers.drop_last();
        lemma_roster_follows_sales(raffle, earlier);
        assert forall|k: int| 0 <= k < buyers.len() implies (#[trigger] raffle.after_purchases(
            buyers.take(k),
        )).next_ticket_number() == raffle.next_ticket_number() + k by {
            if k < earlier.len() {
                assert(buyers.take(k) =~= earlier.take(k));
            }
        }
    }
}

/// In a raffle that sells to each of `buyers` in turn from its creation, the
/// roster is exactly these buyers, and their tickets are numbered 0, 1, 2 and
/// so on in the order of sale.
pub proof fn lemma_tickets_are_numbered_from_zero(
    creator: Pubkey,
    bump: u8,
    raffle_id: u64,
    ticket_price: u64,
    max_tickets: u32,
    end_time: i64,
    now: i64,
    buyers: Seq<Pubkey>,
)
    requires
        RaffleView::creation_refusal(ticket_price, max_tickets, end_time, now) is None,
        RaffleView::created(
            creator,
            bump,
            raffle_id,
            ticket_price,
            max_tickets,
            end_time,
        ).sells_to_all(buyers),
    ensures
        ({
            let raffle = RaffleView::created(
                creator,
                bump,
                raffle_id,
                ticket_price,
                max_tickets,
                end_time,
            );
            &&& raffle.after_purchases(buyers).ticket_buyers == buyers
            &&& raffle.after_purchases(buyers).total_tickets_sold == buyers.len()
            &&& forall|k: int|
                0 <= k < buyers.len() ==> (#[trigger] raffle.after_purchases(
                    buyers.take(k),
                )).next_ticket_number() == k
        }),
{
    let raffle = RaffleView::created(creator, bump, raffle_id, ticket_price, max_tickets, end_time);
    lemma_roster_follows_sales(raffle, buyers);
}

/// A purchase from a raffle that is marked active but has no ticket left is
/// refused as sold out.
pub proof fn lemma_sold_out_purchase_is_refused(ctx: BuyTicketView, transfer: TransferOutcome)
    requires
        ctx.raffle.state == RaffleState::Active,
        ctx.raffle.total_tickets_sold >= ctx.raffle.max_tickets,
    ensures
        ctx.refusal() == Some(ErrorCode::RaffleSoldOut),
        ctx.failure(transfer) == Some(PurchaseError::Refused(ErrorCode::RaffleSoldOut)),
{
}

/// A purchase ends the raffle exactly when it sells the last ticket. From
/// then on every purchase is refused because the raffle is not active, so the
/// raffle cannot end a second time.
pub proof fn lemma_last_ticket_ends_sales(raffle: RaffleView, buyer: Pubkey, later: BuyTicketView)
    requires
        raffle.wf(),
        raffle.purchase_refusal() is None,
        later.raffle == raffle.after_purchase(buyer),
    ensures
        raffle.after_purchase(buyer).state == RaffleState::Ended <==> raffle.after_purchase(
            buyer,
        ).total_tickets_sold == raffle.max_tickets,
        raffle.after_purchase(buyer).state == RaffleState::Ended ==> later.refusal() == Some(
            ErrorCode::RaffleNotActive,
        ),
{
}

/// In a run of purchases that an active raffle admits, no purchase but the
/// last can end the raffle, and the last ends it exactly when it sells the
/// last ticket.
pub proof fn lemma_raffle_ends_with_its_last_ticket(raffle: RaffleView, buyers: Seq<Pubkey>)
    requires
        raffle.wf(),
        buyers.len() > 0,
        raffle.sells_to_all(buyers),
    ensures
        forall|k: int|
            0 <= k < buyers.len() ==> (#[trigger] raffle.after_purchases(buyers.take(k))).state
                == RaffleState::Active,
        raffle.after_purchases(buyers).state == RaffleState::Ended <==> raffle.after_purchases(
            buyers,
        ).total_tickets_sold == raffle.max_tickets,
        raffle.after_purchases(buyers).state != RaffleState::Ended ==> raffle.after_purchases(
            buyers,
        ).state == RaffleState::Active,
    decreases buyers.len(),
{
    let earlier = buyers.drop_last();
    lemma_roster_follows_sales(raffle, earlier);
    if earlier.len() > 0 {
        lemma_raffle_ends_with_its_last_ticket(raffle, earlier);
    }
    assert forall|k: int| 0 <= k < buyers.len() implies (#[trigger] raffle.after_purchases(
        buyers.take(k),
    )).state == RaffleState::Active by {
        if k < earlier.len() {
            assert(buyers.take(k) =~= earlier.take(k));
        }
    }
}

/// A purchase goes through exactly when the raffle is active, has a ticket
/// left and the transfer that pays for it was made. A failed transfer comes
/// back as such, and no purchase fails with `MathOverflow`.
pub proof fn lemma_purchase_goes_through_when_paid(ctx: BuyTicketView, transfer: TransferOutcome)
    ensures
        ctx.failure(transfer) is None <==> ctx.raffle.state == RaffleState::Active
            && ctx.raffle.total_tickets_sold < ctx.raffle.max_tickets && transfer
            == TransferOutcome::Made,
        ctx.refusal() is None && transfer == TransferOutcome::Failed ==> ctx.failure(transfer)
            == Some(PurchaseError::TransferFailed),
        ctx.failure(transfer) != Some(PurchaseError::Refused(ErrorCode::MathOverflow)),
        ctx.refusal() != Some(ErrorCode::MathOverflow),
{
}

/// A purchase from a raffle that is not active is refused for that reason,
/// whether the buyer has paid or not.
pub proof fn lemma_closed_raffle_sells_nothing(ctx: BuyTicketView, transfer: TransferOutcome)
    requires
        ctx.raffle.state != RaffleState::Active,
    ensures
        ctx.refusal() == Some(ErrorCode::RaffleNotActive),
        ctx.failure(transfer) == Some(PurchaseError::Refused(ErrorCode::RaffleNotActive)),
{
}

/// A draw of a raffle that is not marked ended, asked for before the end
/// time, is refused because the raffle has not ended.
pub proof fn lemma_early_draw_is_refused(ctx: DrawWinnerView, clock: Clock)
    requires
        ctx.raffle.state != RaffleState::Ended,
        clock.unix_timestamp < ctx.raffle.end_time,
    ensures
        ctx.refusal(clock) == Some(ErrorCode::RaffleNotEnded),
{
}

/// The winning ticket is one of those sold, whatever the slot counter, so
/// the winner is one of the buyers.
pub proof fn lemma_winner_is_a_buyer(raffle: RaffleView, slot: u64)
    requires
        raffle.wf(),
        raffle.total_tickets_sold > 0,
    ensures
        0 <= raffle.winning_index(slot) < raffle.total_tickets_sold,
        raffle.ticket_buyers.contains(raffle.winning_buyer(slot)),
{
    let index = raffle.winning_index(slot);
    assert(0 <= index < raffle.total_tickets_sold) by (nonlinear_arith)
        requires
            index == slot as int % raffle.total_tickets_sold as int,
            raffle.total_tickets_sold > 0,
    ;
}

/// An active raffle whose end time has come is drawn, with tickets left or
/// not, if it sold a ticket, the winner's account is offered and the amounts
/// fit. The draw completes it, and every later draw is refused because the
/// raffle has not ended.
pub proof fn lemma_expired_raffle_is_drawn_once(ctx: DrawWinnerView, clock: Clock, later: Clock)
    requires
        ctx.raffle.wf(),
        ctx.raffle.state == RaffleState::Active,
        clock.unix_timestamp >= ctx.raffle.end_time,
        ctx.raffle.total_tickets_sold >= 1,
        ctx.recipient(clock) is Some,
        !split_overflows(ctx.escrow.lamports),
        ctx.funds(ctx.winner(clock)) + prize_of(ctx.escrow.lamports) <= u64::MAX,
        ctx.funds(ctx.creator.key) + ctx.gain(clock, ctx.creator.key) <= u64::MAX,
    ensures
        ctx.refusal(clock) is None,
        ctx.drawn(clock).raffle.state == RaffleState::Completed,
        ctx.drawn(clock).raffle.winner == Some(ctx.winner(clock)),
        ctx.raffle.ticket_buyers.contains(ctx.winner(clock)),
        ctx.drawn(clock).refusal(later) == Some(ErrorCode::RaffleNotEnded),
{
    lemma_winner_is_a_buyer(ctx.raffle, clock.slot);
}

/// A draw of a raffle that sold no ticket is always refused: for want of
/// tickets if sales are over, and because the raffle has not ended if they
/// are not.
pub proof fn lemma_empty_raffle_is_never_drawn(ctx: DrawWinnerView, clock: Clock)
    requires
        ctx.raffle.total_tickets_sold == 0,
    ensures
        ctx.raffle.closed_at(clock.unix_timestamp) ==> ctx.refusal(clock) == Some(
            ErrorCode::NoTicketsSold,
        ),
        !ctx.raffle.closed_at(clock.unix_timestamp) ==> ctx.refusal(clock) == Some(
            ErrorCode::RaffleNotEnded,
        ),
{
}

/// The winner's prize and the creator's fee add up to the balance they are
/// taken from, for every balance whose shares can be computed: nothing is
/// lost and nothing is made. Both fit in `u64`.
pub proof fn lemma_shares_sum_to_balance(balance: u64)
    requires
        !split_overflows(balance),
    ensures
        prize_of(balance) + fee_of(balance) == balance,
        0 <= prize_of(balance) <= balance,
        0 <= fee_of(balance) <= balance,
{
}

/// A draw moves what the escrow held, and nothing else. Under every address
/// the funds after the draw are the funds before it with what the draw added;
/// what it adds under the winner's and the creator's address is what it
/// takes from the escrow's; and the accounts that bear one of these
/// addresses all show the funds of their address. So an address that is both
/// the winner's and the creator's ends with one balance, raised by all that
/// the escrow held.
pub proof fn lemma_draw_pays_out_the_escrow(ctx: DrawWinnerView, clock: Clock)
    requires
        ctx.refusal(clock) is None,
    ensures
        forall|key: Pubkey| #[trigger]
            ctx.drawn(clock).funds(key) == ctx.funds(key) + ctx.gain(clock, key),
        prize_of(ctx.escrow.lamports) + fee_of(ctx.escrow.lamports) == ctx.escrow.lamports,
        ctx.drawn(clock).remaining_accounts.len() == ctx.remaining_accounts.len(),
        forall|i: int|
            0 <= i < ctx.remaining_accounts.len() ==> {
                let before = ctx.remaining_accounts[i];
                let after = #[trigger] ctx.drawn(clock).remaining_accounts[i];
                &&& after.key == before.key
                &&& ctx.concerns(clock, before.key) ==> after.lamports == ctx.drawn(clock).funds(
                    before.key,
                )
                &&& !ctx.concerns(clock, before.key) ==> after == before
            },
        ctx.winner(clock) == ctx.creator.key && ctx.creator.key != ctx.escrow.key
            ==> ctx.drawn(clock).creator.lamports == ctx.creator.lamports + ctx.escrow.lamports,
{
    let next = ctx.drawn(clock);
    assert forall|key: Pubkey| #[trigger]
        next.funds(key) == ctx.funds(key) + ctx.gain(clock, key) by {
        lemma_first_with_key(ctx.remaining_accounts, key);
        lemma_first_with_key(next.remaining_accounts, key);
        // The draw leaves every address in its place, so the first account
        // offered with an address is the same before and after.
        if let Some(i) = first_with_key(ctx.remaining_accounts, key) {
            assert(is_first_with_key(next.remaining_accounts, key, i));
        }
    }
}

/// Once a draw has gone through, the raffle is completed, and every further
/// draw is refused because the raffle has not ended.
pub proof fn lemma_completed_raffle_is_never_drawn_again(
    ctx: DrawWinnerView,
    clock: Clock,
    later: Clock,
)
    requires
        ctx.refusal(clock) is None,
    ensures
        ctx.drawn(clock).raffle.state == RaffleState::Completed,
        ctx.drawn(clock).refusal(later) == Some(ErrorCode::RaffleNotEnded),
{
}

/// Neither a purchase nor a draw goes back on anything: the configuration of
/// the raffle stays, the counter and the roster only grow, and the phase only
/// moves forward.
pub proof fn lemma_operations_only_move_forward(raffle: RaffleView, buyer: Pubkey, winner: Pubkey)
    requires
        raffle.wf(),
    ensures
        raffle.purchase_refusal() is None ==> raffle.precedes(raffle.after_purchase(buyer)),
        raffle.state != RaffleState::Completed ==> raffle.precedes(raffle.after_draw(winner)),
{
}

/// A raffle can come after itself, and coming after carries over a raffle in
/// between.
pub proof fn lemma_precedes_is_a_preorder(first: RaffleView, second: RaffleView, third: RaffleView)
    ensures
        first.precedes(first),
        first.precedes(second) && second.precedes(third) ==> first.precedes(third),
{
}

} // verus!
