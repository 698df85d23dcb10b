use raffle_platform::{
    draw_winner, Account, Clock, DrawWinner, ErrorCode, Pubkey, Raffle, RaffleState, Settlement,
};

fn draw_key(n: u8) -> Pubkey {
    Pubkey::new_from_array([n; 32])
}

fn raffle_with(buyers: &[u8], max: u32, state: RaffleState) -> Raffle {
    Raffle {
        creator: draw_key(9),
        ticket_price: 100,
        max_tickets: max,
        end_time: 2_000,
        total_tickets_sold: buyers.len() as u32,
        ticket_buyers: buyers.iter().map(|b| draw_key(*b)).collect(),
        winner: None,
        state,
        bump: 254,
        raffle_id: 1,
    }
}

fn draw_of(raffle: Raffle, escrow: u64, offered: &[(u8, u64)]) -> DrawWinner {
    DrawWinner {
        raffle,
        escrow: Account { key: draw_key(200), lamports: escrow },
        creator: Account { key: draw_key(9), lamports: 1_000 },
        remaining_accounts: offered
            .iter()
            .map(|(k, l)| Account { key: draw_key(*k), lamports: *l })
            .collect(),
    }
}

fn draw_clock(slot: u64, now: i64) -> Clock {
    Clock { slot, unix_timestamp: now }
}

#[test]
fn draw_pays_the_winner_and_the_creator() {
    let raffle = raffle_with(&[1, 2, 3], 3, RaffleState::Ended);
    let mut ctx = draw_of(raffle, 300, &[(1, 10), (2, 20), (3, 30)]);
    let result = draw_winner(&mut ctx, &draw_clock(7, 1_500));
    assert_eq!(
        result,
        Ok(Settlement {
            winning_index: 1,
            winner: draw_key(2),
            recipient: 1,
            balance: 300,
            winner_prize: 270,
            creator_fee: 30,
        })
    );
    assert_eq!(ctx.raffle.winner, Some(draw_key(2)));
    assert_eq!(ctx.raffle.state, RaffleState::Completed);
    assert_eq!(ctx.escrow, Account { key: draw_key(200), lamports: 0 });
    assert_eq!(ctx.creator, Account { key: draw_key(9), lamports: 1_030 });
    assert_eq!(
        ctx.remaining_accounts,
        vec![
            Account { key: draw_key(1), lamports: 10 },
            Account { key: draw_key(2), lamports: 290 },
            Account { key: draw_key(3), lamports: 30 },
        ]
    );
    assert!(ctx.raffle.is_wf());
}

#[test]
fn draw_keeps_the_roster_and_the_configuration() {
    let raffle = raffle_with(&[1, 2, 3], 3, RaffleState::Ended);
    let mut ctx = draw_of(raffle.clone(), 300, &[(2, 0)]);
    assert!(draw_winner(&mut ctx, &draw_clock(1, 0)).is_ok());
    let mut expected = raffle;
    expected.winner = Some(draw_key(2));
    expected.state = RaffleState::Completed;
    assert_eq!(ctx.raffle, expected);
}

#[test]
fn the_winning_ticket_is_the_slot_counter_modulo_the_tickets_sold() {
    for (slot, buyer) in [(0u64, 1u8), (1, 2), (2, 3), (3, 1), (4, 2), (u64::MAX, 1)] {
        let raffle = raffle_with(&[1, 2, 3], 3, RaffleState::Ended);
        let mut ctx = draw_of(raffle, 0, &[(1, 0), (2, 0), (3, 0)]);
        let settlement = draw_winner(&mut ctx, &draw_clock(slot, 0)).unwrap();
        assert_eq!(settlement.winning_index as u64, slot % 3);
        assert_eq!(settlement.winner, draw_key(buyer));
        assert_eq!(ctx.raffle.winner, Some(draw_key(buyer)));
    }
}

#[test]
fn a_buyer_of_several_tickets_wins_with_each_of_them() {
    let raffle = raffle_with(&[1, 2, 1], 3, RaffleState::Ended);
    let mut ctx = draw_of(raffle, 10, &[(1, 0)]);
    let settlement = draw_winner(&mut ctx, &draw_clock(2, 0)).unwrap();
    assert_eq!(settlement.winning_index, 2);
    assert_eq!(settlement.winner, draw_key(1));
    assert_eq!(settlement.recipient, 0);
}

#[test]
fn draw_before_the_end_time_is_refused() {
    let raffle = raffle_with(&[1, 2], 3, RaffleState::Active);
    let mut ctx = draw_of(raffle, 200, &[(1, 0), (2, 0)]);
    let before = ctx.clone();
    assert_eq!(draw_winner(&mut ctx, &draw_clock(0, 1_999)), Err(ErrorCode::RaffleNotEnded));
    assert_eq!(ctx, before);
}

#[test]
fn draw_at_the_end_time_goes_through() {
    let raffle = raffle_with(&[1, 2], 3, RaffleState::Active);
    let mut ctx = draw_of(raffle, 200, &[(1, 0), (2, 0)]);
    let settlement = draw_winner(&mut ctx, &draw_clock(0, 2_000)).unwrap();
    assert_eq!(settlement.winner, draw_key(1));
    assert_eq!(ctx.raffle.state, RaffleState::Completed);
}

#[test]
fn an_ended_raffle_is_drawn_whatever_the_time() {
    let raffle = raffle_with(&[1, 2], 2, RaffleState::Ended);
    let mut ctx = draw_of(raffle, 200, &[(1, 0), (2, 0)]);
    assert!(draw_winner(&mut ctx, &draw_clock(0, i64::MIN)).is_ok());
}

#[test]
fn draw_of_an_unsold_raffle_before_its_end_is_refused_as_not_ended() {
    let raffle = raffle_with(&[], 3, RaffleState::Active);
    let mut ctx = draw_of(raffle, 0, &[]);
    let before = ctx.clone();
    assert_eq!(draw_winner(&mut ctx, &draw_clock(0, 0)), Err(ErrorCode::RaffleNotEnded));
    assert_eq!(ctx, before);
}

#[test]
fn draw_of_an_unsold_raffle_after_its_end_is_refused_for_want_of_tickets() {
    let raffle = raffle_with(&[], 3, RaffleState::Active);
    let mut ctx = draw_of(raffle, 55, &[(1, 0)]);
    let before = ctx.clone();
    assert_eq!(draw_winner(&mut ctx, &draw_clock(0, 2_000)), Err(ErrorCode::NoTicketsSold));
    assert_eq!(ctx, before);
    assert_eq!(ctx.raffle.state, RaffleState::Active);
    assert_eq!(draw_winner(&mut ctx, &draw_clock(9, 9_000)), Err(ErrorCode::NoTicketsSold));
}

#[test]
fn draw_of_an_ended_raffle_without_tickets_is_refused() {
    let raffle = raffle_with(&[], 3, RaffleState::Ended);
    let mut ctx = draw_of(raffle, 0, &[]);
    assert_eq!(draw_winner(&mut ctx, &draw_clock(0, 0)), Err(ErrorCode::NoTicketsSold));
}

#[test]
fn draw_without_the_winners_account_is_refused() {
    let raffle = raffle_with(&[1, 2, 3], 3, RaffleState::Ended);
    let mut ctx = draw_of(raffle, 300, &[(1, 10), (3, 30)]);
    let before = ctx.clone();
    assert_eq!(draw_winner(&mut ctx, &draw_clock(7, 0)), Err(ErrorCode::InvalidWinningTicket));
    assert_eq!(ctx, before);
}

#[test]
fn draw_with_no_account_offered_is_refused() {
    let raffle = raffle_with(&[1], 1, RaffleState::Ended);
    let mut ctx = draw_of(raffle, 100, &[]);
    assert_eq!(draw_winner(&mut ctx, &draw_clock(0, 0)), Err(ErrorCode::InvalidWinningTicket));
}

#[test]
fn the_creators_account_alone_does_not_receive_the_prize() {
    let raffle = raffle_with(&[9], 1, RaffleState::Ended);
    let mut ctx = draw_of(raffle, 100, &[]);
    assert_eq!(draw_winner(&mut ctx, &draw_clock(0, 0)), Err(ErrorCode::InvalidWinningTicket));
}

#[test]
fn every_account_with_the_winners_address_shows_the_prize() {
    let raffle = raffle_with(&[1], 1, RaffleState::Ended);
    let mut ctx = draw_of(raffle, 100, &[(5, 1), (1, 2), (1, 3)]);
    let settlement = draw_winner(&mut ctx, &draw_clock(0, 0)).unwrap();
    assert_eq!(settlement.recipient, 1);
    assert_eq!(ctx.remaining_accounts[0].lamports, 1);
    assert_eq!(ctx.remaining_accounts[1].lamports, 92);
    assert_eq!(ctx.remaining_accounts[2].lamports, 92);
}

#[test]
fn a_creator_who_wins_ends_with_one_balance() {
    let raffle = raffle_with(&[9], 1, RaffleState::Ended);
    let mut ctx = draw_of(raffle, 100, &[(9, 1_000)]);
    let settlement = draw_winner(&mut ctx, &draw_clock(0, 0)).unwrap();
    assert_eq!(settlement.winner, draw_key(9));
    assert_eq!(settlement.winner_prize, 90);
    assert_eq!(settlement.creator_fee, 10);
    assert_eq!(ctx.creator, Account { key: draw_key(9), lamports: 1_100 });
    assert_eq!(ctx.remaining_accounts, vec![Account { key: draw_key(9), lamports: 1_100 }]);
    assert_eq!(ctx.escrow.lamports, 0);
}

#[test]
fn the_fee_of_a_creator_who_wins_is_tested_on_top_of_the_prize() {
    let raffle = raffle_with(&[9], 1, RaffleState::Ended);
    let mut ctx = draw_of(raffle.clone(), 100, &[(9, u64::MAX - 95)]);
    ctx.creator.lamports = u64::MAX - 95;
    let before = ctx.clone();
    assert_eq!(draw_winner(&mut ctx, &draw_clock(0, 0)), Err(ErrorCode::MathOverflow));
    assert_eq!(ctx, before);

    let mut ctx = draw_of(raffle, 100, &[(9, u64::MAX - 100)]);
    ctx.creator.lamports = u64::MAX - 100;
    assert!(draw_winner(&mut ctx, &draw_clock(0, 0)).is_ok());
    assert_eq!(ctx.creator.lamports, u64::MAX);
    assert_eq!(ctx.remaining_accounts[0].lamports, u64::MAX);
}

#[test]
fn a_creator_offered_among_the_accounts_shows_the_fee_there_too() {
    let raffle = raffle_with(&[1], 1, RaffleState::Ended);
    let mut ctx = draw_of(raffle, 100, &[(9, 1_000), (1, 5)]);
    assert!(draw_winner(&mut ctx, &draw_clock(0, 0)).is_ok());
    assert_eq!(ctx.creator.lamports, 1_010);
    assert_eq!(ctx.remaining_accounts[0], Account { key: draw_key(9), lamports: 1_010 });
    assert_eq!(ctx.remaining_accounts[1], Account { key: draw_key(1), lamports: 95 });
}

#[test]
fn a_fee_paid_to_the_escrows_own_address_stays_in_the_escrow() {
    let raffle = raffle_with(&[1], 1, RaffleState::Ended);
    let mut ctx = draw_of(raffle, 100, &[(1, 5)]);
    ctx.creator = Account { key: draw_key(200), lamports: 100 };
    let settlement = draw_winner(&mut ctx, &draw_clock(0, 0)).unwrap();
    assert_eq!(settlement.creator_fee, 10);
    assert_eq!(ctx.escrow.lamports, 10);
    assert_eq!(ctx.creator, Account { key: draw_key(200), lamports: 10 });
    assert_eq!(ctx.remaining_accounts[0].lamports, 95);
}

#[test]
fn a_prize_paid_to_the_escrows_own_address_stays_in_the_escrow() {
    let raffle = raffle_with(&[200], 1, RaffleState::Ended);
    let mut ctx = draw_of(raffle, u64::MAX / 90, &[(200, u64::MAX / 90)]);
    let settlement = draw_winner(&mut ctx, &draw_clock(0, 0)).unwrap();
    assert_eq!(ctx.escrow.lamports, settlement.winner_prize);
    assert_eq!(ctx.remaining_accounts[0].lamports, settlement.winner_prize);
    assert_eq!(ctx.creator.lamports, 1_000 + settlement.creator_fee);
}

#[test]
fn a_balance_whose_shares_overflow_refuses_the_draw() {
    let raffle = raffle_with(&[1], 1, RaffleState::Ended);
    let mut ctx = draw_of(raffle, u64::MAX / 90 + 1, &[(1, 0)]);
    let before = ctx.clone();
    assert_eq!(draw_winner(&mut ctx, &draw_clock(0, 0)), Err(ErrorCode::MathOverflow));
    assert_eq!(ctx, before);
}

#[test]
fn the_largest_balance_that_can_be_split_is_paid_out() {
    let balance = u64::MAX / 90;
    let raffle = raffle_with(&[1], 1, RaffleState::Ended);
    let mut ctx = draw_of(raffle, balance, &[(1, 0)]);
    let settlement = draw_winner(&mut ctx, &draw_clock(0, 0)).unwrap();
    assert_eq!(settlement.winner_prize, 184467440737095516);
    assert_eq!(settlement.creator_fee, 20496382304121724);
    assert_eq!(settlement.winner_prize + settlement.creator_fee, balance);
}

#[test]
fn a_winner_whose_balance_would_overflow_refuses_the_draw() {
    let raffle = raffle_with(&[1], 1, RaffleState::Ended);
    let mut ctx = draw_of(raffle, 100, &[(1, u64::MAX - 89)]);
    let before = ctx.clone();
    assert_eq!(draw_winner(&mut ctx, &draw_clock(0, 0)), Err(ErrorCode::MathOverflow));
    assert_eq!(ctx, before);
}

#[test]
fn a_winner_filled_to_the_brim_is_paid() {
    let raffle = raffle_with(&[1], 1, RaffleState::Ended);
    let mut ctx = draw_of(raffle, 100, &[(1, u64::MAX - 90)]);
    assert!(draw_winner(&mut ctx, &draw_clock(0, 0)).is_ok());
    assert_eq!(ctx.remaining_accounts[0].lamports, u64::MAX);
}

#[test]
fn a_creator_whose_balance_would_overflow_refuses_the_draw() {
    let raffle = raffle_with(&[1], 1, RaffleState::Ended);
    let mut ctx = draw_of(raffle, 100, &[(1, 0)]);
    ctx.creator.lamports = u64::MAX - 9;
    let before = ctx.clone();
    assert_eq!(draw_winner(&mut ctx, &draw_clock(0, 0)), Err(ErrorCode::MathOverflow));
    assert_eq!(ctx, before);
    assert_eq!(ctx.remaining_accounts[0].lamports, 0);
    assert_eq!(ctx.escrow.lamports, 100);
}

#[test]
fn a_second_draw_is_refused_and_pays_nothing() {
    let raffle = raffle_with(&[1, 2, 3], 3, RaffleState::Ended);
    let mut ctx = draw_of(raffle, 300, &[(1, 0), (2, 0), (3, 0)]);
    assert!(draw_winner(&mut ctx, &draw_clock(7, 0)).is_ok());
    ctx.escrow.lamports = 500;
    let completed = ctx.clone();
    assert_eq!(draw_winner(&mut ctx, &draw_clock(8, 5_000)), Err(ErrorCode::RaffleNotEnded));
    assert_eq!(ctx, completed);
    assert_eq!(draw_winner(&mut ctx, &draw_clock(9, 9_000)), Err(ErrorCode::RaffleNotEnded));
    assert_eq!(ctx, completed);
}

#[test]
fn an_empty_escrow_is_split_into_nothing() {
    let raffle = raffle_with(&[1], 1, RaffleState::Ended);
    let mut ctx = draw_of(raffle, 0, &[(1, 4)]);
    let settlement = draw_winner(&mut ctx, &draw_clock(0, 0)).unwrap();
    assert_eq!(settlement.winner_prize, 0);
    assert_eq!(settlement.creator_fee, 0);
    assert_eq!(ctx.remaining_accounts[0].lamports, 4);
    assert_eq!(ctx.creator.lamports, 1_000);
    assert_eq!(ctx.raffle.state, RaffleState::Completed);
}

#[test]
fn draw_pays_out_exactly_what_the_escrow_held() {
    for balance in [1u64, 9, 10, 11, 99, 100, 101, 12_345, 1_000_000_007] {
        let raffle = raffle_with(&[1, 2], 2, RaffleState::Ended);
        let mut ctx = draw_of(raffle, balance, &[(1, 3), (2, 5)]);
        let settlement = draw_winner(&mut ctx, &draw_clock(1, 0)).unwrap();
        assert_eq!(settlement.balance, balance);
        assert_eq!(settlement.winner_prize, balance * 90 / 100);
        assert_eq!(settlement.winner_prize + settlement.creator_fee, balance);
        assert_eq!(ctx.escrow.lamports, 0);
        assert_eq!(ctx.remaining_accounts[1].lamports, 5 + settlement.winner_prize);
        assert_eq!(ctx.creator.lamports, 1_000 + settlement.creator_fee);
        assert_eq!(ctx.remaining_accounts[0].lamports, 3);
    }
}
