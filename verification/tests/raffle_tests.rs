use raffle::error::RaffleError;
use raffle::lifecycle::{
    buy_tickets, buy_tickets_with_count, cancel_raffle, create_raffle, end_raffle, execute,
    instantiate, receive_cw20, receive_nft, update_config, withdraw_fees, ExecOutcome,
};
use raffle::msg::{BuyTicketsCw20Msg, CreateRaffleNftMsg, ExecuteMsg, InstantiateMsg};
use raffle::randomness::{DRAND_GENESIS_TIME, DRAND_MAINNET_PUBKEY, DRAND_PERIOD};
use raffle::state::{ContractState, RaffleStatus};
use raffle::types::{Coin, TransferMsg};

use sha2::Digest;

const NANOS: u64 = 1_000_000_000;

fn coin(denom: &str, amount: u128) -> Coin {
    Coin { denom: denom.to_string(), amount }
}

fn base_state(fee_bps: u16, bounty: Option<Coin>) -> ContractState {
    instantiate(
        "admin".to_string(),
        InstantiateMsg {
            admin: None,
            protocol_fee_bps: fee_bps,
            bounty_amount: bounty,
            drand_pubkey: Some(DRAND_MAINNET_PUBKEY.to_string()),
        },
    )
}

/// A valid compressed second-group point: the point at infinity.
fn valid_sig_hex() -> String {
    let mut b = vec![0u8; 96];
    b[0] = 0xc0;
    hex::encode(b)
}

/// The randomness the verifier accepts for a signature: the hash of its bytes.
fn randomness_for(sig_hex: &str) -> String {
    let sig = hex::decode(sig_hex).unwrap();
    hex::encode(sha2::Sha256::digest(&sig))
}

/// A time (in nanoseconds) at which the beacon's expected round is `round`.
fn now_for_round(round: u64) -> u64 {
    (DRAND_GENESIS_TIME + (round - 1) * DRAND_PERIOD) * NANOS
}

/// A state with one active raffle (id 1), priced 100 "D" per ticket, at most
/// 10 tickets, ending at `end_nanos`.
fn with_raffle(fee_bps: u16, bounty: Option<Coin>, end_nanos: u64) -> ContractState {
    let mut state = base_state(fee_bps, bounty);
    let id = create_raffle(
        &mut state,
        0,
        "creator".to_string(),
        "nft".to_string(),
        "token-1".to_string(),
        coin("D", 100),
        10,
        None,
        end_nanos,
        None,
        None,
    )
    .unwrap();
    assert_eq!(id, 1);
    state
}

fn buy(state: &mut ContractState, buyer: &str, count: u64) {
    let funds = vec![coin("D", 100 * count as u128)];
    buy_tickets(state, 1, buyer.to_string(), &funds, 1, count).unwrap();
}

#[test]
fn create_assigns_sequential_ids() {
    let mut state = base_state(0, None);
    for expect in 1..=3u64 {
        let id = create_raffle(
            &mut state,
            0,
            "creator".to_string(),
            "nft".to_string(),
            format!("tok{}", expect),
            coin("D", 100),
            10,
            None,
            1000 * NANOS,
            None,
            None,
        )
        .unwrap();
        assert_eq!(id, expect);
    }
    assert_eq!(state.next_id, 4);
}

#[test]
fn create_rejects_end_time_in_past() {
    let mut state = base_state(0, None);
    let r = create_raffle(
        &mut state,
        50,
        "creator".to_string(),
        "nft".to_string(),
        "t".to_string(),
        coin("D", 100),
        10,
        None,
        50,
        None,
        None,
    );
    assert_eq!(r, Err(RaffleError::EndTimeNotFuture));
    assert_eq!(state.raffles.len(), 0);
}

#[test]
fn create_rejects_start_after_end() {
    let mut state = base_state(0, None);
    let r = create_raffle(
        &mut state,
        0,
        "creator".to_string(),
        "nft".to_string(),
        "t".to_string(),
        coin("D", 100),
        10,
        Some(2000),
        1000,
        None,
        None,
    );
    assert_eq!(r, Err(RaffleError::StartNotBeforeEnd));
}

#[test]
fn buy_records_contiguous_tickets() {
    let mut state = with_raffle(0, None, 1000 * NANOS);
    buy(&mut state, "alice", 2);
    buy(&mut state, "bob", 1);
    buy(&mut state, "alice", 1);
    let rec = &state.raffles[0];
    assert_eq!(rec.raffle.total_sold, 4);
    let owners: Vec<&str> = rec.tickets.iter().map(|s| s.as_str()).collect();
    assert_eq!(owners, vec!["alice", "alice", "bob", "alice"]);
    let counts: Vec<(String, u64)> =
        rec.buyer_counts.iter().map(|b| (b.buyer.clone(), b.count)).collect();
    assert_eq!(counts, vec![("alice".to_string(), 3), ("bob".to_string(), 1)]);
}

#[test]
fn buy_over_capacity_fails_and_leaves_state_unchanged() {
    let mut state = with_raffle(0, None, 1000 * NANOS);
    buy(&mut state, "alice", 9);
    let funds = vec![coin("D", 200)];
    let r = buy_tickets(&mut state, 1, "bob".to_string(), &funds, 1, 2);
    assert_eq!(r, Err(RaffleError::ExceedsMaxTickets));
    assert_eq!(state.raffles[0].raffle.total_sold, 9);
    assert_eq!(state.raffles[0].tickets.len(), 9);
    assert_eq!(state.raffles[0].buyer_counts.len(), 1);
    assert_eq!(state.raffles[0].buyer_counts[0].count, 9);
}

#[test]
fn buy_zero_count_fails() {
    let mut state = with_raffle(0, None, 1000 * NANOS);
    let funds = vec![coin("D", 100)];
    let r = buy_tickets(&mut state, 1, "a".to_string(), &funds, 1, 0);
    assert_eq!(r, Err(RaffleError::ZeroTicketCount));
}

#[test]
fn buy_unknown_raffle_fails() {
    let mut state = with_raffle(0, None, 1000 * NANOS);
    let funds = vec![coin("D", 100)];
    let r = buy_tickets(&mut state, 1, "a".to_string(), &funds, 7, 1);
    assert_eq!(r, Err(RaffleError::RaffleNotFound));
}

#[test]
fn buy_before_start_and_after_end_fails() {
    let mut state = base_state(0, None);
    create_raffle(
        &mut state,
        0,
        "creator".to_string(),
        "nft".to_string(),
        "t".to_string(),
        coin("D", 100),
        10,
        Some(500),
        1000,
        None,
        None,
    )
    .unwrap();
    let funds = vec![coin("D", 100)];
    let r = buy_tickets(&mut state, 100, "a".to_string(), &funds, 1, 1);
    assert_eq!(r, Err(RaffleError::SaleNotStarted));
    let r = buy_tickets(&mut state, 1001, "a".to_string(), &funds, 1, 1);
    assert_eq!(r, Err(RaffleError::SaleEnded));
}

#[test]
fn buy_payment_errors() {
    let mut state = with_raffle(0, None, 1000 * NANOS);
    let r = buy_tickets(&mut state, 1, "a".to_string(), &vec![], 1, 1);
    assert_eq!(r, Err(RaffleError::PaymentNoFunds));
    let r = buy_tickets(
        &mut state,
        1,
        "a".to_string(),
        &vec![coin("D", 100), coin("E", 5)],
        1,
        1,
    );
    assert_eq!(r, Err(RaffleError::PaymentMultipleDenoms));
    let r = buy_tickets(&mut state, 1, "a".to_string(), &vec![coin("E", 100)], 1, 1);
    assert_eq!(r, Err(RaffleError::PaymentMissingDenom));
    let r = buy_tickets(&mut state, 1, "a".to_string(), &vec![coin("D", 199)], 1, 2);
    assert_eq!(r, Err(RaffleError::InsufficientPayment));
    let r = buy_tickets(&mut state, 1, "a".to_string(), &vec![coin("D", 0)], 1, 1);
    assert_eq!(r, Err(RaffleError::PaymentNoFunds));
    assert_eq!(state.raffles[0].raffle.total_sold, 0);
}

#[test]
fn buy_surplus_payment_is_accepted() {
    let mut state = with_raffle(0, None, 1000 * NANOS);
    let funds = vec![coin("D", 250)];
    buy_tickets(&mut state, 1, "a".to_string(), &funds, 1, 2).unwrap();
    assert_eq!(state.raffles[0].raffle.total_sold, 2);
}

#[test]
fn buy_price_overflow_is_rejected() {
    let mut state = base_state(0, None);
    create_raffle(
        &mut state,
        0,
        "creator".to_string(),
        "nft".to_string(),
        "t".to_string(),
        coin("D", u128::MAX),
        10,
        None,
        1000,
        None,
        None,
    )
    .unwrap();
    let funds = vec![coin("D", 100)];
    let r = buy_tickets(&mut state, 1, "a".to_string(), &funds, 1, 2);
    assert_eq!(r, Err(RaffleError::Overflow));
}

#[test]
fn end_before_time_and_before_sellout_fails_then_succeeds_at_time() {
    let round = 4_000_000u64;
    let now = now_for_round(round);
    let mut state = with_raffle(0, None, now);
    buy(&mut state, "alice", 3);
    let sig = valid_sig_hex();
    let rnd = randomness_for(&sig);
    let early = now - NANOS;
    let r = end_raffle(&mut state, early, "exec".to_string(), 1, round, &rnd, &sig);
    assert_eq!(r.unwrap_err(), RaffleError::NotReadyToEnd);
    assert!(matches!(state.raffles[0].raffle.status, RaffleStatus::Active));
    let r = end_raffle(&mut state, now, "exec".to_string(), 1, round, &rnd, &sig);
    assert!(r.is_ok());
    assert!(matches!(state.raffles[0].raffle.status, RaffleStatus::Completed));
    assert!(state.raffles[0].raffle.winner.is_some());
    assert!(state.raffles[0].used_rounds.contains(&round));
}

#[test]
fn end_by_sellout_before_time_succeeds() {
    let round = 4_000_000u64;
    let now = now_for_round(round);
    let mut state = with_raffle(0, None, now + 1000 * NANOS);
    buy(&mut state, "alice", 10);
    let sig = valid_sig_hex();
    let rnd = randomness_for(&sig);
    let r = end_raffle(&mut state, now, "exec".to_string(), 1, round, &rnd, &sig).unwrap();
    assert!(r.sold_out);
}

#[test]
fn end_with_used_round_fails_regardless_of_signature() {
    let round = 4_000_000u64;
    let now = now_for_round(round);
    let mut state = with_raffle(0, None, now);
    buy(&mut state, "alice", 3);
    let sig = valid_sig_hex();
    let rnd = randomness_for(&sig);
    end_raffle(&mut state, now, "exec".to_string(), 1, round, &rnd, &sig).unwrap();
    let r = end_raffle(&mut state, now, "exec".to_string(), 1, round, &rnd, &sig);
    assert!(r.is_err());
    let r = end_raffle(&mut state, now, "exec".to_string(), 1, round, "zz", "zz");
    assert!(r.is_err());
}

#[test]
fn end_with_no_tickets_sold_fails_regardless_of_beacon() {
    let round = 4_000_000u64;
    let now = now_for_round(round);
    let mut state = with_raffle(0, None, now);
    let sig = valid_sig_hex();
    let rnd = randomness_for(&sig);
    let r = end_raffle(&mut state, now, "exec".to_string(), 1, round, &rnd, &sig);
    assert_eq!(r.unwrap_err(), RaffleError::NoTicketsSold);
    let r = end_raffle(&mut state, now, "exec".to_string(), 1, round, "bogus", "bogus");
    assert_eq!(r.unwrap_err(), RaffleError::NoTicketsSold);
}

#[test]
fn end_splits_funds_exactly() {
    // price 100 D, 10 tickets, fee 500 bps, bounty 20 D:
    // total 1000, fee 50, bounty 20, payout 930.
    let round = 4_000_000u64;
    let now = now_for_round(round);
    let mut state = with_raffle(500, Some(coin("D", 20)), now);
    buy(&mut state, "alice", 10);
    let sig = valid_sig_hex();
    let rnd = randomness_for(&sig);
    let summary = end_raffle(&mut state, now, "exec".to_string(), 1, round, &rnd, &sig).unwrap();
    assert_eq!(summary.total, 1000);
    assert_eq!(summary.split.fee, 50);
    assert_eq!(summary.split.bounty_paid, 20);
    assert_eq!(summary.split.payout, 930);
    assert_eq!(
        summary.split.fee + summary.split.bounty_paid + summary.split.payout,
        summary.total
    );
    assert_eq!(summary.messages.len(), 4);
    match &summary.messages[0] {
        TransferMsg::Prize { contract, token_id, recipient } => {
            assert_eq!(contract, "nft");
            assert_eq!(token_id, "token-1");
            assert_eq!(recipient, &summary.winner);
        },
        _ => panic!("first message must move the prize"),
    }
    match &summary.messages[1] {
        TransferMsg::Funds { to, denom, amount } => {
            assert_eq!(to, "admin");
            assert_eq!(denom, "D");
            assert_eq!(*amount, 50);
        },
        _ => panic!("second message must pay the fee"),
    }
    match &summary.messages[2] {
        TransferMsg::Funds { to, amount, .. } => {
            assert_eq!(to, "exec");
            assert_eq!(*amount, 20);
        },
        _ => panic!("third message must pay the bounty"),
    }
    match &summary.messages[3] {
        TransferMsg::Funds { to, amount, .. } => {
            assert_eq!(to, "creator");
            assert_eq!(*amount, 930);
        },
        _ => panic!("fourth message must pay the payee"),
    }
}

#[test]
fn end_winner_is_seed_mod_total_sold() {
    let round = 4_000_000u64;
    let now = now_for_round(round);
    let mut state = with_raffle(0, None, now);
    for buyer in ["b0", "b1", "b2", "b3", "b4", "b5", "b6"] {
        buy(&mut state, buyer, 1);
    }
    let sig = valid_sig_hex();
    let rnd = randomness_for(&sig);
    let rnd_bytes = hex::decode(&rnd).unwrap();
    let mut first8 = [0u8; 8];
    first8.copy_from_slice(&rnd_bytes[..8]);
    let seed = u64::from_be_bytes(first8);
    let expected_index = seed % 7;
    let summary = end_raffle(&mut state, now, "exec".to_string(), 1, round, &rnd, &sig).unwrap();
    assert_eq!(summary.winner_index, expected_index);
    assert_eq!(summary.winner, format!("b{}", expected_index));
    assert_eq!(state.raffles[0].raffle.winner, Some(summary.winner.clone()));
}

#[test]
fn identical_beacons_pick_identical_winners() {
    let round = 4_000_000u64;
    let now = now_for_round(round);
    let mut state = base_state(0, None);
    for _ in 0..2 {
        create_raffle(
            &mut state,
            0,
            "creator".to_string(),
            "nft".to_string(),
            "t".to_string(),
            coin("D", 100),
            10,
            None,
            now,
            None,
            None,
        )
        .unwrap();
    }
    for id in [1u64, 2] {
        for buyer in ["x", "y", "z"] {
            let funds = vec![coin("D", 100)];
            buy_tickets(&mut state, 1, buyer.to_string(), &funds, id, 1).unwrap();
        }
    }
    let sig = valid_sig_hex();
    let rnd = randomness_for(&sig);
    let s1 = end_raffle(&mut state, now, "e".to_string(), 1, round, &rnd, &sig).unwrap();
    let s2 = end_raffle(&mut state, now, "e".to_string(), 2, round, &rnd, &sig).unwrap();
    assert_eq!(s1.winner_index, s2.winner_index);
    assert_eq!(s1.winner, s2.winner);
}

#[test]
fn end_requires_round_after_close_when_round_length_configured() {
    let round = 4_000_000u64;
    let now = now_for_round(round);
    let mut state = with_raffle(0, None, now);
    buy(&mut state, "alice", 1);
    update_config(
        &mut state,
        "admin".to_string(),
        None,
        None,
        None,
        Some(DRAND_PERIOD),
    )
    .unwrap();
    // end_time in seconds / period is far above the supplied round.
    let sig = valid_sig_hex();
    let rnd = randomness_for(&sig);
    let min_round = (now / NANOS) / DRAND_PERIOD;
    let r = end_raffle(&mut state, now, "e".to_string(), 1, min_round, &rnd, &sig);
    assert_eq!(r.unwrap_err(), RaffleError::RoundBeforeClose);
}

#[test]
fn end_without_configured_beacon_key_fails() {
    let round = 4_000_000u64;
    let now = now_for_round(round);
    let mut state = instantiate(
        "admin".to_string(),
        InstantiateMsg { admin: None, protocol_fee_bps: 0, bounty_amount: None, drand_pubkey: None },
    );
    create_raffle(
        &mut state,
        0,
        "c".to_string(),
        "nft".to_string(),
        "t".to_string(),
        coin("D", 100),
        10,
        None,
        now,
        None,
        None,
    )
    .unwrap();
    let funds = vec![coin("D", 100)];
    buy_tickets(&mut state, 1, "a".to_string(), &funds, 1, 1).unwrap();
    let sig = valid_sig_hex();
    let rnd = randomness_for(&sig);
    let r = end_raffle(&mut state, now, "e".to_string(), 1, round, &rnd, &sig);
    assert_eq!(r.unwrap_err(), RaffleError::InvalidBeaconInput);
}

#[test]
fn end_rejects_malformed_beacon_inputs() {
    let round = 4_000_000u64;
    let now = now_for_round(round);
    let sig = valid_sig_hex();
    let rnd = randomness_for(&sig);

    // Short randomness: rejected without a specific cause.
    let mut state = with_raffle(0, None, now);
    buy(&mut state, "a", 1);
    let r = end_raffle(&mut state, now, "e".to_string(), 1, round, "00ff", &sig);
    assert_eq!(r.unwrap_err(), RaffleError::InvalidBeaconSignature);

    // Signature that is not hex.
    let bad_sig = "zz".repeat(48);
    let r = end_raffle(&mut state, now, "e".to_string(), 1, round, &rnd, &bad_sig);
    assert_eq!(r.unwrap_err(), RaffleError::SignatureBadHex);

    // Signature of the wrong length.
    let short_sig = "00".repeat(10);
    let r = end_raffle(&mut state, now, "e".to_string(), 1, round, &rnd, &short_sig);
    assert_eq!(r.unwrap_err(), RaffleError::SignatureBadLength);

    // 96 bytes that are no curve point.
    let not_point = "ff".repeat(96);
    let r = end_raffle(&mut state, now, "e".to_string(), 1, round, &rnd, &not_point);
    assert_eq!(r.unwrap_err(), RaffleError::SignatureBadPoint);

    // Valid point, but randomness that is not hex.
    let bad_rnd = "zz".repeat(32);
    let r = end_raffle(&mut state, now, "e".to_string(), 1, round, &bad_rnd, &sig);
    assert_eq!(r.unwrap_err(), RaffleError::RandomnessBadHex);

    // Valid point, valid hex randomness, but not the hash of the signature.
    let wrong_rnd = "ab".repeat(32);
    let r = end_raffle(&mut state, now, "e".to_string(), 1, round, &wrong_rnd, &sig);
    assert_eq!(r.unwrap_err(), RaffleError::RandomnessMismatch);

    // Unrecognized configured key.
    update_config(
        &mut state,
        "admin".to_string(),
        None,
        None,
        Some("aa".repeat(48)),
        None,
    )
    .unwrap();
    let r = end_raffle(&mut state, now, "e".to_string(), 1, round, &rnd, &sig);
    assert_eq!(r.unwrap_err(), RaffleError::UnrecognizedBeaconKey);

    // Nothing committed through all of this.
    assert!(matches!(state.raffles[0].raffle.status, RaffleStatus::Active));
    assert_eq!(state.raffles[0].used_rounds.len(), 0);
}

#[test]
fn end_with_excessive_fee_rate_fails() {
    let round = 4_000_000u64;
    let now = now_for_round(round);
    let mut state = with_raffle(20000, None, now);
    buy(&mut state, "a", 1);
    let sig = valid_sig_hex();
    let rnd = randomness_for(&sig);
    let r = end_raffle(&mut state, now, "e".to_string(), 1, round, &rnd, &sig);
    assert_eq!(r.unwrap_err(), RaffleError::FeeExceedsTotal);
    assert!(matches!(state.raffles[0].raffle.status, RaffleStatus::Active));
}

#[test]
fn end_with_revenue_overflow_is_rejected() {
    let round = 4_000_000u64;
    let now = now_for_round(round);
    let mut state = base_state(0, None);
    create_raffle(
        &mut state,
        0,
        "c".to_string(),
        "nft".to_string(),
        "t".to_string(),
        coin("D", u128::MAX),
        2,
        None,
        now + 1000 * NANOS,
        None,
        None,
    )
    .unwrap();
    for buyer in ["a", "b"] {
        let funds = vec![coin("D", u128::MAX)];
        buy_tickets(&mut state, 1, buyer.to_string(), &funds, 1, 1).unwrap();
    }
    let sig = valid_sig_hex();
    let rnd = randomness_for(&sig);
    let r = end_raffle(&mut state, now, "e".to_string(), 1, round, &rnd, &sig);
    assert_eq!(r.unwrap_err(), RaffleError::Overflow);
    assert!(matches!(state.raffles[0].raffle.status, RaffleStatus::Active));
}

#[test]
fn cancel_rules() {
    let mut state = base_state(0, None);
    create_raffle(
        &mut state,
        0,
        "creator".to_string(),
        "nft".to_string(),
        "t".to_string(),
        coin("D", 100),
        2,
        Some(500 * NANOS),
        1000 * NANOS,
        None,
        None,
    )
    .unwrap();
    let r = cancel_raffle(&mut state, 100, "mallory".to_string(), 1);
    assert_eq!(r, Err(RaffleError::Unauthorized));
    let r = cancel_raffle(&mut state, 600 * NANOS, "creator".to_string(), 1);
    assert_eq!(r, Err(RaffleError::CannotCancelAfterStart));
    let r = cancel_raffle(&mut state, 100, "creator".to_string(), 1);
    assert_eq!(r, Ok(()));
    assert!(matches!(state.raffles[0].raffle.status, RaffleStatus::Cancelled));
    // Terminal: cancelling again fails.
    let r = cancel_raffle(&mut state, 100, "creator".to_string(), 1);
    assert_eq!(r, Err(RaffleError::RaffleNotActive));
}

#[test]
fn cancel_sold_out_fails() {
    let mut state = with_raffle(0, None, 1000 * NANOS);
    buy(&mut state, "a", 10);
    let r = cancel_raffle(&mut state, 1, "creator".to_string(), 1);
    assert_eq!(r, Err(RaffleError::CannotCancelSoldOut));
}

#[test]
fn update_config_is_admin_gated() {
    let mut state = base_state(100, None);
    let r = update_config(&mut state, "mallory".to_string(), Some(1), None, None, None);
    assert_eq!(r, Err(RaffleError::Unauthorized));
    assert_eq!(state.config.protocol_fee_bps, 100);
    update_config(
        &mut state,
        "admin".to_string(),
        Some(250),
        Some(coin("D", 7)),
        None,
        Some(30),
    )
    .unwrap();
    assert_eq!(state.config.protocol_fee_bps, 250);
    assert_eq!(state.config.bounty_amount.as_ref().unwrap().amount, 7);
    assert_eq!(state.config.drand_round_seconds, Some(30));
    assert_eq!(
        state.config.drand_pubkey.as_deref(),
        Some(DRAND_MAINNET_PUBKEY)
    );
}

#[test]
fn receive_cw20_buys_amount_over_price_tickets() {
    let mut state = base_state(0, None);
    create_raffle(
        &mut state,
        0,
        "c".to_string(),
        "nft".to_string(),
        "t".to_string(),
        coin("D", 100),
        10,
        None,
        1000,
        None,
        Some("tokenc".to_string()),
    )
    .unwrap();
    let r = receive_cw20(
        &mut state,
        1,
        "tokenc".to_string(),
        "alice".to_string(),
        300,
        BuyTicketsCw20Msg { raffle_id: 1, count: 0 },
    );
    assert_eq!(r, Ok(()));
    assert_eq!(state.raffles[0].raffle.total_sold, 3);
    // Wrong token contract.
    let r = receive_cw20(
        &mut state,
        1,
        "other".to_string(),
        "alice".to_string(),
        100,
        BuyTicketsCw20Msg { raffle_id: 1, count: 0 },
    );
    assert_eq!(r, Err(RaffleError::WrongPaymentToken));
    // Amount not a multiple of the price.
    let r = receive_cw20(
        &mut state,
        1,
        "tokenc".to_string(),
        "alice".to_string(),
        150,
        BuyTicketsCw20Msg { raffle_id: 1, count: 0 },
    );
    assert_eq!(r, Err(RaffleError::InvalidTokenAmount));
}

#[test]
fn receive_cw20_on_native_raffle_fails() {
    let mut state = with_raffle(0, None, 1000 * NANOS);
    let r = receive_cw20(
        &mut state,
        1,
        "tokenc".to_string(),
        "alice".to_string(),
        100,
        BuyTicketsCw20Msg { raffle_id: 1, count: 0 },
    );
    assert_eq!(r, Err(RaffleError::ExpectsNativePayment));
}

#[test]
fn receive_nft_creates_raffle_for_depositor() {
    let mut state = base_state(0, None);
    let id = receive_nft(
        &mut state,
        0,
        "nftc".to_string(),
        "alice".to_string(),
        "tok9".to_string(),
        CreateRaffleNftMsg {
            price: coin("D", 5),
            max_tickets: 3,
            start_time: None,
            end_time: 1000,
            revenue_address: Some("payee".to_string()),
            payment_cw20: None,
        },
    )
    .unwrap();
    assert_eq!(id, 1);
    let r = &state.raffles[0].raffle;
    assert_eq!(r.creator, "alice");
    assert_eq!(r.nft_contract, "nftc");
    assert_eq!(r.token_id, "tok9");
    assert_eq!(r.revenue_address, "payee");
}

#[test]
fn execute_dispatches_and_reports_outcomes() {
    let mut state = base_state(0, None);
    let r = execute(
        &mut state,
        0,
        "creator".to_string(),
        &vec![],
        ExecuteMsg::CreateRaffle {
            nft_contract: "nft".to_string(),
            token_id: "t".to_string(),
            price: coin("D", 100),
            max_tickets: 5,
            start_time: None,
            end_time: 1000,
            revenue_address: None,
            payment_cw20: None,
        },
    );
    assert!(matches!(r, Ok(ExecOutcome::Created { raffle_id: 1 })));
    let r = execute(
        &mut state,
        1,
        "alice".to_string(),
        &vec![coin("D", 200)],
        ExecuteMsg::BuyTickets { raffle_id: 1, count: 2 },
    );
    assert!(matches!(r, Ok(ExecOutcome::TicketsBought)));
    let r = execute(
        &mut state,
        1,
        "anyone".to_string(),
        &vec![],
        ExecuteMsg::WithdrawFees { to: "x".to_string() },
    );
    assert!(matches!(r, Ok(ExecOutcome::FeesWithdrawn)));
    assert!(withdraw_fees(&state).is_ok());
    // Partially sold but not sold out and no start time: cancel succeeds.
    let r = execute(
        &mut state,
        1,
        "creator".to_string(),
        &vec![],
        ExecuteMsg::CancelRaffle { raffle_id: 1 },
    );
    assert!(matches!(r, Ok(ExecOutcome::Cancelled)));
    assert!(matches!(state.raffles[0].raffle.status, RaffleStatus::Cancelled));
}

#[test]
fn buy_with_count_checks_capacity_without_payment() {
    let mut state = with_raffle(0, None, 1000 * NANOS);
    buy_tickets_with_count(&mut state, 1, "a".to_string(), 1, 10).unwrap();
    let r = buy_tickets_with_count(&mut state, 1, "b".to_string(), 1, 1);
    assert_eq!(r, Err(RaffleError::ExceedsMaxTickets));
}
