use raffle::error::RaffleError;
use raffle::lifecycle::{buy_tickets, create_raffle, instantiate};
use raffle::msg::{InstantiateMsg, QueryMsg};
use raffle::payout::{compute_split, PayoutSplit};
use raffle::queries::{
    parse_u64, query, query_config, query_participant, query_participants, query_raffle,
    query_raffles, QueryAnswer,
};
use raffle::randomness::{
    current_drand_round, seed_from_randomness, verify_drand_signature, DRAND_GENESIS_TIME,
    DRAND_MAINNET_PUBKEY, DRAND_PERIOD,
};
use raffle::state::ContractState;
use raffle::types::Coin;

use sha2::Digest;

fn coin(denom: &str, amount: u128) -> Coin {
    Coin { denom: denom.to_string(), amount }
}

fn valid_sig_hex() -> String {
    let mut b = vec![0u8; 96];
    b[0] = 0xc0;
    hex::encode(b)
}

fn randomness_for(sig_hex: &str) -> String {
    let sig = hex::decode(sig_hex).unwrap();
    hex::encode(sha2::Sha256::digest(&sig))
}

#[test]
fn current_round_counts_whole_periods_since_genesis() {
    assert_eq!(current_drand_round(DRAND_GENESIS_TIME, DRAND_GENESIS_TIME, DRAND_PERIOD), 1);
    assert_eq!(
        current_drand_round(DRAND_GENESIS_TIME + 29, DRAND_GENESIS_TIME, DRAND_PERIOD),
        1
    );
    assert_eq!(
        current_drand_round(DRAND_GENESIS_TIME + 30, DRAND_GENESIS_TIME, DRAND_PERIOD),
        2
    );
    assert_eq!(current_drand_round(DRAND_GENESIS_TIME - 1, DRAND_GENESIS_TIME, DRAND_PERIOD), 0);
}

#[test]
fn verify_accepts_a_fresh_consistent_triple() {
    let sig = valid_sig_hex();
    let rnd = randomness_for(&sig);
    let round = 4_000_000u64;
    let now = DRAND_GENESIS_TIME + (round - 1) * DRAND_PERIOD;
    let r = verify_drand_signature(now, DRAND_MAINNET_PUBKEY, round, &rnd, &sig);
    assert_eq!(r, Ok(true));
}

#[test]
fn verify_rejects_rounds_outside_freshness_window() {
    let sig = valid_sig_hex();
    let rnd = randomness_for(&sig);
    let round = 4_000_000u64;
    let now = DRAND_GENESIS_TIME + (round - 1) * DRAND_PERIOD;
    // Window: [expected - 20, expected + 10] around expected == round.
    let r = verify_drand_signature(now, DRAND_MAINNET_PUBKEY, round - 21, &rnd, &sig);
    assert_eq!(r, Err(RaffleError::RoundTooOld));
    let r = verify_drand_signature(now, DRAND_MAINNET_PUBKEY, round - 20, &rnd, &sig);
    assert_eq!(r, Ok(true));
    let r = verify_drand_signature(now, DRAND_MAINNET_PUBKEY, round + 10, &rnd, &sig);
    assert_eq!(r, Ok(true));
    let r = verify_drand_signature(now, DRAND_MAINNET_PUBKEY, round + 11, &rnd, &sig);
    assert_eq!(r, Err(RaffleError::RoundTooNew));
}

#[test]
fn verify_rejects_foreign_key_and_empty_inputs() {
    let sig = valid_sig_hex();
    let rnd = randomness_for(&sig);
    let round = 4_000_000u64;
    let now = DRAND_GENESIS_TIME + (round - 1) * DRAND_PERIOD;
    let foreign = "bb".repeat(48);
    let r = verify_drand_signature(now, &foreign, round, &rnd, &sig);
    assert_eq!(r, Err(RaffleError::UnrecognizedBeaconKey));
    let r = verify_drand_signature(now, "", round, &rnd, &sig);
    assert_eq!(r, Ok(false));
    let r = verify_drand_signature(now, DRAND_MAINNET_PUBKEY, round, "", &sig);
    assert_eq!(r, Ok(false));
    let r = verify_drand_signature(now, DRAND_MAINNET_PUBKEY, round, &rnd, "");
    assert_eq!(r, Ok(false));
    // Randomness of the wrong length is also rejected without a cause.
    let r = verify_drand_signature(now, DRAND_MAINNET_PUBKEY, round, "00ff", &sig);
    assert_eq!(r, Ok(false));
}

#[test]
fn verify_binds_randomness_to_signature_hash() {
    // If the hash wrapper handed its input back unchanged, the signature
    // bytes themselves would count as randomness; they must not.
    let sig = valid_sig_hex();
    let round = 4_000_000u64;
    let now = DRAND_GENESIS_TIME + (round - 1) * DRAND_PERIOD;
    let sig_prefix_as_rnd = &sig[..64];
    let r = verify_drand_signature(now, DRAND_MAINNET_PUBKEY, round, sig_prefix_as_rnd, &sig);
    assert_eq!(r, Err(RaffleError::RandomnessMismatch));
    let r = verify_drand_signature(now, DRAND_MAINNET_PUBKEY, round, &randomness_for(&sig), &sig);
    assert_eq!(r, Ok(true));
}

#[test]
fn seed_reads_first_eight_bytes_big_endian() {
    let bytes: Vec<u8> = vec![0x01, 0x02, 0x03, 0x04, 0x05, 0x06, 0x07, 0x08, 0xff, 0xff];
    assert_eq!(seed_from_randomness(&bytes), 0x0102030405060708);
    // Shorter inputs are zero-padded on the right.
    let short: Vec<u8> = vec![0xab];
    assert_eq!(seed_from_randomness(&short), 0xab00000000000000);
    let empty: Vec<u8> = vec![];
    assert_eq!(seed_from_randomness(&empty), 0);
}

#[test]
fn split_follows_the_exact_formula() {
    // total 1000, 500 bps, bounty 20 of the same denom.
    let r = compute_split(1000, 500, &Some(coin("D", 20)), &"D".to_string()).unwrap();
    assert_eq!(r, PayoutSplit { fee: 50, bounty_paid: 20, payout: 930 });
    // Fee rounds down.
    let r = compute_split(999, 500, &None, &"D".to_string()).unwrap();
    assert_eq!(r, PayoutSplit { fee: 49, bounty_paid: 0, payout: 950 });
    // Bounty in another denomination is not paid.
    let r = compute_split(1000, 0, &Some(coin("E", 20)), &"D".to_string()).unwrap();
    assert_eq!(r, PayoutSplit { fee: 0, bounty_paid: 0, payout: 1000 });
    // Bounty capped at what remains after the fee.
    let r = compute_split(100, 9900, &Some(coin("D", 20)), &"D".to_string()).unwrap();
    assert_eq!(r, PayoutSplit { fee: 99, bounty_paid: 1, payout: 0 });
    // A fee rate just above the whole still rounds down to the total itself.
    let r = compute_split(100, 10001, &None, &"D".to_string()).unwrap();
    assert_eq!(r, PayoutSplit { fee: 100, bounty_paid: 0, payout: 0 });
    // A fee rate of double the whole exceeds the total.
    let r = compute_split(100, 20000, &None, &"D".to_string());
    assert_eq!(r, Err(RaffleError::FeeExceedsTotal));
    // Zero total splits into zeroes.
    let r = compute_split(0, 500, &Some(coin("D", 20)), &"D".to_string()).unwrap();
    assert_eq!(r, PayoutSplit { fee: 0, bounty_paid: 0, payout: 0 });
}

#[test]
fn split_conserves_total_across_rates() {
    for bps in [0u16, 1, 7, 500, 9999, 10000] {
        for total in [0u128, 1, 99, 1000, 123_456_789] {
            let r = compute_split(total, bps, &Some(coin("D", 20)), &"D".to_string()).unwrap();
            assert_eq!(r.fee + r.bounty_paid + r.payout, total);
        }
    }
}

fn listing_state() -> ContractState {
    let mut state = instantiate(
        "admin".to_string(),
        InstantiateMsg { admin: None, protocol_fee_bps: 0, bounty_amount: None, drand_pubkey: None },
    );
    for k in 0..3u64 {
        create_raffle(
            &mut state,
            0,
            "creator".to_string(),
            "nft".to_string(),
            format!("tok{}", k),
            coin("D", 100),
            10,
            None,
            1000,
            None,
            None,
        )
        .unwrap();
    }
    state
}

#[test]
fn query_raffle_reports_fields_and_absence() {
    let state = listing_state();
    let resp = query_raffle(&state, 2);
    let v = resp.raffle.unwrap();
    assert_eq!(v.id, 2);
    assert_eq!(v.token_id, "tok1");
    assert_eq!(v.status, "active");
    assert_eq!(v.winner, None);
    let resp = query_raffle(&state, 9);
    assert!(resp.raffle.is_none());
}

#[test]
fn query_raffles_pages_by_id() {
    let state = listing_state();
    let all = query_raffles(&state, None, None);
    assert_eq!(all.raffles.len(), 3);
    assert_eq!(all.raffles[0].id, 1);
    let after1 = query_raffles(&state, Some("1".to_string()), None);
    assert_eq!(after1.raffles.len(), 2);
    assert_eq!(after1.raffles[0].id, 2);
    let plus2 = query_raffles(&state, Some("+2".to_string()), None);
    assert_eq!(plus2.raffles.len(), 1);
    assert_eq!(plus2.raffles[0].id, 3);
    let junk = query_raffles(&state, Some("junk".to_string()), None);
    assert_eq!(junk.raffles.len(), 3);
    let limited = query_raffles(&state, None, Some(2));
    assert_eq!(limited.raffles.len(), 2);
}

#[test]
fn query_participants_lists_one_entry_per_ticket() {
    let mut state = listing_state();
    for (buyer, n) in [("alice", 2u64), ("bob", 1)] {
        let funds = vec![coin("D", 100 * n as u128)];
        buy_tickets(&mut state, 1, buyer.to_string(), &funds, 1, n).unwrap();
    }
    let resp = query_participants(&state, 1, None, None);
    let entries: Vec<(String, u64)> = resp.participants.clone();
    assert_eq!(
        entries,
        vec![
            ("alice".to_string(), 1),
            ("alice".to_string(), 1),
            ("bob".to_string(), 1)
        ]
    );
    // Paging from an offset, stopping at the ledger's end.
    let resp = query_participants(&state, 1, Some("1".to_string()), Some(10));
    assert_eq!(resp.participants.len(), 2);
    assert_eq!(resp.participants[0].0, "alice");
    assert_eq!(resp.participants[1].0, "bob");
    // Beyond the ledger: nothing.
    let resp = query_participants(&state, 1, Some("3".to_string()), None);
    assert_eq!(resp.participants.len(), 0);
}

#[test]
fn query_participant_counts_cumulative_tickets() {
    let mut state = listing_state();
    for n in [2u64, 3] {
        let funds = vec![coin("D", 100 * n as u128)];
        buy_tickets(&mut state, 1, "alice".to_string(), &funds, 1, n).unwrap();
    }
    let resp = query_participant(&state, 1, "alice".to_string());
    assert_eq!(resp.ticket_count, 5);
    let resp = query_participant(&state, 1, "nobody".to_string());
    assert_eq!(resp.ticket_count, 0);
    let resp = query_participant(&state, 9, "alice".to_string());
    assert_eq!(resp.ticket_count, 0);
}

#[test]
fn query_config_reports_configuration() {
    let state = instantiate(
        "boss".to_string(),
        InstantiateMsg {
            admin: Some("boss".to_string()),
            protocol_fee_bps: 42,
            bounty_amount: Some(coin("D", 5)),
            drand_pubkey: Some(DRAND_MAINNET_PUBKEY.to_string()),
        },
    );
    let resp = query_config(&state);
    assert_eq!(resp.admin, "boss");
    assert_eq!(resp.protocol_fee_bps, 42);
    assert_eq!(resp.bounty_amount.unwrap().amount, 5);
    assert_eq!(resp.drand_pubkey.as_deref(), Some(DRAND_MAINNET_PUBKEY));
    assert_eq!(resp.drand_round_seconds, None);
}

#[test]
fn query_dispatches_each_variant() {
    let state = listing_state();
    match query(&state, QueryMsg::Raffle { raffle_id: 1 }) {
        QueryAnswer::Raffle(resp) => assert_eq!(resp.raffle.unwrap().id, 1),
        _ => panic!("wrong answer variant"),
    }
    match query(&state, QueryMsg::Raffles { start_after: None, limit: None }) {
        QueryAnswer::Raffles(resp) => assert_eq!(resp.raffles.len(), 3),
        _ => panic!("wrong answer variant"),
    }
    match query(
        &state,
        QueryMsg::Participant { raffle_id: 1, address: "x".to_string() },
    ) {
        QueryAnswer::Participant(resp) => assert_eq!(resp.ticket_count, 0),
        _ => panic!("wrong answer variant"),
    }
    match query(
        &state,
        QueryMsg::Participants { raffle_id: 1, start_after: None, limit: None },
    ) {
        QueryAnswer::Participants(resp) => assert_eq!(resp.participants.len(), 0),
        _ => panic!("wrong answer variant"),
    }
    match query(&state, QueryMsg::Config {}) {
        QueryAnswer::Config(resp) => assert_eq!(resp.admin, "admin"),
        _ => panic!("wrong answer variant"),
    }
}

#[test]
fn parse_u64_accepts_digits_and_plus_only() {
    assert_eq!(parse_u64("0"), Some(0));
    assert_eq!(parse_u64("42"), Some(42));
    assert_eq!(parse_u64("+42"), Some(42));
    assert_eq!(parse_u64("18446744073709551615"), Some(u64::MAX));
    assert_eq!(parse_u64("18446744073709551616"), None);
    assert_eq!(parse_u64(""), None);
    assert_eq!(parse_u64("+"), None);
    assert_eq!(parse_u64("-1"), None);
    assert_eq!(parse_u64("1x"), None);
    assert_eq!(parse_u64(" 1"), None);
    // Matches the standard library's behavior.
    assert_eq!(parse_u64("+42"), "+42".parse::<u64>().ok());
    assert_eq!(parse_u64("007"), "007".parse::<u64>().ok());
}
