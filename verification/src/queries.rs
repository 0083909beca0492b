//! Read-only views over the state: single raffle, paged raffle list,
//! per-buyer counts, paged per-ticket owner listings, and the configuration.

use vstd::prelude::*;
use vstd::slice::slice_index_get;
use vstd::string::StringSliceAdditionalSpecFns;

use crate::msg::{
    ConfigResponse, ParticipantResponse, ParticipantsResponse, QueryMsg, RaffleListResponse,
    RaffleResponse, RaffleView,
};
use crate::randomness::chars_bytes;
use crate::state::{ContractState, RaffleModel, RaffleStatus, StateModel, count_of, has_raffle, record_of};

verus! {

/// The value of one decimal digit byte, or `None` for any other byte.
pub open spec fn dec_digit(b: u8) -> Option<u8> {
    if 48 <= b && b <= 57 {
        Some((b - 48) as u8)
    } else {
        None
    }
}

/// Whether a byte string is one or more decimal digits.
pub open spec fn digits_valid(s: Seq<u8>) -> bool {
    &&& s.len() > 0
    &&& forall|i: int| 0 <= i < s.len() ==> dec_digit(#[trigger] s[i]) is Some
}

/// The number a digit string denotes.
pub open spec fn digits_value(s: Seq<u8>) -> int
    decreases s.len(),
{
    if s.len() == 0 {
        0
    } else {
        digits_value(s.drop_last()) * 10 + dec_digit(s.last()).unwrap()
    }
}

/// A digit string denotes a non-negative number.
proof fn lemma_digits_value_nonneg(s: Seq<u8>)
    requires
        forall|i: int| 0 <= i < s.len() ==> dec_digit(#[trigger] s[i]) is Some,
    ensures
        digits_value(s) >= 0,
    decreases s.len(),
{
    if s.len() > 0 {
        lemma_digits_value_nonneg(s.drop_last());
    }
}

/// Extending a digit string never shrinks its value.
proof fn lemma_digits_value_prefix_le(s: Seq<u8>, i: int, j: int)
    requires
        0 <= i <= j <= s.len(),
        forall|k: int| 0 <= k < s.len() ==> dec_digit(#[trigger] s[k]) is Some,
    ensures
        digits_value(s.subrange(0, i)) <= digits_value(s.subrange(0, j)),
    decreases j - i,
{
    if i < j {
        let p = s.subrange(0, j - 1);
        let q = s.subrange(0, j);
        assert(q.drop_last() =~= p);
        lemma_digits_value_nonneg(p);
        lemma_digits_value_prefix_le(s, i, j - 1);
    }
}

/// The digit part of a decimal string: everything after an optional leading
/// plus sign.
pub open spec fn parse_digits(s: Seq<u8>) -> Seq<u8> {
    if s.len() > 0 && s[0] == 43 {
        s.subrange(1, s.len() as int)
    } else {
        s
    }
}

/// What a decimal string denotes: an optional leading plus sign, then one or
/// more digits, whose value must fit 64 bits. Anything else is no number.
pub open spec fn parse_u64_spec(s: Seq<u8>) -> Option<u64> {
    let digits = parse_digits(s);
    if digits_valid(digits) && digits_value(digits) <= u64::MAX {
        Some(digits_value(digits) as u64)
    } else {
        None
    }
}

/// Parse a decimal string, per [`parse_u64_spec`].
pub fn parse_u64(s: &str) -> (r: Option<u64>)
    ensures
        r == parse_u64_spec(s.spec_bytes()),
{
    let b = s.as_bytes();
    let n = b.len();
    let start: usize = if n > 0 && *slice_index_get(b, 0) == 43 {
        1
    } else {
        0
    };
    let ghost digits = parse_digits(b@);
    proof {
        assert(digits =~= b@.subrange(start as int, n as int));
    }
    if start >= n {
        return None;
    }
    let mut val: u64 = 0;
    let mut i: usize = start;
    while i < n
        invariant
            start <= i <= n,
            n == b@.len(),
            b@ == s.spec_bytes(),
            if n > 0 && b@[0] == 43 {
                start == 1
            } else {
                start == 0
            },
            digits == parse_digits(b@),
            digits =~= b@.subrange(start as int, n as int),
            forall|j: int| start <= j < i ==> dec_digit(#[trigger] b@[j]) is Some,
            val == digits_value(b@.subrange(start as int, i as int)),
        decreases n - i,
    {
        let d = *slice_index_get(b, i);
        if d < 48 || d > 57 {
            proof {
                assert(dec_digit(digits[i - start]) is None);
                assert(!digits_valid(digits));
            }
            return None;
        }
        let dv = (d - 48) as u64;
        let v10 = match val.checked_mul(10) {
            Some(v) => v,
            None => {
                proof {
                    lemma_overflow_means_large(b@, start as int, i as int, val, (d - 48) as u8);
                }
                return None;
            },
        };
        let v = match v10.checked_add(dv) {
            Some(v) => v,
            None => {
                proof {
                    lemma_overflow_means_large(b@, start as int, i as int, val, (d - 48) as u8);
                }
                return None;
            },
        };
        proof {
            assert(b@.subrange(start as int, i + 1 as int).drop_last() =~= b@.subrange(
                start as int,
                i as int,
            ));
        }
        val = v;
        i = i + 1;
    }
    proof {
        assert(b@.subrange(start as int, n as int) =~= digits);
    }
    Some(val)
}

/// If one more digit pushes the running value past the 64-bit range, the
/// whole string's value lies past it too.
proof fn lemma_overflow_means_large(s: Seq<u8>, start: int, i: int, val: u64, dv: u8)
    requires
        0 <= start <= i < s.len(),
        forall|j: int| start <= j < i ==> dec_digit(#[trigger] s[j]) is Some,
        dec_digit(s[i]) == Some(dv),
        val == digits_value(s.subrange(start, i)),
        val * 10 + dv > u64::MAX,
    ensures
        digits_valid(s.subrange(start, s.len() as int)) ==> digits_value(
            s.subrange(start, s.len() as int),
        ) > u64::MAX,
{
    let whole = s.subrange(start, s.len() as int);
    if digits_valid(whole) {
        assert(s.subrange(start, i + 1).drop_last() =~= s.subrange(start, i));
        assert(digits_value(s.subrange(start, i + 1)) == val * 10 + dv);
        assert(s.subrange(start, i + 1) =~= whole.subrange(0, i + 1 - start));
        assert(whole.subrange(0, whole.len() as int) =~= whole);
        lemma_digits_value_prefix_le(whole, i + 1 - start, whole.len() as int);
    }
}

/// The label a status is reported under.
pub open spec fn status_label(s: RaffleStatus) -> Seq<char> {
    match s {
        RaffleStatus::Active => "active"@,
        RaffleStatus::Completed => "completed"@,
        RaffleStatus::Cancelled => "cancelled"@,
    }
}

/// Whether a reported view faithfully renders a raffle.
pub open spec fn raffle_view_ok(r: RaffleModel, v: RaffleView) -> bool {
    &&& v.id == r.id
    &&& v.creator@ == r.creator
    &&& v.nft_contract@ == r.nft_contract
    &&& v.token_id@ == r.token_id
    &&& v.price@ == r.price
    &&& v.max_tickets == r.max_tickets
    &&& v.total_sold == r.total_sold
    &&& v.start_time == r.start_time
    &&& v.end_time == r.end_time
    &&& v.status@ == status_label(r.status)
    &&& crate::types::opt_string_view(v.winner) == r.winner
}

/// Render one raffle for reporting.
fn render_raffle(raffle: &crate::state::Raffle) -> (v: RaffleView)
    ensures
        raffle_view_ok(raffle@, v),
{
    let status = match raffle.status {
        RaffleStatus::Active => "active".to_owned(),
        RaffleStatus::Completed => "completed".to_owned(),
        RaffleStatus::Cancelled => "cancelled".to_owned(),
    };
    let winner = match &raffle.winner {
        Some(w) => Some(w.clone()),
        None => None,
    };
    RaffleView {
        id: raffle.id,
        creator: raffle.creator.clone(),
        nft_contract: raffle.nft_contract.clone(),
        token_id: raffle.token_id.clone(),
        price: raffle.price.duplicate(),
        max_tickets: raffle.max_tickets,
        total_sold: raffle.total_sold,
        start_time: raffle.start_time,
        end_time: raffle.end_time,
        status,
        winner,
    }
}

/// Report one raffle, or nothing when the id does not exist.
pub fn query_raffle(state: &ContractState, raffle_id: u64) -> (resp: RaffleResponse)
    requires
        state.wf(),
    ensures
        match resp.raffle {
            None => !has_raffle(state@, raffle_id),
            Some(v) => has_raffle(state@, raffle_id) && raffle_view_ok(
                record_of(state@, raffle_id).raffle,
                v,
            ),
        },
{
    if raffle_id < 1 || raffle_id > state.raffles.len() as u64 {
        return RaffleResponse { raffle: None };
    }
    let idx: usize = (raffle_id - 1) as usize;
    RaffleResponse { raffle: Some(render_raffle(&state.raffles[idx].raffle)) }
}

/// The page bounds of a raffle listing: the zero-based index the page starts
/// at (the parsed id is excluded), and the page size, defaulting to 50 and
/// capped at 100.
pub open spec fn raffles_page_start(start_after: Option<Seq<char>>) -> int {
    match start_after {
        None => 0,
        Some(sa) => match parse_u64_spec(chars_bytes(sa)) {
            None => 0,
            Some(p) => p as int,
        },
    }
}

/// The page size of a raffle listing.
pub open spec fn raffles_page_limit(limit: Option<u32>) -> int {
    let l = match limit {
        Some(v) => v as int,
        None => 50,
    };
    if l < 100 {
        l
    } else {
        100
    }
}

/// Report a page of raffles in ascending id order, starting after the given
/// id.
pub fn query_raffles(
    state: &ContractState,
    start_after: Option<String>,
    limit: Option<u32>,
) -> (resp: RaffleListResponse)
    requires
        state.wf(),
    ensures
        ({
            let start = raffles_page_start(crate::types::opt_string_view(start_after));
            let lim = raffles_page_limit(limit);
            let avail = if start <= state@.raffles.len() {
                state@.raffles.len() - start
            } else {
                0
            };
            let n = if lim < avail {
                lim
            } else {
                avail
            };
            &&& resp.raffles.len() == n
            &&& forall|k: int|
                0 <= k < n ==> raffle_view_ok(
                    state@.raffles[start + k].raffle,
                    #[trigger] resp.raffles[k],
                )
        }),
{
    let start_u64: u64 = match &start_after {
        None => 0,
        Some(sa) => match parse_u64(sa.as_str()) {
            None => 0,
            Some(p) => p,
        },
    };
    let lim: usize = match limit {
        Some(v) => if v < 100 {
            v as usize
        } else {
            100
        },
        None => 50,
    };
    let total: usize = state.raffles.len();
    let start: usize = if start_u64 > total as u64 {
        total
    } else {
        start_u64 as usize
    };
    let mut out: Vec<RaffleView> = Vec::new();
    let mut k: usize = start;
    while k < total && out.len() < lim
        invariant
            state.wf(),
            start <= k <= total,
            total == state@.raffles.len(),
            out@.len() == k - start,
            out@.len() <= lim,
            forall|j: int|
                0 <= j < out@.len() ==> raffle_view_ok(
                    state@.raffles[start + j].raffle,
                    #[trigger] out@[j],
                ),
        decreases total - k,
    {
        out.push(render_raffle(&state.raffles[k].raffle));
        k = k + 1;
    }
    RaffleListResponse { raffles: out }
}

/// The cumulative ticket count reported for a buyer: the recorded count, or
/// zero when the raffle or the buyer is unknown.
pub open spec fn participant_count_spec(s: StateModel, raffle_id: u64, addr: Seq<char>) -> u64 {
    if has_raffle(s, raffle_id) {
        count_of(record_of(s, raffle_id).buyer_counts, addr)
    } else {
        0
    }
}

/// Report a buyer's cumulative ticket count in a raffle.
pub fn query_participant(state: &ContractState, raffle_id: u64, address: String) -> (resp:
    ParticipantResponse)
    requires
        state.wf(),
    ensures
        resp.raffle_id == raffle_id,
        resp.address@ == address@,
        resp.ticket_count == participant_count_spec(state@, raffle_id, address@) as u32,
{
    if raffle_id < 1 || raffle_id > state.raffles.len() as u64 {
        return ParticipantResponse { raffle_id, address, ticket_count: 0 };
    }
    let idx: usize = (raffle_id - 1) as usize;
    proof {
        assert(crate::state::record_wf(state@.raffles[idx as int]));
    }
    let counts = &state.raffles[idx].buyer_counts;
    let n = counts.len();
    let mut k: usize = 0;
    let ghost cs = state@.raffles[idx as int].buyer_counts;
    proof {
        assert(cs.skip(0) =~= cs);
    }
    while k < n
        invariant
            k <= n,
            n == counts@.len(),
            idx < state@.raffles.len(),
            has_raffle(state@, raffle_id),
            idx as int == raffle_id - 1,
            cs == state@.raffles[idx as int].buyer_counts,
            cs.len() == counts@.len(),
            forall|j: int|
                0 <= j < cs.len() ==> #[trigger] cs[j] == (counts@[j].buyer@, counts@[j].count),
            count_of(cs, address@) == count_of(cs.skip(k as int), address@),
        decreases n - k,
    {
        proof {
            assert(cs.skip(k as int)[0] == cs[k as int]);
        }
        if counts[k].buyer.eq(&address) {
            let c = counts[k].count;
            proof {
                assert(cs[k as int].0 == address@);
                assert(cs.skip(k as int)[0].0 == address@);
                assert(count_of(cs.skip(k as int), address@) == cs.skip(k as int)[0].1);
                assert(c == cs[k as int].1);
            }
            return ParticipantResponse { raffle_id, address, ticket_count: c as u32 };
        }
        proof {
            assert(cs.skip(k as int).drop_first() =~= cs.skip(k as int + 1));
        }
        k = k + 1;
    }
    proof {
        assert(cs.skip(n as int) =~= Seq::empty());
    }
    ParticipantResponse { raffle_id, address, ticket_count: 0 }
}

/// The page start of an owner listing: the parsed index, zero when absent or
/// unparsable.
pub open spec fn participants_page_start(start_after: Option<Seq<char>>) -> int {
    match start_after {
        None => 0,
        Some(sa) => match parse_u64_spec(chars_bytes(sa)) {
            None => 0,
            Some(p) => p as int,
        },
    }
}

/// The page size of an owner listing, defaulting to 50 and capped at 200.
pub open spec fn participants_page_limit(limit: Option<u32>) -> int {
    let l = match limit {
        Some(v) => v as int,
        None => 50,
    };
    if l < 200 {
        l
    } else {
        200
    }
}

/// Report a page of per-ticket owner entries starting at a given index: one
/// `(owner, 1)` pair per existing ticket, stopping at the first gap, so a
/// buyer with several tickets appears once per ticket.
pub fn query_participants(
    state: &ContractState,
    raffle_id: u64,
    start_after: Option<String>,
    limit: Option<u32>,
) -> (resp: ParticipantsResponse)
    requires
        state.wf(),
    ensures
        resp.raffle_id == raffle_id,
        ({
            let start = participants_page_start(crate::types::opt_string_view(start_after));
            let lim = participants_page_limit(limit);
            let sold = if has_raffle(state@, raffle_id) {
                record_of(state@, raffle_id).raffle.total_sold as int
            } else {
                0
            };
            let avail = if start <= sold {
                sold - start
            } else {
                0
            };
            let n = if lim < avail {
                lim
            } else {
                avail
            };
            &&& resp.participants.len() == n
            &&& forall|k: int|
                0 <= k < n ==> (#[trigger] resp.participants[k]).0@ == record_of(
                    state@,
                    raffle_id,
                ).tickets[start + k] && resp.participants[k].1 == 1u64
        }),
{
    let start_u64: u64 = match &start_after {
        None => 0,
        Some(sa) => match parse_u64(sa.as_str()) {
            None => 0,
            Some(p) => p,
        },
    };
    let lim: usize = match limit {
        Some(v) => if v < 200 {
            v as usize
        } else {
            200
        },
        None => 50,
    };
    let mut out: Vec<(String, u64)> = Vec::new();
    if raffle_id < 1 || raffle_id > state.raffles.len() as u64 {
        return ParticipantsResponse { raffle_id, participants: out };
    }
    let idx: usize = (raffle_id - 1) as usize;
    proof {
        assert(crate::state::record_wf(state@.raffles[idx as int]));
    }
    let tickets = &state.raffles[idx].tickets;
    let sold: usize = tickets.len();
    let start: usize = if start_u64 > sold as u64 {
        sold
    } else {
        start_u64 as usize
    };
    let mut k: usize = start;
    while k < sold && out.len() < lim
        invariant
            start <= k <= sold,
            sold == tickets@.len(),
            tickets@ == state.raffles@[idx as int].tickets@,
            out@.len() == k - start,
            out@.len() <= lim,
            forall|j: int|
                0 <= j < out@.len() ==> ((#[trigger] out@[j]).0@ == tickets@[start + j]@
                    && out@[j].1 == 1u64),
        decreases sold - k,
    {
        out.push((tickets[k].clone(), 1));
        k = k + 1;
    }
    ParticipantsResponse { raffle_id, participants: out }
}

/// Report the current configuration.
pub fn query_config(state: &ContractState) -> (resp: ConfigResponse)
    ensures
        resp.admin@ == state@.config.admin,
        resp.protocol_fee_bps == state@.config.protocol_fee_bps,
        crate::types::opt_coin_view(resp.bounty_amount) == state@.config.bounty_amount,
        crate::types::opt_string_view(resp.drand_pubkey) == state@.config.drand_pubkey,
        resp.drand_round_seconds == state@.config.drand_round_seconds,
{
    let bounty = match &state.config.bounty_amount {
        Some(b) => Some(b.duplicate()),
        None => None,
    };
    let pk = match &state.config.drand_pubkey {
        Some(p) => Some(p.clone()),
        None => None,
    };
    ConfigResponse {
        admin: state.config.admin.clone(),
        protocol_fee_bps: state.config.protocol_fee_bps,
        bounty_amount: bounty,
        drand_pubkey: pk,
        drand_round_seconds: state.config.drand_round_seconds,
    }
}

/// The answer to one query.
pub enum QueryAnswer {
    Raffle(RaffleResponse),
    Raffles(RaffleListResponse),
    Participant(ParticipantResponse),
    Participants(ParticipantsResponse),
    Config(ConfigResponse),
}

/// Dispatch one read-only query: each variant answers exactly as the query
/// it names; see [`query_raffle`], [`query_raffles`], [`query_participant`],
/// [`query_participants`] and [`query_config`].
pub fn query(state: &ContractState, msg: QueryMsg) -> (r: QueryAnswer)
    requires
        state.wf(),
    ensures
        match msg {
            QueryMsg::Raffle { raffle_id } => r matches QueryAnswer::Raffle(resp) && (match resp
                .raffle {
                None => !has_raffle(state@, raffle_id),
                Some(v) => has_raffle(state@, raffle_id) && raffle_view_ok(
                    record_of(state@, raffle_id).raffle,
                    v,
                ),
            }),
            QueryMsg::Raffles { start_after, limit } => r matches QueryAnswer::Raffles(resp) && ({
                let start = raffles_page_start(crate::types::opt_string_view(start_after));
                let lim = raffles_page_limit(limit);
                let avail = if start <= state@.raffles.len() {
                    state@.raffles.len() - start
                } else {
                    0
                };
                let n = if lim < avail {
                    lim
                } else {
                    avail
                };
                &&& resp.raffles.len() == n
                &&& forall|k: int|
                    0 <= k < n ==> raffle_view_ok(
                        state@.raffles[start + k].raffle,
                        #[trigger] resp.raffles[k],
                    )
            }),
            QueryMsg::Participant { raffle_id, address } => r matches QueryAnswer::Participant(
                resp,
            ) && resp.raffle_id == raffle_id && resp.address@ == address@ && resp.ticket_count
                == participant_count_spec(state@, raffle_id, address@) as u32,
            QueryMsg::Participants { raffle_id, start_after, limit } => r matches QueryAnswer::Participants(resp) && resp.raffle_id == raffle_id && ({
                let start = participants_page_start(crate::types::opt_string_view(start_after));
                let lim = participants_page_limit(limit);
                let sold = if has_raffle(state@, raffle_id) {
                    record_of(state@, raffle_id).raffle.total_sold as int
                } else {
                    0
                };
                let avail = if start <= sold {
                    sold - start
                } else {
                    0
                };
                let n = if lim < avail {
                    lim
                } else {
                    avail
                };
                &&& resp.participants.len() == n
                &&& forall|k: int|
                    0 <= k < n ==> ((#[trigger] resp.participants[k]).0@ == record_of(
                        state@,
                        raffle_id,
                    ).tickets[start + k] && resp.participants[k].1 == 1u64)
            }),
            QueryMsg::Config {  } => r matches QueryAnswer::Config(resp) && resp.admin@ == state@
                .config.admin && resp.protocol_fee_bps == state@.config.protocol_fee_bps
                && crate::types::opt_coin_view(resp.bounty_amount) == state@.config.bounty_amount
                && crate::types::opt_string_view(resp.drand_pubkey) == state@.config.drand_pubkey
                && resp.drand_round_seconds == state@.config.drand_round_seconds,
        },
{
    match msg {
        QueryMsg::Raffle { raffle_id } => QueryAnswer::Raffle(query_raffle(state, raffle_id)),
        QueryMsg::Raffles { start_after, limit } => QueryAnswer::Raffles(
            query_raffles(state, start_after, limit),
        ),
        QueryMsg::Participant { raffle_id, address } => QueryAnswer::Participant(
            query_participant(state, raffle_id, address),
        ),
        QueryMsg::Participants { raffle_id, start_after, limit } => QueryAnswer::Participants(
            query_participants(state, raffle_id, start_after, limit),
        ),
        QueryMsg::Config {  } => QueryAnswer::Config(query_config(state)),
    }
}

} // verus!
