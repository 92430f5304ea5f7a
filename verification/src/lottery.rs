//! The weekly lottery: ticket purchase, reward claims, and the records both
//! work on.

use vstd::prelude::*;

use crate::credit::{UserCredit, UserCreditUpdateInfo};
use crate::ids::new_uuid_string;
use crate::sortpairs::lemma_swap_preserves_multiset;
use crate::timefmt::{format_rfc3339_or_empty, rfc3339_of, rfc3339_ts_of};

verus! {

/// What one lottery ticket costs, in credits.
pub const LOTTERY_TICKET_COST: i32 = 10;

/// Seconds in a day and in a week, for the reward cooldowns.
pub const SECONDS_PER_DAY: i64 = 86400;

pub const SECONDS_PER_WEEK: i64 = 604800;

/// A user's lottery document: the bought tickets and the instants the next
/// daily and weekly rewards unlock.
#[derive(Debug, Clone)]
pub struct UserLottery {
    pub id: String,
    pub user_id: String,
    pub next_daily_time: String,
    pub next_weekly_time: String,
    pub lotteries: Vec<Vec<u8>>,
}

impl Default for UserLottery {
    /// The document an absent query result falls back to: both cooldowns sit
    /// at the Unix epoch, so both rewards are immediately due.
    fn default() -> (r: UserLottery)
        ensures
            r.id@ == Seq::<char>::empty(),
            r.user_id@ == Seq::<char>::empty(),
            r.next_daily_time@ == rfc3339_of(0),
            r.next_weekly_time@ == rfc3339_of(0),
            r.lotteries@.len() == 0,
    {
        UserLottery {
            id: String::new(),
            user_id: String::new(),
            next_daily_time: format_rfc3339_or_empty(0),
            next_weekly_time: format_rfc3339_or_empty(0),
            lotteries: Vec::new(),
        }
    }
}

/// The body of a ticket purchase request.
#[derive(Debug, Clone)]
pub struct UserLotteryUpdateInfo {
    pub username: String,
    pub lotteries: Vec<Vec<u8>>,
}

/// Whether every ticket holds exactly six numbers, each between 1 and 49.
pub open spec fn spec_tickets_valid(tickets: Seq<Vec<u8>>) -> bool {
    forall|i: int|
        0 <= i < tickets.len() ==> {
            &&& (#[trigger] tickets[i])@.len() == 6
            &&& forall|j: int| 0 <= j < tickets[i]@.len() ==> 1 <= (#[trigger] tickets[i]@[j]) <= 49
        }
}

/// Checks every ticket of a purchase: six numbers each, all between 1 and 49.
pub fn tickets_valid(tickets: &Vec<Vec<u8>>) -> (r: bool)
    ensures
        r == spec_tickets_valid(tickets@),
{
    let mut i: usize = 0;
    while i < tickets.len()
        invariant
            i <= tickets@.len(),
            forall|k: int|
                0 <= k < i ==> {
                    &&& (#[trigger] tickets@[k])@.len() == 6
                    &&& forall|j: int|
                        0 <= j < tickets@[k]@.len() ==> 1 <= (#[trigger] tickets@[k]@[j]) <= 49
                },
        decreases tickets@.len() - i,
    {
        let ticket = &tickets[i];
        if ticket.len() != 6 {
            proof {
                assert((tickets@[i as int])@.len() != 6);
            }
            return false;
        }
        let mut j: usize = 0;
        while j < ticket.len()
            invariant
                j <= ticket@.len(),
                i < tickets@.len(),
                ticket == tickets@[i as int],
                forall|k: int| 0 <= k < j ==> 1 <= (#[trigger] ticket@[k]) <= 49,
            decreases ticket@.len() - j,
        {
            let n = ticket[j];
            if n < 1 || n > 49 {
                proof {
                    assert((tickets@[i as int])@[j as int] == n);
                    assert(!spec_tickets_valid(tickets@));
                }
                return false;
            }
            j += 1;
        }
        i += 1;
    }
    true
}

/// Whether the numbers of a ticket run in non-decreasing order.
pub open spec fn ticket_sorted(t: Seq<u8>) -> bool {
    forall|i: int, j: int| 0 <= i < j < t.len() ==> t[i] <= t[j]
}

/// Sorts one ticket's numbers in place.
pub fn sort_ticket(t: &mut Vec<u8>)
    ensures
        ticket_sorted(final(t)@),
        final(t)@.to_multiset() == old(t)@.to_multiset(),
{
    let n = t.len();
    if n <= 1 {
        return ;
    }
    let mut i: usize = 1;
    while i < n
        invariant
            n == t@.len(),
            1 <= i <= n,
            ticket_sorted(t@.subrange(0, i as int)),
            t@.to_multiset() == old(t)@.to_multiset(),
        decreases n - i,
    {
        proof {
            assert forall|a: int, b: int|
                0 <= a < b <= i as int && b != i as int implies t@[a] <= t@[b] by {
                assert(t@.subrange(0, i as int)[a] == t@[a]);
                assert(t@.subrange(0, i as int)[b] == t@[b]);
            }
        }
        let mut j: usize = i;
        while j > 0 && t[j] < t[j - 1]
            invariant
                n == t@.len(),
                i < n,
                0 <= j <= i,
                t@.to_multiset() == old(t)@.to_multiset(),
                forall|a: int, b: int|
                    0 <= a < b <= i as int && b != j as int ==> t@[a] <= t@[b],
            decreases j,
        {
            let ghost prev = t@;
            let x = t[j];
            t[j] = t[j - 1];
            t[j - 1] = x;
            proof {
                assert(t@ =~= prev.update(j - 1, prev[j as int]).update(j as int, prev[j - 1]));
                lemma_swap_preserves_multiset(prev, t@, j - 1, j as int);
            }
            j -= 1;
        }
        proof {
            assert forall|a: int, b: int| 0 <= a < b <= i as int implies t@[a] <= t@[b] by {
                if b == j as int && j > 0 {
                    assert(t@[j - 1] <= t@[j as int]);
                    if a < j - 1 {
                        assert(t@[a] <= t@[j - 1]);
                    }
                }
            }
        }
        i += 1;
        proof {
            assert(ticket_sorted(t@.subrange(0, i as int)));
        }
    }
    proof {
        assert(t@ =~= t@.subrange(0, n as int));
    }
}

/// How one vector of tickets relates to another that holds the same tickets,
/// each sorted.
pub open spec fn tickets_sorted_of(sorted: Seq<Vec<u8>>, original: Seq<Vec<u8>>) -> bool {
    &&& sorted.len() == original.len()
    &&& forall|i: int|
        0 <= i < sorted.len() ==> ticket_sorted((#[trigger] sorted[i])@) && sorted[i]@.to_multiset()
            == original[i]@.to_multiset()
}

/// Sorts every ticket of a purchase in place.
pub fn sort_tickets(tickets: &mut Vec<Vec<u8>>)
    ensures
        tickets_sorted_of(final(tickets)@, old(tickets)@),
{
    let n = tickets.len();
    let mut i: usize = 0;
    while i < n
        invariant
            n == tickets@.len(),
            i <= n,
            forall|k: int|
                i <= k < n ==> #[trigger] tickets@[k] == old(tickets)@[k],
            forall|k: int|
                0 <= k < i ==> ticket_sorted((#[trigger] tickets@[k])@) && tickets@[k]@.to_multiset()
                    == old(tickets)@[k]@.to_multiset(),
        decreases n - i,
    {
        let ticket = &mut tickets[i];
        sort_ticket(ticket);
        i += 1;
    }
}


/// What a purchase of these tickets costs, in credits.
pub open spec fn purchase_cost(payload: UserLotteryUpdateInfo) -> int {
    payload.lotteries@.len() * (LOTTERY_TICKET_COST as int)
}

/// How a ticket purchase request is answered.
#[derive(Debug)]
pub enum LotteryPurchase {
    /// Some ticket was malformed.
    InvalidTickets,
    /// The buyer has no credit account.
    CreditNotFound,
    /// The tickets cost more than the buyer holds.
    InsufficientCredits,
    /// The purchase goes through: `record` is the lottery document to store,
    /// `rename` the credit document to upsert first where the buyer's name
    /// changed, and `cost` the credits to debit afterwards.
    Purchased { record: UserLottery, rename: Option<UserCredit>, cost: i32 },
}

/// Decides a ticket purchase from the two documents its queries returned:
/// the tickets are checked, the buyer must exist and afford them, each
/// ticket is stored sorted, and the tickets are appended to the buyer's
/// document — or put in a fresh one whose rewards unlock in a day and a
/// week.
pub fn purchase_lottery(
    payload: UserLotteryUpdateInfo,
    user_id: String,
    credit: Option<UserCredit>,
    existing: Option<UserLottery>,
    now_ts: i64,
) -> (r: LotteryPurchase)
    requires
        purchase_cost(payload) <= i32::MAX,
        credit matches Some(c) ==> (c.credits as int) - purchase_cost(payload) >= i32::MIN,
        now_ts <= i64::MAX - SECONDS_PER_WEEK,
    ensures
        (r is InvalidTickets <==> !spec_tickets_valid(payload.lotteries@)),
        (r is CreditNotFound <==> spec_tickets_valid(payload.lotteries@) && credit is None),
        (r is InsufficientCredits <==> spec_tickets_valid(payload.lotteries@) && (
        credit matches Some(c) && (c.credits as int) < purchase_cost(payload))),
        r matches LotteryPurchase::Purchased { record, rename, cost } ==> {
            let c = credit->Some_0;
            &&& cost as int == purchase_cost(payload)
            &&& (c.username@ == payload.username@ <==> rename is None)
            &&& (rename matches Some(u) ==> u.username@ == payload.username@ && u.id@ == c.id@
                && u.user_id@ == c.user_id@ && u.credits == c.credits)
            &&& match existing {
                None => {
                    &&& record.id@.len() == 36
                    &&& record.user_id == user_id
                    &&& record.next_daily_time@ == rfc3339_of((now_ts + SECONDS_PER_DAY) as i64)
                    &&& record.next_weekly_time@ == rfc3339_of((now_ts + SECONDS_PER_WEEK) as i64)
                    &&& tickets_sorted_of(record.lotteries@, payload.lotteries@)
                },
                Some(l) => {
                    &&& record.id == l.id
                    &&& record.user_id == l.user_id
                    &&& record.next_daily_time == l.next_daily_time
                    &&& record.next_weekly_time == l.next_weekly_time
                    &&& record.lotteries@.len() == l.lotteries@.len() + payload.lotteries@.len()
                    &&& record.lotteries@.subrange(0, l.lotteries@.len() as int) == l.lotteries@
                    &&& tickets_sorted_of(
                        record.lotteries@.subrange(
                            l.lotteries@.len() as int,
                            record.lotteries@.len() as int,
                        ),
                        payload.lotteries@,
                    )
                },
            }
        },
{
    if !tickets_valid(&payload.lotteries) {
        return LotteryPurchase::InvalidTickets;
    }
    let cost = (payload.lotteries.len() as i32) * LOTTERY_TICKET_COST;
    match credit {
        None => LotteryPurchase::CreditNotFound,
        Some(c) => {
            if c.credits - cost < 0 {
                return LotteryPurchase::InsufficientCredits;
            }
            let rename = if !crate::strutil::str_eq(c.username.as_str(), payload.username.as_str()) {
                Some(UserCredit { username: payload.username.clone(), ..c })
            } else {
                None
            };
            let mut tickets = payload.lotteries;
            sort_tickets(&mut tickets);
            let record = match existing {
                None => UserLottery {
                    id: new_uuid_string(),
                    user_id,
                    next_daily_time: format_rfc3339_or_empty(now_ts + SECONDS_PER_DAY),
                    next_weekly_time: format_rfc3339_or_empty(now_ts + SECONDS_PER_WEEK),
                    lotteries: tickets,
                },
                Some(l) => {
                    let UserLottery {
                        id,
                        user_id: owner,
                        next_daily_time,
                        next_weekly_time,
                        lotteries: mut lots,
                    } = l;
                    let ghost kept = lots@;
                    lots.append(&mut tickets);
                    proof {
                        assert(lots@.subrange(0, kept.len() as int) =~= kept);
                        assert(lots@.subrange(kept.len() as int, lots@.len() as int)
                            =~= lots@.skip(kept.len() as int));
                    }
                    UserLottery {
                        id,
                        user_id: owner,
                        next_daily_time,
                        next_weekly_time,
                        lotteries: lots,
                    }
                },
            };
            LotteryPurchase::Purchased { record, rename, cost }
        },
    }
}

/// Which of the two recurring rewards is being claimed.
#[derive(Debug, Clone, Copy)]
pub enum RewardType {
    Daily,
    Weekly,
}

/// How a reward claim is answered.
#[derive(Debug)]
pub enum RewardClaim {
    /// The user has no lottery document.
    UserNotFound,
    /// The cooldown has not elapsed; the document is returned unchanged.
    NotYet { record: UserLottery },
    /// The reward is due: `record` carries the pushed-out cooldown and
    /// `reward` the credits to grant.
    Granted { record: UserLottery, reward: UserCreditUpdateInfo },
}

/// What a reward of each kind pays.
pub open spec fn reward_amount(t: RewardType) -> int {
    match t {
        RewardType::Daily => 10,
        RewardType::Weekly => 70,
    }
}

/// The cooldown text a claim of kind `t` is gated on.
pub open spec fn next_time_text(l: UserLottery, t: RewardType) -> Seq<char> {
    match t {
        RewardType::Daily => l.next_daily_time@,
        RewardType::Weekly => l.next_weekly_time@,
    }
}

/// How the stored document changes when a reward of kind `t` is granted at
/// instant `now_ts`: the matching cooldown moves out, the rest is kept.
pub open spec fn granted_record_ok(
    l: UserLottery,
    record: UserLottery,
    t: RewardType,
    now_ts: i64,
) -> bool {
    &&& record.id == l.id
    &&& record.user_id == l.user_id
    &&& record.lotteries == l.lotteries
    &&& record.next_daily_time@ == (match t {
        RewardType::Daily => rfc3339_of((now_ts + SECONDS_PER_DAY) as i64),
        RewardType::Weekly => l.next_daily_time@,
    })
    &&& record.next_weekly_time@ == (match t {
        RewardType::Daily => l.next_weekly_time@,
        RewardType::Weekly => rfc3339_of((now_ts + SECONDS_PER_WEEK) as i64),
    })
}

/// Decides a reward claim from the document its query returned: the reward
/// is granted when the claim arrives after the stored unlock instant, and
/// the matching cooldown is then pushed out by a day or a week.
pub fn claim_reward(query: Option<UserLottery>, reward_type: RewardType, now_ts: i64) -> (r:
    RewardClaim)
    requires
        now_ts <= i64::MAX - SECONDS_PER_WEEK,
    ensures
        (r is UserNotFound <==> query is None),
        query is Some && now_ts <= rfc3339_ts_of(next_time_text(query->Some_0, reward_type))
            ==> (r matches RewardClaim::NotYet { record } && record == query->Some_0),
        query is Some && now_ts > rfc3339_ts_of(next_time_text(query->Some_0, reward_type)) ==> (
        r matches RewardClaim::Granted { record, reward } && reward.credit as int
            == reward_amount(reward_type) && granted_record_ok(
            query->Some_0,
            record,
            reward_type,
            now_ts,
        )),
{
    match query {
        None => RewardClaim::UserNotFound,
        Some(l) => {
            let next_ts = match reward_type {
                RewardType::Daily => crate::timefmt::parse_rfc3339_or_epoch(
                    l.next_daily_time.as_str(),
                ),
                RewardType::Weekly => crate::timefmt::parse_rfc3339_or_epoch(
                    l.next_weekly_time.as_str(),
                ),
            };
            if now_ts > next_ts {
                let UserLottery { id, user_id, next_daily_time, next_weekly_time, lotteries } = l;
                let (next_daily_time, next_weekly_time, amount) = match reward_type {
                    RewardType::Daily => (
                        format_rfc3339_or_empty(now_ts + SECONDS_PER_DAY),
                        next_weekly_time,
                        10,
                    ),
                    RewardType::Weekly => (
                        next_daily_time,
                        format_rfc3339_or_empty(now_ts + SECONDS_PER_WEEK),
                        70,
                    ),
                };
                RewardClaim::Granted {
                    record: UserLottery {
                        id,
                        user_id,
                        next_daily_time,
                        next_weekly_time,
                        lotteries,
                    },
                    reward: UserCreditUpdateInfo { credit: amount },
                }
            } else {
                RewardClaim::NotYet { record: l }
            }
        },
    }
}

/// Empties a user's ticket list, leaving the cooldowns untouched.
pub fn clear_lotteries(l: UserLottery) -> (r: UserLottery)
    ensures
        r.id == l.id,
        r.user_id == l.user_id,
        r.next_daily_time == l.next_daily_time,
        r.next_weekly_time == l.next_weekly_time,
        r.lotteries@.len() == 0,
{
    UserLottery { lotteries: Vec::new(), ..l }
}

} // verus!
