//! Chat message and completion records: validation of incoming payloads and
//! the bounded-context retrieval the bots feed their prompts from.

use vstd::prelude::*;

use crate::errors::ServerError;
use crate::ids::new_uuid_string;
use crate::sortpairs::{pair_leq, pairs_sorted, sort_pairs};
use crate::timefmt::rfc3339_ts_of;

verus! {

/// The most characters a retrieved context may hold.
pub const MAX_CONTEXT_WORD_COUNT: usize = 1000;

/// An incoming chat record, not yet stored.
#[derive(Debug, Clone)]
pub struct MessageInfo {
    pub bot_id: String,
    pub user_id: String,
    pub user_name: Option<String>,
    pub generated_by: String,
    pub message: String,
    pub message_type: String,
    pub channel_id: String,
    pub post_at: String,
}

/// A stored chat record: an incoming record plus its document id.
#[derive(Debug, Clone)]
pub struct MessageRecord {
    pub id: String,
    pub bot_id: String,
    pub user_id: String,
    pub user_name: Option<String>,
    pub generated_by: String,
    pub message: String,
    pub message_type: String,
    pub channel_id: String,
    pub post_at: String,
}

/// The slice of a chat record the message-context response carries.
#[derive(Debug, Clone)]
pub struct MessageRecordSimple {
    pub user_id: String,
    pub user_name: String,
    pub message: String,
    pub message_type: String,
}

/// The slice of a chat record the completion-context response carries.
#[derive(Debug, Clone)]
pub struct CompletionRecordSimple {
    pub message_type: String,
    pub message: String,
    pub generated_by: String,
}

/// A request for the completion context of one user in one channel.
#[derive(Debug, Clone)]
pub struct GetCompletionRequest {
    pub bot_id: String,
    pub user_id: String,
    pub channel_id: String,
}

/// The completion context handed back to the bot.
#[derive(Debug, Clone)]
pub struct GetCompletionResponse {
    pub bot_id: String,
    pub user_id: String,
    pub messages: Vec<CompletionRecordSimple>,
}

/// A request for the message context of one channel.
#[derive(Debug, Clone)]
pub struct GetMessageRequest {
    pub bot_id: String,
    pub channel_id: String,
}

/// The message context handed back to the bot.
#[derive(Debug, Clone)]
pub struct GetMessageResponse {
    pub bot_id: String,
    pub messages: Vec<MessageRecordSimple>,
}

/// Whether an incoming record passes validation whole.
pub open spec fn message_info_ok(m: MessageInfo) -> bool {
    &&& m.bot_id@.len() > 0
    &&& m.user_id@.len() > 0
    &&& (m.user_name matches Some(n) ==> n@.len() > 0)
    &&& m.message@.len() > 0
    &&& m.channel_id@.len() > 0
    &&& m.post_at@.len() > 0
}

/// The first complaint validation raises, for a record that fails it.
pub open spec fn message_info_error_text(m: MessageInfo) -> Seq<char> {
    if m.bot_id@.len() == 0 {
        "Bot id cannot be empty."@
    } else if m.user_id@.len() == 0 {
        "User ID cannot be empty."@
    } else if m.user_name matches Some(n) && n@.len() == 0 {
        "User name cannot be empty."@
    } else if m.message@.len() == 0 {
        "Message cannot be empty."@
    } else if m.channel_id@.len() == 0 {
        "Channel ID cannot be empty."@
    } else {
        "Post time cannot be empty."@
    }
}

/// Checks an incoming record field by field: ids, message, channel and post
/// time must be present, and a user name, when given, must not be blank.
pub fn validate_message_info(payload: MessageInfo) -> (r: Result<MessageInfo, ServerError>)
    ensures
        message_info_ok(payload) <==> r is Ok,
        r matches Ok(p) ==> p == payload,
        !message_info_ok(payload) ==> (r matches Err(e) && e.error_message@
            == message_info_error_text(payload)),
{
    if payload.bot_id.as_str().is_empty() {
        Err(ServerError::with_message("Bot id cannot be empty."))
    } else if payload.user_id.as_str().is_empty() {
        Err(ServerError::with_message("User ID cannot be empty."))
    } else if match &payload.user_name {
        Some(name) => name.as_str().is_empty(),
        None => false,
    } {
        Err(ServerError::with_message("User name cannot be empty."))
    } else if payload.message.as_str().is_empty() {
        Err(ServerError::with_message("Message cannot be empty."))
    } else if payload.channel_id.as_str().is_empty() {
        Err(ServerError::with_message("Channel ID cannot be empty."))
    } else if payload.post_at.as_str().is_empty() {
        Err(ServerError::with_message("Post time cannot be empty."))
    } else {
        Ok(payload)
    }
}

/// Turns a validated incoming record into a stored record under a fresh
/// document id.
pub fn make_record(payload: MessageInfo) -> (r: MessageRecord)
    ensures
        r.id@.len() == 36,
        r.bot_id == payload.bot_id,
        r.user_id == payload.user_id,
        r.user_name == payload.user_name,
        r.generated_by == payload.generated_by,
        r.message == payload.message,
        r.message_type == payload.message_type,
        r.channel_id == payload.channel_id,
        r.post_at == payload.post_at,
{
    MessageRecord {
        id: new_uuid_string(),
        bot_id: payload.bot_id,
        user_id: payload.user_id,
        user_name: payload.user_name,
        generated_by: payload.generated_by,
        message: payload.message,
        message_type: payload.message_type,
        channel_id: payload.channel_id,
        post_at: payload.post_at,
    }
}

/// The instant a record was posted, as read from its timestamp text.
pub open spec fn record_key(r: MessageRecord) -> int {
    rfc3339_ts_of(r.post_at@) as int
}

/// Whether the record at position `a` comes before the one at position `b`
/// in the retrieval order: newer first, and document order between equals.
pub open spec fn recency_before(records: Seq<MessageRecord>, a: int, b: int) -> bool {
    record_key(records[a]) > record_key(records[b]) || (record_key(records[a]) == record_key(
        records[b],
    ) && a < b)
}

/// Whether `order` lists every position of `records` newest first.
pub open spec fn is_recency_order(records: Seq<MessageRecord>, order: Seq<usize>) -> bool {
    &&& order.len() == records.len()
    &&& (forall|i: int| 0 <= i < order.len() ==> (#[trigger] order[i]) < records.len())
    &&& (forall|i: int, j: int|
        0 <= i < j < order.len() ==> recency_before(records, #[trigger] order[i] as int, #[trigger] order[j] as int))
}

/// Lists the positions of `records` newest first, the way the retrieval
/// endpoints walk them. Between records posted at the same instant the
/// document order is kept, so the order is the one a stable sort gives.
pub fn order_by_recency(records: &Vec<MessageRecord>) -> (order: Vec<usize>)
    ensures
        is_recency_order(records@, order@),
{
    let n = records.len();
    let mut pairs: Vec<(i128, usize)> = Vec::new();
    let mut i: usize = 0;
    while i < n
        invariant
            i <= n,
            n == records@.len(),
            pairs@.len() == i,
            forall|k: int|
                0 <= k < i ==> (#[trigger] pairs@[k]).0 == -record_key(records@[k])
                    && pairs@[k].1 == k,
        decreases n - i,
    {
        let ts = crate::timefmt::parse_rfc3339_or_epoch(records[i].post_at.as_str());
        pairs.push((-(ts as i128), i));
        i += 1;
    }
    let ghost initial = pairs@;
    let ghost keys = Seq::new(initial.len(), |k: int| initial[k].0);
    sort_pairs(&mut pairs);
    proof {
        crate::sortpairs::lemma_sorted_pairs_keyed(initial, pairs@, keys);
        assert forall|k: int| 0 <= k < pairs@.len() implies (#[trigger] pairs@[k]).1
            < records@.len() && pairs@[k].0 == -record_key(records@[pairs@[k].1 as int]) by {
            assert(keys[pairs@[k].1 as int] == initial[pairs@[k].1 as int].0);
        }
    }
    let mut order: Vec<usize> = Vec::new();
    let mut j: usize = 0;
    while j < pairs.len()
        invariant
            j <= pairs@.len(),
            pairs@.len() == n,
            n == records@.len(),
            order@.len() == j,
            forall|k: int|
                0 <= k < pairs@.len() ==> (#[trigger] pairs@[k]).1 < n && pairs@[k].0
                    == -record_key(records@[pairs@[k].1 as int]),
            pairs_sorted(pairs@),
            forall|a: int, b: int| 0 <= a < b < pairs@.len() ==> pairs@[a] != pairs@[b],
            forall|k: int| 0 <= k < j ==> #[trigger] order@[k] == pairs@[k].1,
        decreases pairs@.len() - j,
    {
        let idx = pairs[j].1;
        order.push(idx);
        j += 1;
    }
    proof {
        assert forall|a: int, b: int| 0 <= a < b < order@.len() implies recency_before(
            records@,
            order@[a] as int,
            order@[b] as int,
        ) by {
            assert(pair_leq(pairs@[a], pairs@[b]));
            assert(pairs@[a] != pairs@[b]);
        }
    }
    order
}


/// The completion slice of a stored record.
pub open spec fn completion_slice(r: MessageRecord) -> CompletionRecordSimple {
    CompletionRecordSimple {
        message_type: r.message_type,
        message: r.message,
        generated_by: r.generated_by,
    }
}

/// The completion slices taken, newest first, while they fit the budget.
pub open spec fn completion_items(
    records: Seq<MessageRecord>,
    order: Seq<usize>,
    budget: int,
) -> Seq<CompletionRecordSimple>
    decreases order.len(),
{
    if order.len() == 0 {
        Seq::empty()
    } else {
        let rec = records[order[0] as int];
        let cost = rec.message@.len() as int;
        if cost <= budget {
            seq![completion_slice(rec)] + completion_items(records, order.drop_first(), budget - cost)
        } else {
            Seq::empty()
        }
    }
}

/// Walks the records in the given retrieval order and keeps the newest ones
/// whose messages together stay within the context budget; the result lists
/// them oldest first, ready to be replayed.
pub fn completion_context(records: &Vec<MessageRecord>, order: &Vec<usize>) -> (messages: Vec<
    CompletionRecordSimple,
>)
    requires
        forall|i: int| 0 <= i < order@.len() ==> (#[trigger] order@[i]) < records@.len(),
    ensures
        messages@ == completion_items(records@, order@, MAX_CONTEXT_WORD_COUNT as int).reverse(),
{
    let ghost full = completion_items(records@, order@, MAX_CONTEXT_WORD_COUNT as int);
    let mut taken: Vec<CompletionRecordSimple> = Vec::new();
    let mut used: usize = 0;
    let mut stop = false;
    let mut i: usize = 0;
    proof {
        assert(order@.skip(0) =~= order@);
        assert(Seq::<CompletionRecordSimple>::empty() + full =~= full);
    }
    while i < order.len() && !stop
        invariant
            i <= order@.len(),
            used <= MAX_CONTEXT_WORD_COUNT,
            forall|k: int| 0 <= k < order@.len() ==> (#[trigger] order@[k]) < records@.len(),
            !stop ==> taken@ + completion_items(
                records@,
                order@.skip(i as int),
                MAX_CONTEXT_WORD_COUNT - used,
            ) == full,
            stop ==> taken@ == full,
        decreases order@.len() - i, if stop { 0int } else { 1int },
    {
        let idx = order[i];
        let ghost rest = order@.skip(i as int);
        proof {
            assert(rest[0] == order@[i as int]);
            assert(rest.drop_first() =~= order@.skip(i as int + 1));
        }
        let cost = records[idx].message.as_str().unicode_len();
        if cost <= MAX_CONTEXT_WORD_COUNT - used {
            let rec = &records[idx];
            taken.push(
                CompletionRecordSimple {
                    message_type: rec.message_type.clone(),
                    message: rec.message.clone(),
                    generated_by: rec.generated_by.clone(),
                },
            );
            used += cost;
            i += 1;
            proof {
                assert(taken@ + completion_items(
                    records@,
                    order@.skip(i as int),
                    MAX_CONTEXT_WORD_COUNT - used,
                ) =~= full);
            }
        } else {
            stop = true;
            proof {
                assert(completion_items(records@, rest, MAX_CONTEXT_WORD_COUNT - used)
                    =~= Seq::<CompletionRecordSimple>::empty());
                assert(taken@ + Seq::<CompletionRecordSimple>::empty() =~= taken@);
            }
        }
    }
    proof {
        if !stop {
            assert(order@.skip(order@.len() as int) =~= Seq::<usize>::empty());
            assert(taken@ + Seq::<CompletionRecordSimple>::empty() =~= taken@);
        }
    }
    let ghost taken_all = taken@;
    let mut messages: Vec<CompletionRecordSimple> = Vec::new();
    while taken.len() > 0
        invariant
            taken@ == taken_all.subrange(0, taken@.len() as int),
            messages@.len() + taken@.len() == taken_all.len(),
            forall|p: int|
                0 <= p < messages@.len() ==> messages@[p] == taken_all[taken_all.len() - 1 - p],
        decreases taken@.len(),
    {
        let next = taken.pop();
        match next {
            Some(x) => {
                messages.push(x);
            },
            None => {},
        }
    }
    proof {
        assert(messages@ =~= taken_all.reverse());
    }
    messages
}

/// The message slice of a stored record that names its author.
pub open spec fn message_items(
    records: Seq<MessageRecord>,
    order: Seq<usize>,
    budget: int,
) -> Seq<MessageRecordSimple>
    decreases order.len(),
{
    if order.len() == 0 {
        Seq::empty()
    } else {
        let rec = records[order[0] as int];
        let cost = rec.message@.len() as int;
        match rec.user_name {
            Some(name) => if cost <= budget {
                seq![
                    MessageRecordSimple {
                        user_id: rec.user_id,
                        user_name: name,
                        message: rec.message,
                        message_type: rec.message_type,
                    },
                ] + message_items(records, order.drop_first(), budget - cost)
            } else {
                Seq::empty()
            },
            None => Seq::empty(),
        }
    }
}

/// Walks the records in the given retrieval order and keeps the newest ones
/// that carry a user name and together stay within the context budget; the
/// result lists them oldest first.
pub fn message_context(records: &Vec<MessageRecord>, order: &Vec<usize>) -> (messages: Vec<
    MessageRecordSimple,
>)
    requires
        forall|i: int| 0 <= i < order@.len() ==> (#[trigger] order@[i]) < records@.len(),
    ensures
        messages@ == message_items(records@, order@, MAX_CONTEXT_WORD_COUNT as int).reverse(),
{
    let ghost full = message_items(records@, order@, MAX_CONTEXT_WORD_COUNT as int);
    let mut taken: Vec<MessageRecordSimple> = Vec::new();
    let mut used: usize = 0;
    let mut stop = false;
    let mut i: usize = 0;
    proof {
        assert(order@.skip(0) =~= order@);
        assert(Seq::<MessageRecordSimple>::empty() + full =~= full);
    }
    while i < order.len() && !stop
        invariant
            i <= order@.len(),
            used <= MAX_CONTEXT_WORD_COUNT,
            forall|k: int| 0 <= k < order@.len() ==> (#[trigger] order@[k]) < records@.len(),
            !stop ==> taken@ + message_items(
                records@,
                order@.skip(i as int),
                MAX_CONTEXT_WORD_COUNT - used,
            ) == full,
            stop ==> taken@ == full,
        decreases order@.len() - i, if stop { 0int } else { 1int },
    {
        let idx = order[i];
        let ghost rest = order@.skip(i as int);
        proof {
            assert(rest[0] == order@[i as int]);
            assert(rest.drop_first() =~= order@.skip(i as int + 1));
        }
        let cost = records[idx].message.as_str().unicode_len();
        let named = match &records[idx].user_name {
            Some(_) => true,
            None => false,
        };
        if cost <= MAX_CONTEXT_WORD_COUNT - used && named {
            let rec = &records[idx];
            let name = match &rec.user_name {
                Some(n) => n.clone(),
                None => String::new(),
            };
            taken.push(
                MessageRecordSimple {
                    user_id: rec.user_id.clone(),
                    user_name: name,
                    message: rec.message.clone(),
                    message_type: rec.message_type.clone(),
                },
            );
            used += cost;
            i += 1;
            proof {
                assert(taken@ + message_items(
                    records@,
                    order@.skip(i as int),
                    MAX_CONTEXT_WORD_COUNT - used,
                ) =~= full);
            }
        } else {
            stop = true;
            proof {
                assert(message_items(records@, rest, MAX_CONTEXT_WORD_COUNT - used)
                    =~= Seq::<MessageRecordSimple>::empty());
                assert(taken@ + Seq::<MessageRecordSimple>::empty() =~= taken@);
            }
        }
    }
    proof {
        if !stop {
            assert(order@.skip(order@.len() as int) =~= Seq::<usize>::empty());
            assert(taken@ + Seq::<MessageRecordSimple>::empty() =~= taken@);
        }
    }
    let ghost taken_all = taken@;
    let mut messages: Vec<MessageRecordSimple> = Vec::new();
    while taken.len() > 0
        invariant
            taken@ == taken_all.subrange(0, taken@.len() as int),
            messages@.len() + taken@.len() == taken_all.len(),
            forall|p: int|
                0 <= p < messages@.len() ==> messages@[p] == taken_all[taken_all.len() - 1 - p],
        decreases taken@.len(),
    {
        let next = taken.pop();
        match next {
            Some(x) => {
                messages.push(x);
            },
            None => {},
        }
    }
    proof {
        assert(messages@ =~= taken_all.reverse());
    }
    messages
}

/// Answers a completion-context request from the records its query returned.
pub fn build_completion_response(
    bot_id: String,
    user_id: String,
    records: Vec<MessageRecord>,
) -> (resp: GetCompletionResponse)
    ensures
        resp.bot_id == bot_id,
        resp.user_id == user_id,
        exists|order: Seq<usize>|
            is_recency_order(records@, order) && resp.messages@ == completion_items(
                records@,
                order,
                MAX_CONTEXT_WORD_COUNT as int,
            ).reverse(),
{
    let order = order_by_recency(&records);
    let messages = completion_context(&records, &order);
    GetCompletionResponse { bot_id, user_id, messages }
}

/// Answers a message-context request from the records its query returned.
pub fn build_message_response(bot_id: String, records: Vec<MessageRecord>) -> (resp:
    GetMessageResponse)
    ensures
        resp.bot_id == bot_id,
        exists|order: Seq<usize>|
            is_recency_order(records@, order) && resp.messages@ == message_items(
                records@,
                order,
                MAX_CONTEXT_WORD_COUNT as int,
            ).reverse(),
{
    let order = order_by_recency(&records);
    let messages = message_context(&records, &order);
    GetMessageResponse { bot_id, messages }
}

} // verus!
