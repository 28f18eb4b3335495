//! Reconciliation of the conversation table and of the message list of the
//! open thread: merge by thread, ingestion without duplicates, ordering.

use vstd::prelude::*;
use crate::find::{first_where, has_where, lemma_first_absent, lemma_first_found, lemma_first_where};
use crate::order::{
    distinct_by, is_total, is_transitive, lemma_sort_with_distinct, lemma_sort_with_idempotent,
    lemma_sort_with_len, lemma_sort_with_same_items, lemma_sort_with_sorted, sort_vec, sort_with,
};
use crate::sms::models::{Conversation, ConversationView, Message, MessageView};
use crate::cache::Cache;
use crate::phone::{digit_chars, digit_vectors_match, numbers_match};
use crate::text::{same_text, views_of};

verus! {

// ---------------------------------------------------------------------------
// Conversations
// ---------------------------------------------------------------------------

/// The conversations of thread `id`.
pub open spec fn in_thread(id: Seq<char>) -> spec_fn(ConversationView) -> bool {
    |c: ConversationView| c.thread_id == id
}

/// No two conversations share a thread.
pub open spec fn distinct_threads(table: Seq<ConversationView>) -> bool {
    forall|i: int, j: int|
        0 <= i < table.len() && 0 <= j < table.len() && i != j ==> table[i].thread_id
            != table[j].thread_id
}

/// The order of the table: a conversation before every older one.
pub open spec fn recency_order() -> spec_fn(ConversationView, ConversationView) -> bool {
    |a: ConversationView, b: ConversationView| a.timestamp >= b.timestamp
}

/// The order of the table is total and transitive.
pub proof fn lemma_recency_order()
    ensures
        is_total(recency_order()),
        is_transitive(recency_order()),
{
    assert forall|x: ConversationView, y: ConversationView| #[trigger]
        recency_order()(x, y) || #[trigger] recency_order()(y, x) by {}
    assert forall|x: ConversationView, y: ConversationView, z: ConversationView| #[trigger]
        recency_order()(x, y) && #[trigger] recency_order()(y, z) implies recency_order()(
        x,
        z,
    ) by {}
}

/// `table` ordered newest first; conversations of equal time keep their order.
pub open spec fn by_recency(table: Seq<ConversationView>) -> Seq<ConversationView> {
    sort_with(table, recency_order())
}

/// Timestamps never increase from left to right.
pub open spec fn newest_first(table: Seq<ConversationView>) -> bool {
    forall|i: int, j: int| 0 <= i < j < table.len() ==> table[i].timestamp >= table[j].timestamp
}

/// `existing` with the last message, the time and the contact name of
/// `incoming`.
pub open spec fn refreshed(existing: ConversationView, incoming: ConversationView) -> ConversationView {
    ConversationView {
        last_message: incoming.last_message,
        timestamp: incoming.timestamp,
        contact_name: incoming.contact_name,
        ..existing
    }
}

/// One incoming record merged into `table`: a known thread is refreshed in
/// place, a new thread is added at the end.
pub open spec fn merge_one(table: Seq<ConversationView>, incoming: ConversationView) -> Seq<
    ConversationView,
> {
    match first_where(table, in_thread(incoming.thread_id)) {
        Some(i) => table.update(i, refreshed(table[i], incoming)),
        None => table.push(incoming),
    }
}

/// The records of `batch` merged into `table` one after the other.
pub open spec fn merge_all(table: Seq<ConversationView>, batch: Seq<ConversationView>) -> Seq<
    ConversationView,
>
    decreases batch.len(),
{
    if batch.len() == 0 {
        table
    } else {
        merge_one(merge_all(table, batch.drop_last()), batch.last())
    }
}

/// The table after a merge batch: merged, then ordered newest first.
pub open spec fn merged(table: Seq<ConversationView>, batch: Seq<ConversationView>) -> Seq<
    ConversationView,
> {
    by_recency(merge_all(table, batch))
}

/// The position of the conversation of `thread_id`.
pub fn find_conversation(table: &Vec<Conversation>, thread_id: &str) -> (r: Option<usize>)
    ensures
        match r {
            Some(i) => first_where(views_of(table@), in_thread(thread_id@)) == Some(i as int) && i
                < table.len(),
            None => first_where(views_of(table@), in_thread(thread_id@)) is None,
        },
{
    let ghost vs = views_of(table@);
    let ghost p = in_thread(thread_id@);
    let mut i: usize = 0;
    while i < table.len()
        invariant
            i <= table.len(),
            vs == views_of(table@),
            p == in_thread(thread_id@),
            forall|j: int| 0 <= j < i ==> !p(vs[j]),
        decreases table.len() - i,
    {
        if same_text(table[i].thread_id.as_str(), thread_id) {
            proof {
                assert(p(vs[i as int]));
                lemma_first_found(vs, p, i as int);
            }
            return Some(i);
        }
        assert(!p(vs[i as int]));
        i += 1;
    }
    proof {
        lemma_first_absent(vs, p);
    }
    None
}

/// Orders the table newest first, keeping the order of equal timestamps.
pub fn sort_conversations(table: &mut Vec<Conversation>)
    ensures
        views_of(final(table)@) == by_recency(views_of(old(table)@)),
        newest_first(views_of(final(table)@)),
        final(table).len() == old(table).len(),
{
    let newer = |a: &Conversation, b: &Conversation| -> (r: bool)
        ensures
            r == recency_order()(a@, b@),
        { a.timestamp >= b.timestamp };
    sort_vec(table, newer, Ghost(recency_order()));
    proof {
        lemma_recency_order();
        lemma_sort_with_sorted(views_of(old(table)@), recency_order());
    }
}

/// Merges one incoming record into the table.
pub fn merge_conversation(table: &mut Vec<Conversation>, incoming: Conversation)
    ensures
        views_of(final(table)@) == merge_one(views_of(old(table)@), incoming@),
{
    let ghost before = table@;
    match find_conversation(table, incoming.thread_id.as_str()) {
        Some(i) => {
            let existing = &table[i];
            let updated = Conversation {
                thread_id: existing.thread_id.clone(),
                contact_name: incoming.contact_name,
                phone_number: existing.phone_number.clone(),
                last_message: incoming.last_message,
                timestamp: incoming.timestamp,
                unread: existing.unread,
            };
            table.set(i, updated);
            proof {
                assert(views_of(table@) =~= views_of(before).update(
                    i as int,
                    refreshed(views_of(before)[i as int], incoming@),
                ));
            }
        },
        None => {
            table.push(incoming);
            proof {
                assert(views_of(table@) =~= views_of(before).push(incoming@));
            }
        },
    }
}

/// Merges a batch into the table and orders the table newest first: a known
/// thread takes the last message, the time and the contact name of the
/// incoming record, a new thread is added.
pub fn merge_conversations(table: &mut Vec<Conversation>, batch: Vec<Conversation>)
    ensures
        views_of(final(table)@) == merged(views_of(old(table)@), views_of(batch@)),
        newest_first(views_of(final(table)@)),
        distinct_threads(views_of(old(table)@)) ==> distinct_threads(views_of(final(table)@)),
{
    let ghost start = views_of(table@);
    let ghost incoming = views_of(batch@);
    let mut batch = batch;
    let n = batch.len();
    let mut i: usize = 0;
    proof {
        assert(incoming.take(0) =~= Seq::<ConversationView>::empty());
    }
    while i < n
        invariant
            i <= n,
            batch.len() == n,
            incoming.len() == n,
            forall|k: int| i <= k < n ==> (#[trigger] batch@[k])@ == incoming[k],
            views_of(table@) == merge_all(start, incoming.take(i as int)),
        decreases n - i,
    {
        let c = batch[i].clone();
        proof {
            assert(incoming.take(i + 1).drop_last() =~= incoming.take(i as int));
            assert(incoming.take(i + 1).last() == incoming[i as int]);
        }
        merge_conversation(table, c);
        i += 1;
    }
    proof {
        assert(incoming.take(n as int) =~= incoming);
        if distinct_threads(start) {
            lemma_merge_all_distinct(start, incoming);
            lemma_by_recency_distinct(merge_all(start, incoming));
        }
    }
    sort_conversations(table);
}

/// Replaces the table by a freshly loaded list, ordered newest first. Of two
/// loaded records of one thread the first stays, refreshed by the second.
pub fn load_conversations(table: &mut Vec<Conversation>, loaded: Vec<Conversation>)
    ensures
        views_of(final(table)@) == merged(Seq::<ConversationView>::empty(), views_of(loaded@)),
        newest_first(views_of(final(table)@)),
        distinct_threads(views_of(final(table)@)),
{
    table.clear();
    proof {
        assert(views_of(table@) =~= Seq::<ConversationView>::empty());
    }
    merge_conversations(table, loaded);
}

/// A merge into a table without duplicate threads leaves no duplicate.
pub proof fn lemma_merge_one_distinct(table: Seq<ConversationView>, incoming: ConversationView)
    requires
        distinct_threads(table),
    ensures
        distinct_threads(merge_one(table, incoming)),
        merge_one(table, incoming).len() >= table.len(),
        forall|i: int|
            0 <= i < table.len() ==> (#[trigger] merge_one(table, incoming)[i]).thread_id
                == table[i].thread_id,
        has_where(merge_one(table, incoming), in_thread(incoming.thread_id)),
{
    let p = in_thread(incoming.thread_id);
    let r = merge_one(table, incoming);
    lemma_first_where(table, p);
    match first_where(table, p) {
        Some(i) => {
            assert(p(r[i]));
        },
        None => {
            assert forall|i: int, j: int|
                0 <= i < r.len() && 0 <= j < r.len() && i != j implies r[i].thread_id
                != r[j].thread_id by {
                if i == table.len() {
                    assert(!p(table[j]));
                } else if j == table.len() {
                    assert(!p(table[i]));
                }
            }
            assert(p(r[table.len() as int]));
        },
    }
}

/// A batch merged into a table without duplicate threads leaves no duplicate.
pub proof fn lemma_merge_all_distinct(table: Seq<ConversationView>, batch: Seq<ConversationView>)
    requires
        distinct_threads(table),
    ensures
        distinct_threads(merge_all(table, batch)),
    decreases batch.len(),
{
    if batch.len() > 0 {
        lemma_merge_all_distinct(table, batch.drop_last());
        lemma_merge_one_distinct(merge_all(table, batch.drop_last()), batch.last());
    }
}


/// Ordering a table without duplicate threads leaves no duplicate.
pub proof fn lemma_by_recency_distinct(table: Seq<ConversationView>)
    requires
        distinct_threads(table),
    ensures
        distinct_threads(by_recency(table)),
{
    let thread = |c: ConversationView| c.thread_id;
    assert(distinct_by(table, thread));
    lemma_sort_with_distinct(table, recency_order(), thread);
    let sorted = by_recency(table);
    assert forall|i: int, j: int|
        0 <= i < sorted.len() && 0 <= j < sorted.len() && i != j implies sorted[i].thread_id
        != sorted[j].thread_id by {
        assert(thread(sorted[i]) != thread(sorted[j]));
    }
}



/// `existing` after one incoming record: refreshed if the record is of its
/// thread, untouched otherwise.
pub open spec fn refreshed_if_same(existing: ConversationView, incoming: ConversationView) -> ConversationView {
    if existing.thread_id == incoming.thread_id {
        refreshed(existing, incoming)
    } else {
        existing
    }
}

/// `existing` after every record of `batch`, in order.
pub open spec fn refreshed_by_all(existing: ConversationView, batch: Seq<ConversationView>) -> ConversationView
    decreases batch.len(),
{
    if batch.len() == 0 {
        existing
    } else {
        refreshed_if_same(refreshed_by_all(existing, batch.drop_last()), batch.last())
    }
}

/// Every thread of `batch` has a conversation in `table`.
pub open spec fn covers(table: Seq<ConversationView>, batch: Seq<ConversationView>) -> bool {
    forall|k: int| 0 <= k < batch.len() ==> has_where(table, in_thread(#[trigger] batch[k].thread_id))
}

proof fn lemma_refreshed_keeps(existing: ConversationView, batch: Seq<ConversationView>)
    ensures
        refreshed_by_all(existing, batch).thread_id == existing.thread_id,
        refreshed_by_all(existing, batch).phone_number == existing.phone_number,
        refreshed_by_all(existing, batch).unread == existing.unread,
    decreases batch.len(),
{
    if batch.len() > 0 {
        lemma_refreshed_keeps(existing, batch.drop_last());
    }
}

/// Merging a record of a known thread into a table without duplicate
/// threads changes the conversation of that thread and no other.
proof fn lemma_merge_one_pointwise(table: Seq<ConversationView>, incoming: ConversationView)
    requires
        distinct_threads(table),
        has_where(table, in_thread(incoming.thread_id)),
    ensures
        merge_one(table, incoming).len() == table.len(),
        forall|i: int|
            0 <= i < table.len() ==> #[trigger] merge_one(table, incoming)[i] == refreshed_if_same(
                table[i],
                incoming,
            ),
{
    let p = in_thread(incoming.thread_id);
    lemma_first_where(table, p);
    let at = first_where(table, p)->0;
    assert forall|i: int| 0 <= i < table.len() implies #[trigger] merge_one(table, incoming)[i]
        == refreshed_if_same(table[i], incoming) by {
        if i != at {
            assert(table[i].thread_id != table[at].thread_id);
        }
    }
}

/// Merging a batch whose threads are all known changes each conversation by
/// the records of its own thread and adds none.
proof fn lemma_merge_all_pointwise(table: Seq<ConversationView>, batch: Seq<ConversationView>)
    requires
        distinct_threads(table),
        covers(table, batch),
    ensures
        merge_all(table, batch).len() == table.len(),
        forall|i: int|
            0 <= i < table.len() ==> #[trigger] merge_all(table, batch)[i] == refreshed_by_all(
                table[i],
                batch,
            ),
    decreases batch.len(),
{
    if batch.len() > 0 {
        let front = batch.drop_last();
        let c = batch.last();
        assert(covers(table, front)) by {
            assert forall|k: int| 0 <= k < front.len() implies has_where(
                table,
                in_thread(#[trigger] front[k].thread_id),
            ) by {
                assert(front[k] == batch[k]);
            }
        }
        lemma_merge_all_pointwise(table, front);
        let m = merge_all(table, front);
        assert(distinct_threads(m)) by {
            assert forall|i: int, j: int|
                0 <= i < m.len() && 0 <= j < m.len() && i != j implies m[i].thread_id
                != m[j].thread_id by {
                lemma_refreshed_keeps(table[i], front);
                lemma_refreshed_keeps(table[j], front);
            }
        }
        assert(has_where(m, in_thread(c.thread_id))) by {
            assert(batch[batch.len() - 1] == c);
            let w = choose|w: int| 0 <= w < table.len() && in_thread(c.thread_id)(table[w]);
            lemma_refreshed_keeps(table[w], front);
            assert(in_thread(c.thread_id)(m[w]));
        }
        lemma_merge_one_pointwise(m, c);
    }
}

/// After a merge, merging the same batch again would change no conversation,
/// and every thread of the batch is in the table.
proof fn lemma_merge_all_settled(table: Seq<ConversationView>, batch: Seq<ConversationView>)
    requires
        distinct_threads(table),
    ensures
        distinct_threads(merge_all(table, batch)),
        covers(merge_all(table, batch), batch),
        forall|i: int|
            0 <= i < merge_all(table, batch).len() ==> refreshed_by_all(
                #[trigger] merge_all(table, batch)[i],
                batch,
            ) == merge_all(table, batch)[i],
    decreases batch.len(),
{
    lemma_merge_all_distinct(table, batch);
    if batch.len() > 0 {
        let front = batch.drop_last();
        let c = batch.last();
        let before = merge_all(table, front);
        let after = merge_all(table, batch);
        lemma_merge_all_settled(table, front);
        lemma_merge_one_distinct(before, c);
        lemma_first_where(before, in_thread(c.thread_id));
        assert forall|k: int| 0 <= k < batch.len() implies has_where(
            after,
            in_thread(#[trigger] batch[k].thread_id),
        ) by {
            if k < front.len() {
                assert(front[k] == batch[k]);
                let w = choose|w: int|
                    0 <= w < before.len() && in_thread(front[k].thread_id)(before[w]);
                assert(in_thread(batch[k].thread_id)(after[w]));
            }
        }
        assert forall|i: int| 0 <= i < after.len() implies refreshed_by_all(
            #[trigger] after[i],
            batch,
        ) == after[i] by {
            let e = after[i];
            lemma_refreshed_keeps(e, front);
            if e.thread_id == c.thread_id {
                match first_where(before, in_thread(c.thread_id)) {
                    Some(at) => {
                        if i != at {
                            assert(after[at].thread_id == c.thread_id);
                        }
                    },
                    None => {
                        if i < before.len() {
                            assert(!in_thread(c.thread_id)(before[i]));
                        }
                    },
                }
            } else {
                assert(i < before.len() && after[i] == before[i]);
            }
        }
    }
}

/// Conversation merge is idempotent: merging a batch that was just merged
/// leaves the table as it is.
pub proof fn lemma_merge_idempotent(table: Seq<ConversationView>, batch: Seq<ConversationView>)
    requires
        distinct_threads(table),
    ensures
        merged(merged(table, batch), batch) == merged(table, batch),
{
    let le = recency_order();
    let m = merge_all(table, batch);
    let u = by_recency(m);
    lemma_merge_all_settled(table, batch);
    lemma_by_recency_distinct(m);
    lemma_sort_with_same_items(m, le);
    lemma_sort_with_len(m, le);
    assert(covers(u, batch)) by {
        assert forall|k: int| 0 <= k < batch.len() implies has_where(
            u,
            in_thread(#[trigger] batch[k].thread_id),
        ) by {
            let w = choose|w: int| 0 <= w < m.len() && in_thread(batch[k].thread_id)(m[w]);
            assert(m.contains(m[w]));
            assert(u.contains(m[w]));
            let v = choose|v: int| 0 <= v < u.len() && u[v] == m[w];
            assert(in_thread(batch[k].thread_id)(u[v]));
        }
    }
    lemma_merge_all_pointwise(u, batch);
    assert(merge_all(u, batch) =~= u) by {
        assert forall|i: int| 0 <= i < u.len() implies merge_all(u, batch)[i] == u[i] by {
            assert(u.contains(u[i]));
            assert(m.contains(u[i]));
            let j = choose|j: int| 0 <= j < m.len() && m[j] == u[i];
            assert(refreshed_by_all(m[j], batch) == m[j]);
        }
    }
    lemma_recency_order();
    lemma_sort_with_idempotent(m, le);
}

/// The table after a message came in: the conversation of the message's
/// thread, if the table has one, shows the message's body and time, and the
/// table is ordered newest first.
pub open spec fn noted(table: Seq<ConversationView>, message: MessageView) -> Seq<ConversationView> {
    by_recency(
        match first_where(table, in_thread(message.thread_id)) {
            Some(i) => table.update(
                i,
                ConversationView { last_message: message.body, timestamp: message.date, ..table[i] },
            ),
            None => table,
        },
    )
}

/// Records an incoming message on the conversation of its thread.
pub fn note_message(table: &mut Vec<Conversation>, message: &Message)
    ensures
        views_of(final(table)@) == noted(views_of(old(table)@), message@),
        newest_first(views_of(final(table)@)),
        final(table).len() == old(table).len(),
        distinct_threads(views_of(old(table)@)) ==> distinct_threads(views_of(final(table)@)),
{
    let ghost before = views_of(table@);
    match find_conversation(table, message.thread_id.as_str()) {
        Some(i) => {
            let existing = &table[i];
            let updated = Conversation {
                thread_id: existing.thread_id.clone(),
                contact_name: existing.contact_name.clone(),
                phone_number: existing.phone_number.clone(),
                last_message: message.body.clone(),
                timestamp: message.date,
                unread: existing.unread,
            };
            table.set(i, updated);
            proof {
                let shown = ConversationView {
                    last_message: message@.body,
                    timestamp: message@.date,
                    ..before[i as int]
                };
                assert(views_of(table@) =~= before.update(i as int, shown));
                if distinct_threads(before) {
                    assert(distinct_threads(before.update(i as int, shown)));
                }
            }
        },
        None => {},
    }
    proof {
        if distinct_threads(before) {
            lemma_by_recency_distinct(views_of(table@));
        }
    }
    sort_conversations(table);
}

// ---------------------------------------------------------------------------
// Messages of the open thread
// ---------------------------------------------------------------------------

/// The messages with identifier `id`.
pub open spec fn with_id(id: Seq<char>) -> spec_fn(MessageView) -> bool {
    |m: MessageView| m.id == id
}

/// No two messages share an identifier.
pub open spec fn distinct_ids(list: Seq<MessageView>) -> bool {
    forall|i: int, j: int|
        0 <= i < list.len() && 0 <= j < list.len() && i != j ==> list[i].id != list[j].id
}

/// The order of the list: a message before every newer one.
pub open spec fn date_order() -> spec_fn(MessageView, MessageView) -> bool {
    |a: MessageView, b: MessageView| a.date <= b.date
}

/// The order of the list is total and transitive.
pub proof fn lemma_date_order()
    ensures
        is_total(date_order()),
        is_transitive(date_order()),
{
    assert forall|x: MessageView, y: MessageView| #[trigger]
        date_order()(x, y) || #[trigger] date_order()(y, x) by {}
    assert forall|x: MessageView, y: MessageView, z: MessageView| #[trigger]
        date_order()(x, y) && #[trigger] date_order()(y, z) implies date_order()(x, z) by {}
}

/// `list` ordered oldest first; messages of equal date keep their order.
pub open spec fn by_date(list: Seq<MessageView>) -> Seq<MessageView> {
    sort_with(list, date_order())
}

/// Dates never decrease from left to right.
pub open spec fn oldest_first(list: Seq<MessageView>) -> bool {
    forall|i: int, j: int| 0 <= i < j < list.len() ==> list[i].date <= list[j].date
}

/// The list after `message` came in: unchanged where a message of that
/// identifier is there already, else with the message added and the list
/// ordered oldest first.
pub open spec fn ingested(list: Seq<MessageView>, message: MessageView) -> Seq<MessageView> {
    if has_where(list, with_id(message.id)) {
        list
    } else {
        by_date(list.push(message))
    }
}

/// Whether the list holds a message with identifier `id`.
pub fn has_message(list: &Vec<Message>, id: &str) -> (r: bool)
    ensures
        r == has_where(views_of(list@), with_id(id@)),
{
    let ghost vs = views_of(list@);
    let ghost p = with_id(id@);
    let mut i: usize = 0;
    while i < list.len()
        invariant
            i <= list.len(),
            vs == views_of(list@),
            p == with_id(id@),
            forall|j: int| 0 <= j < i ==> !p(vs[j]),
        decreases list.len() - i,
    {
        if same_text(list[i].id.as_str(), id) {
            assert(p(vs[i as int]));
            return true;
        }
        assert(!p(vs[i as int]));
        i += 1;
    }
    false
}

/// Orders the list oldest first, keeping the order of equal dates.
pub fn sort_messages(list: &mut Vec<Message>)
    ensures
        views_of(final(list)@) == by_date(views_of(old(list)@)),
        oldest_first(views_of(final(list)@)),
        final(list).len() == old(list).len(),
{
    let older = |a: &Message, b: &Message| -> (r: bool)
        ensures
            r == date_order()(a@, b@),
        { a.date <= b.date };
    sort_vec(list, older, Ghost(date_order()));
    proof {
        lemma_date_order();
        lemma_sort_with_sorted(views_of(old(list)@), date_order());
    }
}

/// Takes a message into the list of the open thread unless a message of the
/// same identifier is there already; says whether it was taken.
pub fn ingest_message(list: &mut Vec<Message>, message: Message) -> (accepted: bool)
    ensures
        accepted == !has_where(views_of(old(list)@), with_id(message@.id)),
        views_of(final(list)@) == ingested(views_of(old(list)@), message@),
        accepted ==> final(list).len() == old(list).len() + 1 && oldest_first(views_of(final(list)@)),
        distinct_ids(views_of(old(list)@)) ==> distinct_ids(views_of(final(list)@)),
{
    let ghost before = views_of(list@);
    if has_message(list, message.id.as_str()) {
        return false;
    }
    list.push(message);
    proof {
        assert(views_of(list@) =~= before.push(message@));
        if distinct_ids(before) {
            lemma_ingested_distinct(before, message@);
        }
    }
    sort_messages(list);
    true
}

/// Ingestion into a list without duplicate identifiers leaves no duplicate.
pub proof fn lemma_ingested_distinct(list: Seq<MessageView>, message: MessageView)
    requires
        distinct_ids(list),
    ensures
        distinct_ids(ingested(list, message)),
{
    if !has_where(list, with_id(message.id)) {
        let pushed = list.push(message);
        assert(distinct_ids(pushed)) by {
            assert forall|i: int, j: int|
                0 <= i < pushed.len() && 0 <= j < pushed.len() && i != j implies pushed[i].id
                != pushed[j].id by {
                if i == list.len() {
                    assert(!with_id(message.id)(list[j]));
                } else if j == list.len() {
                    assert(!with_id(message.id)(list[i]));
                }
            }
        }
        let id = |m: MessageView| m.id;
        assert(distinct_by(pushed, id));
        lemma_sort_with_distinct(pushed, date_order(), id);
        let sorted = by_date(pushed);
        assert forall|i: int, j: int|
            0 <= i < sorted.len() && 0 <= j < sorted.len() && i != j implies sorted[i].id
            != sorted[j].id by {
            assert(id(sorted[i]) != id(sorted[j]));
        }
    }
}


/// Message ingestion is by identifier: of two messages with one identifier
/// that come in one after the other, the first is kept and the second changes
/// nothing, whatever its body.
pub proof fn lemma_second_message_discarded(
    list: Seq<MessageView>,
    first: MessageView,
    second: MessageView,
)
    requires
        first.id == second.id,
    ensures
        ingested(ingested(list, first), second) == ingested(list, first),
        has_where(ingested(list, first), with_id(first.id)),
{
    let p = with_id(first.id);
    assert(with_id(second.id) == p);
    if !has_where(list, p) {
        let pushed = list.push(first);
        lemma_sort_with_same_items(pushed, date_order());
        assert(pushed[list.len() as int] == first);
        assert(pushed.contains(first));
        let r = by_date(pushed);
        assert(r.contains(first));
        let k = choose|k: int| 0 <= k < r.len() && r[k] == first;
        assert(p(r[k]));
    }
}

// ---------------------------------------------------------------------------
// Contacts
// ---------------------------------------------------------------------------

/// The contact numbers that match `phone`.
pub open spec fn matching(phone: Seq<char>) -> spec_fn(Seq<char>) -> bool {
    |k: Seq<char>| numbers_match(phone, k)
}

/// The name of the first contact whose number matches `phone`.
pub open spec fn contact_name_for(
    numbers: Seq<Seq<char>>,
    names: Seq<Seq<char>>,
    phone: Seq<char>,
) -> Option<Seq<char>> {
    match first_where(numbers, matching(phone)) {
        Some(i) => Some(names[i]),
        None => None,
    }
}

/// `c` under the name of the first contact that matches its number, if any.
pub open spec fn named(c: ConversationView, numbers: Seq<Seq<char>>, names: Seq<Seq<char>>) -> ConversationView {
    match contact_name_for(numbers, names, c.phone_number) {
        Some(name) => ConversationView { contact_name: name, ..c },
        None => c,
    }
}

/// Every conversation of `table` under the name its number resolves to.
pub open spec fn backfilled(
    table: Seq<ConversationView>,
    numbers: Seq<Seq<char>>,
    names: Seq<Seq<char>>,
) -> Seq<ConversationView> {
    table.map_values(|c: ConversationView| named(c, numbers, names))
}

/// The conversations whose number matches `phone`.
pub open spec fn with_number(phone: Seq<char>) -> spec_fn(ConversationView) -> bool {
    |c: ConversationView| numbers_match(c.phone_number, phone)
}

/// The position of the first contact whose number matches `phone`.
pub fn find_contact(contacts: &Cache<String>, phone: &str) -> (r: Option<usize>)
    requires
        contacts.wf(),
    ensures
        match r {
            Some(i) => first_where(contacts.keys(), matching(phone@)) == Some(i as int) && i
                < contacts.keys().len(),
            None => first_where(contacts.keys(), matching(phone@)) is None,
        },
{
    let digits = digit_chars(phone);
    let ghost p = matching(phone@);
    let n = contacts.len();
    let mut i: usize = 0;
    while i < n
        invariant
            i <= n,
            n == contacts.keys().len(),
            p == matching(phone@),
            digits@ == crate::phone::digits_of(phone@),
            forall|j: int| 0 <= j < i ==> !p(contacts.keys()[j]),
        decreases n - i,
    {
        let candidate = digit_chars(contacts.key_at(i));
        if digit_vectors_match(&digits, &candidate) {
            proof {
                assert(p(contacts.keys()[i as int]));
                lemma_first_found(contacts.keys(), p, i as int);
            }
            return Some(i);
        }
        assert(!p(contacts.keys()[i as int]));
        i += 1;
    }
    proof {
        lemma_first_absent(contacts.keys(), p);
    }
    None
}

/// The display name for `phone_number`: that of the first contact whose
/// number matches it.
pub fn resolve_contact(contacts: &Cache<String>, phone_number: &str) -> (r: Option<String>)
    requires
        contacts.wf(),
    ensures
        match r {
            Some(name) => contact_name_for(contacts.keys(), contacts.values(), phone_number@)
                == Some(name@),
            None => contact_name_for(contacts.keys(), contacts.values(), phone_number@) is None,
        },
{
    match find_contact(contacts, phone_number) {
        Some(i) => Some(contacts.value_at(i).clone()),
        None => None,
    }
}

/// Re-evaluates the contact name of every conversation against `contacts`:
/// a conversation whose number matches a contact takes that contact's name.
pub fn apply_contacts(table: &mut Vec<Conversation>, contacts: &Cache<String>)
    requires
        contacts.wf(),
    ensures
        views_of(final(table)@) == backfilled(
            views_of(old(table)@),
            contacts.keys(),
            contacts.values(),
        ),
        final(table).len() == old(table).len(),
        distinct_threads(views_of(old(table)@)) ==> distinct_threads(views_of(final(table)@)),
{
    let ghost orig = views_of(table@);
    let ghost numbers = contacts.keys();
    let ghost names = contacts.values();
    let n = table.len();
    let mut i: usize = 0;
    while i < n
        invariant
            i <= n,
            table.len() == n,
            orig.len() == n,
            contacts.wf(),
            numbers == contacts.keys(),
            names == contacts.values(),
            forall|k: int| 0 <= k < i ==> (#[trigger] views_of(table@)[k]) == named(orig[k], numbers, names),
            forall|k: int| i <= k < n ==> (#[trigger] views_of(table@)[k]) == orig[k],
        decreases n - i,
    {
        let ghost before = views_of(table@);
        let found = resolve_contact(contacts, table[i].phone_number.as_str());
        proof {
            assert(before[i as int] == orig[i as int]);
        }
        match found {
            Some(name) => {
                let existing = &table[i];
                let updated = Conversation {
                    thread_id: existing.thread_id.clone(),
                    contact_name: name,
                    phone_number: existing.phone_number.clone(),
                    last_message: existing.last_message.clone(),
                    timestamp: existing.timestamp,
                    unread: existing.unread,
                };
                table.set(i, updated);
                proof {
                    assert(views_of(table@) =~= before.update(
                        i as int,
                        named(orig[i as int], numbers, names),
                    ));
                }
            },
            None => {},
        }
        i += 1;
    }
    proof {
        assert(views_of(table@) =~= backfilled(orig, numbers, names));
    }
}

/// The position of the first conversation whose number matches `phone`.
pub fn find_by_number(table: &Vec<Conversation>, phone: &str) -> (r: Option<usize>)
    ensures
        match r {
            Some(i) => first_where(views_of(table@), with_number(phone@)) == Some(i as int) && i
                < table.len(),
            None => first_where(views_of(table@), with_number(phone@)) is None,
        },
{
    let wanted = digit_chars(phone);
    let ghost vs = views_of(table@);
    let ghost p = with_number(phone@);
    let mut i: usize = 0;
    while i < table.len()
        invariant
            i <= table.len(),
            vs == views_of(table@),
            p == with_number(phone@),
            wanted@ == crate::phone::digits_of(phone@),
            forall|j: int| 0 <= j < i ==> !p(vs[j]),
        decreases table.len() - i,
    {
        let candidate = digit_chars(table[i].phone_number.as_str());
        if digit_vectors_match(&candidate, &wanted) {
            proof {
                assert(p(vs[i as int]));
                lemma_first_found(vs, p, i as int);
            }
            return Some(i);
        }
        assert(!p(vs[i as int]));
        i += 1;
    }
    proof {
        lemma_first_absent(vs, p);
    }
    None
}

} // verus!
