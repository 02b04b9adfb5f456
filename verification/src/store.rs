//! A model of the Redis data the queue keeps (hashes, lists, sorted sets, sets and
//! counters) and of what each write does to it, with the laws that the library's writes
//! keep: what a read gives back after enqueueing, delaying, promoting, finishing,
//! retrying and unscheduling jobs.

use crate::cron::scheduler::registration_hash;
use crate::keys::{
    cron_job_key_text, job_key_text, logs_key_text, queue_key_text, CRON_SCHEDULE_KEY,
    DEFAULT_QUEUE_KEY, DELAYED_JOBS_KEY, FAILED_COUNTER_KEY, FAILED_JOBS_KEY,
    SUCCESS_COUNTER_KEY,
};
use crate::ops::OpView;
use crate::queue::{enqueue_delayed_ops, enqueue_ops};
use crate::runner::{outcome_ops, promote_ops};
use crate::text::decimal_int;
use vstd::prelude::*;

verus! {

/// The Redis data, one map per kind of value.
pub struct Store {
    pub hashes: Map<Seq<char>, Map<Seq<char>, Seq<char>>>,
    pub lists: Map<Seq<char>, Seq<Seq<char>>>,
    pub sorted: Map<Seq<char>, Map<Seq<char>, i64>>,
    pub sets: Map<Seq<char>, Set<Seq<char>>>,
    pub counters: Map<Seq<char>, int>,
}

/// The hash under `key`; empty where there is none.
pub open spec fn hash_of(s: Store, key: Seq<char>) -> Map<Seq<char>, Seq<char>> {
    if s.hashes.contains_key(key) {
        s.hashes[key]
    } else {
        Map::empty()
    }
}

/// The list under `key`; empty where there is none.
pub open spec fn list_of(s: Store, key: Seq<char>) -> Seq<Seq<char>> {
    if s.lists.contains_key(key) {
        s.lists[key]
    } else {
        Seq::empty()
    }
}

/// The sorted set under `key`, as its members' scores; empty where there is none.
pub open spec fn sorted_of(s: Store, key: Seq<char>) -> Map<Seq<char>, i64> {
    if s.sorted.contains_key(key) {
        s.sorted[key]
    } else {
        Map::empty()
    }
}

/// The set under `key`; empty where there is none.
pub open spec fn set_of(s: Store, key: Seq<char>) -> Set<Seq<char>> {
    if s.sets.contains_key(key) {
        s.sets[key]
    } else {
        Set::empty()
    }
}

/// The counter under `key`; zero where there is none.
pub open spec fn counter_of(s: Store, key: Seq<char>) -> int {
    if s.counters.contains_key(key) {
        s.counters[key]
    } else {
        0
    }
}

/// A hash after `HSET` of the pairs, in order.
pub open spec fn hash_write(h: Map<Seq<char>, Seq<char>>, fields: Seq<(Seq<char>, Seq<char>)>) -> Map<
    Seq<char>,
    Seq<char>,
>
    decreases fields.len(),
{
    if fields.len() == 0 {
        h
    } else {
        hash_write(h, fields.drop_last()).insert(fields.last().0, fields.last().1)
    }
}

/// A hash after `HDEL` of the names.
pub open spec fn hash_remove(h: Map<Seq<char>, Seq<char>>, names: Seq<Seq<char>>) -> Map<
    Seq<char>,
    Seq<char>,
>
    decreases names.len(),
{
    if names.len() == 0 {
        h
    } else {
        hash_remove(h, names.drop_last()).remove(names.last())
    }
}

/// A list after `LTRIM start stop` with indices that are not negative.
pub open spec fn trimmed(l: Seq<Seq<char>>, start: int, stop: int) -> Seq<Seq<char>> {
    if 0 <= start <= stop {
        let a = if start < l.len() { start } else { l.len() as int };
        let b = if stop + 1 < l.len() { stop + 1 } else { l.len() as int };
        l.subrange(a, b)
    } else {
        Seq::empty()
    }
}

/// The data after one write.
pub open spec fn apply(s: Store, op: OpView) -> Store {
    match op {
        OpView::HashSet { key, fields } => Store {
            hashes: s.hashes.insert(key, hash_write(hash_of(s, key), fields)),
            ..s
        },
        OpView::HashDelete { key, names } => Store {
            hashes: s.hashes.insert(key, hash_remove(hash_of(s, key), names)),
            ..s
        },
        OpView::PushBack { key, value } => Store {
            lists: s.lists.insert(key, list_of(s, key).push(value)),
            ..s
        },
        OpView::PushFront { key, value } => Store {
            lists: s.lists.insert(key, seq![value] + list_of(s, key)),
            ..s
        },
        OpView::Trim { key, start, stop } => Store {
            lists: s.lists.insert(key, trimmed(list_of(s, key), start as int, stop as int)),
            ..s
        },
        OpView::SortedAdd { key, member, score } => Store {
            sorted: s.sorted.insert(key, sorted_of(s, key).insert(member, score)),
            ..s
        },
        OpView::SortedRemove { key, member } => Store {
            sorted: s.sorted.insert(key, sorted_of(s, key).remove(member)),
            ..s
        },
        OpView::SetAdd { key, member } => Store {
            sets: s.sets.insert(key, set_of(s, key).insert(member)),
            ..s
        },
        OpView::Delete { key } => Store {
            hashes: s.hashes.remove(key),
            lists: s.lists.remove(key),
            sorted: s.sorted.remove(key),
            sets: s.sets.remove(key),
            counters: s.counters.remove(key),
        },
        OpView::Increment { key, by } => Store {
            counters: s.counters.insert(key, counter_of(s, key) + by),
            ..s
        },
    }
}

/// The data after the writes, in order.
pub open spec fn apply_all(s: Store, ops: Seq<OpView>) -> Store
    decreases ops.len(),
{
    if ops.len() == 0 {
        s
    } else {
        apply(apply_all(s, ops.drop_last()), ops.last())
    }
}

/// Applying two runs of writes one after the other is applying their concatenation.
proof fn lemma_apply_all_concat(s: Store, a: Seq<OpView>, b: Seq<OpView>)
    ensures
        apply_all(s, a + b) == apply_all(apply_all(s, a), b),
    decreases b.len(),
{
    if b.len() == 0 {
        assert(a + b =~= a);
    } else {
        lemma_apply_all_concat(s, a, b.drop_last());
        assert((a + b).drop_last() =~= a + b.drop_last());
    }
}

/// The writes of a run are applied one at a time.
proof fn lemma_apply_prefix(s: Store, ops: Seq<OpView>, k: int)
    requires
        0 <= k < ops.len(),
    ensures
        apply_all(s, ops.take(k + 1)) == apply(apply_all(s, ops.take(k)), ops[k]),
{
    assert(ops.take(k + 1).drop_last() =~= ops.take(k));
}

/// Applying two writes.
proof fn lemma_apply_two(s: Store, ops: Seq<OpView>)
    requires
        ops.len() == 2,
    ensures
        apply_all(s, ops) == apply(apply(s, ops[0]), ops[1]),
{
    lemma_apply_prefix(s, ops, 0);
    lemma_apply_prefix(s, ops, 1);
    assert(ops.take(0) =~= Seq::<OpView>::empty());
    assert(ops.take(2) =~= ops);
}

/// Applying three writes.
proof fn lemma_apply_three(s: Store, ops: Seq<OpView>)
    requires
        ops.len() == 3,
    ensures
        apply_all(s, ops) == apply(apply(apply(s, ops[0]), ops[1]), ops[2]),
{
    lemma_apply_prefix(s, ops, 0);
    lemma_apply_prefix(s, ops, 1);
    lemma_apply_prefix(s, ops, 2);
    assert(ops.take(0) =~= Seq::<OpView>::empty());
    assert(ops.take(3) =~= ops);
}

/// A field written by `HSET` reads back as the last value written to it.
proof fn lemma_hash_write_reads(h: Map<Seq<char>, Seq<char>>, f: Seq<(Seq<char>, Seq<char>)>, i: int)
    requires
        0 <= i < f.len(),
        forall|j: int| i < j < f.len() ==> f[j].0 != f[i].0,
    ensures
        hash_write(h, f).contains_key(f[i].0),
        hash_write(h, f)[f[i].0] == f[i].1,
    decreases f.len(),
{
    if i < f.len() - 1 {
        let g = f.drop_last();
        assert forall|j: int| i < j < g.len() implies g[j].0 != g[i].0 by {
            assert(g[j] == f[j]);
        }
        lemma_hash_write_reads(h, g, i);
        assert(f.last() == f[f.len() - 1]);
    }
}

/// `HSET` writes its pairs one at a time.
proof fn lemma_hash_write_prefix(h: Map<Seq<char>, Seq<char>>, f: Seq<(Seq<char>, Seq<char>)>, k: int)
    requires
        0 <= k < f.len(),
    ensures
        hash_write(h, f.take(k + 1)) == hash_write(h, f.take(k)).insert(f[k].0, f[k].1),
{
    assert(f.take(k + 1).drop_last() =~= f.take(k));
}

/// `HSET` of the pairs is the insertion of each in turn.
proof fn lemma_hash_write_inserts(h: Map<Seq<char>, Seq<char>>, f: Seq<(Seq<char>, Seq<char>)>, n: int)
    requires
        0 <= n <= f.len(),
    ensures
        hash_write(h, f.take(n)) == inserts(h, f, n),
    decreases n,
{
    if n == 0 {
        assert(f.take(0) =~= Seq::<(Seq<char>, Seq<char>)>::empty());
    } else {
        lemma_hash_write_inserts(h, f, n - 1);
        lemma_hash_write_prefix(h, f, n - 1);
    }
}

/// The first `n` pairs inserted in turn.
pub open spec fn inserts(h: Map<Seq<char>, Seq<char>>, f: Seq<(Seq<char>, Seq<char>)>, n: int) -> Map<
    Seq<char>,
    Seq<char>,
>
    decreases n,
{
    if n <= 0 {
        h
    } else {
        inserts(h, f, n - 1).insert(f[n - 1].0, f[n - 1].1)
    }
}

/// `HSET` of all the pairs is the insertion of each in turn.
proof fn lemma_hash_write_all(h: Map<Seq<char>, Seq<char>>, f: Seq<(Seq<char>, Seq<char>)>)
    ensures
        hash_write(h, f) == inserts(h, f, f.len() as int),
{
    lemma_hash_write_inserts(h, f, f.len() as int);
    assert(f.take(f.len() as int) =~= f);
}

/// A field that `HSET` does not write keeps its value.
proof fn lemma_hash_write_keeps(h: Map<Seq<char>, Seq<char>>, f: Seq<(Seq<char>, Seq<char>)>, k: Seq<char>)
    requires
        forall|j: int| 0 <= j < f.len() ==> f[j].0 != k,
    ensures
        hash_write(h, f).contains_key(k) == h.contains_key(k),
        hash_write(h, f)[k] == h[k],
    decreases f.len(),
{
    if f.len() > 0 {
        let g = f.drop_last();
        assert forall|j: int| 0 <= j < g.len() implies g[j].0 != k by {
            assert(g[j] == f[j]);
        }
        lemma_hash_write_keeps(h, g, k);
        assert(f.last() == f[f.len() - 1]);
    }
}

/// `HDEL` removes each named field and keeps the others.
proof fn lemma_hash_remove(h: Map<Seq<char>, Seq<char>>, names: Seq<Seq<char>>, k: Seq<char>)
    ensures
        names.contains(k) ==> !hash_remove(h, names).contains_key(k),
        !names.contains(k) ==> hash_remove(h, names).contains_key(k) == h.contains_key(k)
            && hash_remove(h, names)[k] == h[k],
    decreases names.len(),
{
    if names.len() > 0 {
        let g = names.drop_last();
        lemma_hash_remove(h, g, k);
        if names.contains(k) && names.last() != k {
            let j = choose|j: int| 0 <= j < names.len() && names[j] == k;
            assert(g[j] == k);
        }
        if !names.contains(k) {
            assert forall|j: int| 0 <= j < g.len() implies g[j] != k by {
                assert(g[j] == names[j]);
            }
            assert(names[names.len() - 1] == names.last());
        }
    }
}

/// The field names of the hashes differ from one another.
proof fn lemma_field_names_distinct()
    ensures
        "queue"@ != "status"@,
        "queue"@ != "payload"@,
        "queue"@ != "created_at"@,
        "queue"@ != "run_at"@,
        "queue"@ != "completed_at"@,
        "queue"@ != "failed_at"@,
        "queue"@ != "name"@,
        "queue"@ != "cron_expression"@,
        "queue"@ != "timezone"@,
        "queue"@ != "enabled"@,
        "queue"@ != "next_run"@,
        "queue"@ != "error"@,
        "status"@ != "payload"@,
        "status"@ != "created_at"@,
        "status"@ != "run_at"@,
        "status"@ != "completed_at"@,
        "status"@ != "failed_at"@,
        "status"@ != "name"@,
        "status"@ != "cron_expression"@,
        "status"@ != "timezone"@,
        "status"@ != "enabled"@,
        "status"@ != "next_run"@,
        "status"@ != "error"@,
        "payload"@ != "created_at"@,
        "payload"@ != "run_at"@,
        "payload"@ != "completed_at"@,
        "payload"@ != "failed_at"@,
        "payload"@ != "name"@,
        "payload"@ != "cron_expression"@,
        "payload"@ != "timezone"@,
        "payload"@ != "enabled"@,
        "payload"@ != "next_run"@,
        "payload"@ != "error"@,
        "created_at"@ != "run_at"@,
        "created_at"@ != "completed_at"@,
        "created_at"@ != "failed_at"@,
        "created_at"@ != "name"@,
        "created_at"@ != "cron_expression"@,
        "created_at"@ != "timezone"@,
        "created_at"@ != "enabled"@,
        "created_at"@ != "next_run"@,
        "created_at"@ != "error"@,
        "run_at"@ != "completed_at"@,
        "run_at"@ != "failed_at"@,
        "run_at"@ != "name"@,
        "run_at"@ != "cron_expression"@,
        "run_at"@ != "timezone"@,
        "run_at"@ != "enabled"@,
        "run_at"@ != "next_run"@,
        "run_at"@ != "error"@,
        "completed_at"@ != "failed_at"@,
        "completed_at"@ != "name"@,
        "completed_at"@ != "cron_expression"@,
        "completed_at"@ != "timezone"@,
        "completed_at"@ != "enabled"@,
        "completed_at"@ != "next_run"@,
        "completed_at"@ != "error"@,
        "failed_at"@ != "name"@,
        "failed_at"@ != "cron_expression"@,
        "failed_at"@ != "timezone"@,
        "failed_at"@ != "enabled"@,
        "failed_at"@ != "next_run"@,
        "failed_at"@ != "error"@,
        "name"@ != "cron_expression"@,
        "name"@ != "timezone"@,
        "name"@ != "enabled"@,
        "name"@ != "next_run"@,
        "name"@ != "error"@,
        "cron_expression"@ != "timezone"@,
        "cron_expression"@ != "enabled"@,
        "cron_expression"@ != "next_run"@,
        "cron_expression"@ != "error"@,
        "timezone"@ != "enabled"@,
        "timezone"@ != "next_run"@,
        "timezone"@ != "error"@,
        "enabled"@ != "next_run"@,
        "enabled"@ != "error"@,
        "next_run"@ != "error"@,
{
    reveal_strlit("queue");
    reveal_strlit("status");
    reveal_strlit("payload");
    reveal_strlit("created_at");
    reveal_strlit("run_at");
    reveal_strlit("completed_at");
    reveal_strlit("failed_at");
    reveal_strlit("name");
    reveal_strlit("cron_expression");
    reveal_strlit("timezone");
    reveal_strlit("enabled");
    reveal_strlit("next_run");
    reveal_strlit("error");
    assert("queue"@.len() != "status"@.len());
    assert("queue"@.len() != "payload"@.len());
    assert("queue"@.len() != "created_at"@.len());
    assert("queue"@.len() != "run_at"@.len());
    assert("queue"@.len() != "completed_at"@.len());
    assert("queue"@.len() != "failed_at"@.len());
    assert("queue"@.len() != "name"@.len());
    assert("queue"@.len() != "cron_expression"@.len());
    assert("queue"@.len() != "timezone"@.len());
    assert("queue"@.len() != "enabled"@.len());
    assert("queue"@.len() != "next_run"@.len());
    assert("queue"@[0] != "error"@[0]);
    assert("status"@.len() != "payload"@.len());
    assert("status"@.len() != "created_at"@.len());
    assert("status"@[0] != "run_at"@[0]);
    assert("status"@.len() != "completed_at"@.len());
    assert("status"@.len() != "failed_at"@.len());
    assert("status"@.len() != "name"@.len());
    assert("status"@.len() != "cron_expression"@.len());
    assert("status"@.len() != "timezone"@.len());
    assert("status"@.len() != "enabled"@.len());
    assert("status"@.len() != "next_run"@.len());
    assert("status"@.len() != "error"@.len());
    assert("payload"@.len() != "created_at"@.len());
    assert("payload"@.len() != "run_at"@.len());
    assert("payload"@.len() != "completed_at"@.len());
    assert("payload"@.len() != "failed_at"@.len());
    assert("payload"@.len() != "name"@.len());
    assert("payload"@.len() != "cron_expression"@.len());
    assert("payload"@.len() != "timezone"@.len());
    assert("payload"@[0] != "enabled"@[0]);
    assert("payload"@.len() != "next_run"@.len());
    assert("payload"@.len() != "error"@.len());
    assert("created_at"@.len() != "run_at"@.len());
    assert("created_at"@.len() != "completed_at"@.len());
    assert("created_at"@.len() != "failed_at"@.len());
    assert("created_at"@.len() != "name"@.len());
    assert("created_at"@.len() != "cron_expression"@.len());
    assert("created_at"@.len() != "timezone"@.len());
    assert("created_at"@.len() != "enabled"@.len());
    assert("created_at"@.len() != "next_run"@.len());
    assert("created_at"@.len() != "error"@.len());
    assert("run_at"@.len() != "completed_at"@.len());
    assert("run_at"@.len() != "failed_at"@.len());
    assert("run_at"@.len() != "name"@.len());
    assert("run_at"@.len() != "cron_expression"@.len());
    assert("run_at"@.len() != "timezone"@.len());
    assert("run_at"@.len() != "enabled"@.len());
    assert("run_at"@.len() != "next_run"@.len());
    assert("run_at"@.len() != "error"@.len());
    assert("completed_at"@.len() != "failed_at"@.len());
    assert("completed_at"@.len() != "name"@.len());
    assert("completed_at"@.len() != "cron_expression"@.len());
    assert("completed_at"@.len() != "timezone"@.len());
    assert("completed_at"@.len() != "enabled"@.len());
    assert("completed_at"@.len() != "next_run"@.len());
    assert("completed_at"@.len() != "error"@.len());
    assert("failed_at"@.len() != "name"@.len());
    assert("failed_at"@.len() != "cron_expression"@.len());
    assert("failed_at"@.len() != "timezone"@.len());
    assert("failed_at"@.len() != "enabled"@.len());
    assert("failed_at"@.len() != "next_run"@.len());
    assert("failed_at"@.len() != "error"@.len());
    assert("name"@.len() != "cron_expression"@.len());
    assert("name"@.len() != "timezone"@.len());
    assert("name"@.len() != "enabled"@.len());
    assert("name"@.len() != "next_run"@.len());
    assert("name"@.len() != "error"@.len());
    assert("cron_expression"@.len() != "timezone"@.len());
    assert("cron_expression"@.len() != "enabled"@.len());
    assert("cron_expression"@.len() != "next_run"@.len());
    assert("cron_expression"@.len() != "error"@.len());
    assert("timezone"@.len() != "enabled"@.len());
    assert("timezone"@[0] != "next_run"@[0]);
    assert("timezone"@.len() != "error"@.len());
    assert("enabled"@.len() != "next_run"@.len());
    assert("enabled"@.len() != "error"@.len());
    assert("next_run"@.len() != "error"@.len());
}

/// Two keys that differ at a position inside both of their prefixes differ.
proof fn lemma_prefixes_differ(p: Seq<char>, q: Seq<char>, a: Seq<char>, b: Seq<char>, i: int)
    requires
        0 <= i < p.len(),
        i < q.len(),
        p[i] != q[i],
    ensures
        p + a != q + b,
{
    assert((p + a)[i] == p[i]);
    assert((q + b)[i] == q[i]);
}

/// Keys of different kinds never coincide.
proof fn lemma_keys_distinct(x: Seq<char>, y: Seq<char>)
    ensures
        job_key_text(x) != queue_key_text(y),
        job_key_text(x) != logs_key_text(y),
        queue_key_text(y) != logs_key_text(x),
        DEFAULT_QUEUE_KEY@ != DELAYED_JOBS_KEY@,
        SUCCESS_COUNTER_KEY@ != FAILED_COUNTER_KEY@,
        cron_job_key_text(x) != CRON_SCHEDULE_KEY@,
{
    reveal_strlit("snm:job:");
    reveal_strlit("snm:queue:");
    reveal_strlit("snm:logs:");
    reveal_strlit("snm:queue:default");
    reveal_strlit("snm:delayed_jobs");
    reveal_strlit("snm:qrush:success");
    reveal_strlit("snm:qrush:failed");
    reveal_strlit("snm:cron:jobs:");
    reveal_strlit("snm:cron:schedule");
    lemma_prefixes_differ("snm:job:"@, "snm:queue:"@, x, y, 4);
    lemma_prefixes_differ("snm:job:"@, "snm:logs:"@, x, y, 4);
    lemma_prefixes_differ("snm:queue:"@, "snm:logs:"@, y, x, 4);
    let c = CRON_SCHEDULE_KEY@;
    assert(c =~= c.subrange(0, 10) + c.subrange(10, c.len() as int));
    lemma_prefixes_differ("snm:cron:jobs:"@, c.subrange(0, 10), x, c.subrange(10, c.len() as int), 9);
    assert(DEFAULT_QUEUE_KEY@[4] != DELAYED_JOBS_KEY@[4]);
    assert(SUCCESS_COUNTER_KEY@[10] != FAILED_COUNTER_KEY@[10]);
}

/// Enqueueing a job at once writes its hash (queue, `pending` status, payload and
/// creation time read back as written) and puts its id at the back of its queue, the rest
/// of the queue unchanged.
pub proof fn law_enqueue_reads_back(
    s: Store,
    id: Seq<char>,
    queue: Seq<char>,
    payload: Seq<char>,
    created_at: Seq<char>,
)
    ensures
        ({
            let t = apply_all(s, enqueue_ops(id, queue, payload, created_at));
            let h = hash_of(t, job_key_text(id));
            &&& h.contains_key("status"@)
            &&& h["queue"@] == queue
            &&& h["status"@] == "pending"@
            &&& h["payload"@] == payload
            &&& h["created_at"@] == created_at
            &&& list_of(t, queue_key_text(queue)) == list_of(s, queue_key_text(queue)).push(id)
        }),
{
    reveal_strlit("queue");
    reveal_strlit("status");
    reveal_strlit("payload");
    reveal_strlit("created_at");
    lemma_keys_distinct(id, queue);
    let ops = enqueue_ops(id, queue, payload, created_at);
    lemma_apply_two(s, ops);
    let f = ops[0]->fields;
    let h0 = hash_of(s, job_key_text(id));
    reveal_with_fuel(inserts, 9);
    lemma_field_names_distinct();
    lemma_hash_write_all(h0, f);
}

/// Delaying a job writes its hash (status `delayed`) and puts its id in the delayed set
/// scored by the second it is due, without touching any queue.
pub proof fn law_delayed_job_waits(
    s: Store,
    id: Seq<char>,
    queue: Seq<char>,
    payload: Seq<char>,
    created_at: Seq<char>,
    run_at: i64,
)
    ensures
        ({
            let t = apply_all(s, enqueue_delayed_ops(id, queue, payload, created_at, run_at));
            &&& hash_of(t, job_key_text(id)).contains_key("status"@)
            &&& hash_of(t, job_key_text(id))["status"@] == "delayed"@
            &&& hash_of(t, job_key_text(id))["payload"@] == payload
            &&& hash_of(t, job_key_text(id))["queue"@] == queue
            &&& hash_of(t, job_key_text(id))["created_at"@] == created_at
            &&& hash_of(t, job_key_text(id))["run_at"@] == decimal_int(run_at as int)
            &&& sorted_of(t, DELAYED_JOBS_KEY@).contains_key(id)
            &&& sorted_of(t, DELAYED_JOBS_KEY@)[id] == run_at
            &&& t.lists == s.lists
        }),
{
    reveal_strlit("queue");
    reveal_strlit("status");
    reveal_strlit("payload");
    reveal_strlit("created_at");
    reveal_strlit("run_at");
    let ops = enqueue_delayed_ops(id, queue, payload, created_at, run_at);
    lemma_apply_two(s, ops);
    let f = ops[0]->fields;
    let h0 = hash_of(s, job_key_text(id));
    reveal_with_fuel(inserts, 9);
    lemma_field_names_distinct();
    lemma_hash_write_all(h0, f);
}

/// Promoting due delayed jobs takes each of them out of the delayed set and puts them at
/// the front of the default queue, the last promoted first, ahead of what was queued.
pub proof fn law_promotion_moves_due_jobs(s: Store, due: Seq<Seq<char>>)
    ensures
        ({
            let t = apply_all(s, promote_ops(due));
            &&& list_of(t, DEFAULT_QUEUE_KEY@) == due.reverse() + list_of(s, DEFAULT_QUEUE_KEY@)
            &&& forall|i: int| 0 <= i < due.len() ==> !sorted_of(t, DELAYED_JOBS_KEY@).contains_key(
                #[trigger] due[i],
            )
        }),
    decreases due.len(),
{
    lemma_keys_distinct(Seq::empty(), Seq::empty());
    if due.len() == 0 {
        assert(due.reverse() + list_of(s, DEFAULT_QUEUE_KEY@) =~= list_of(s, DEFAULT_QUEUE_KEY@));
    } else {
        let init = due.drop_last();
        law_promotion_moves_due_jobs(s, init);
        let m = apply_all(s, promote_ops(init));
        let tail = seq![
            OpView::PushFront { key: DEFAULT_QUEUE_KEY@, value: due.last() },
            OpView::SortedRemove { key: DELAYED_JOBS_KEY@, member: due.last() },
        ];
        assert(promote_ops(due) == promote_ops(init) + tail);
        lemma_apply_all_concat(s, promote_ops(init), tail);
        lemma_apply_two(m, tail);
        let t = apply_all(s, promote_ops(due));
        assert(t == apply(apply(m, tail[0]), tail[1]));
        assert(due.reverse() =~= seq![due.last()] + init.reverse());
        assert(list_of(t, DEFAULT_QUEUE_KEY@) =~= due.reverse() + list_of(s, DEFAULT_QUEUE_KEY@));
        assert forall|i: int| 0 <= i < due.len() implies !sorted_of(
            t,
            DELAYED_JOBS_KEY@,
        ).contains_key(#[trigger] due[i]) by {
            if i < due.len() - 1 {
                assert(init[i] == due[i]);
            }
        }
    }
}

/// After a worker finishes a job, the job's status reads `success` where a handler took
/// it and `failed` where none did; the matching counter goes up by one, the queue's log
/// starts with the outcome's line, and a failed job's id is at the back of the failed list.
pub proof fn law_finish_records_outcome(
    s: Store,
    queue: Seq<char>,
    id: Seq<char>,
    handled: bool,
    now: crate::time::UtcTime,
)
    ensures
        ({
            let t = apply_all(s, outcome_ops(queue, id, handled, now));
            let h = hash_of(t, job_key_text(id));
            let logs = list_of(t, logs_key_text(queue));
            &&& h.contains_key("status"@)
            &&& h["status"@] == (if handled { "success"@ } else { "failed"@ })
            &&& handled ==> counter_of(t, SUCCESS_COUNTER_KEY@) == counter_of(s, SUCCESS_COUNTER_KEY@) + 1
            &&& !handled ==> counter_of(t, FAILED_COUNTER_KEY@) == counter_of(s, FAILED_COUNTER_KEY@) + 1
            &&& logs.len() > 0
            &&& logs[0] == (if handled {
                crate::runner::success_line(crate::time::utc_display_text(now.secs, now.nanos), id)
            } else {
                crate::runner::failure_line(crate::time::utc_display_text(now.secs, now.nanos), id)
            })
            &&& !handled ==> list_of(t, FAILED_JOBS_KEY@) == list_of(s, FAILED_JOBS_KEY@).push(id)
            &&& !handled ==> h["queue"@] == queue
        }),
{
    reveal_strlit("status");
    reveal_strlit("completed_at");
    reveal_strlit("failed_at");
    reveal_strlit("queue");
    reveal_strlit("snm:job:");
    reveal_strlit("snm:logs:");
    reveal_strlit("snm:failed_jobs");
    lemma_keys_distinct(id, queue);
    let fk = FAILED_JOBS_KEY@;
    assert(fk =~= fk.subrange(0, 5) + fk.subrange(5, fk.len() as int));
    lemma_prefixes_differ(fk.subrange(0, 5), "snm:logs:"@, fk.subrange(5, fk.len() as int), queue, 4);
    let ops = outcome_ops(queue, id, handled, now);
    let s1 = apply(s, ops[0]);
    let s2 = apply(s1, ops[1]);
    let s3 = apply(s2, ops[2]);
    let s4 = apply(s3, ops[3]);
    lemma_apply_prefix(s, ops, 0);
    lemma_apply_prefix(s, ops, 1);
    lemma_apply_prefix(s, ops, 2);
    lemma_apply_prefix(s, ops, 3);
    assert(ops.take(0) =~= Seq::<OpView>::empty());
    let h0 = hash_of(s, job_key_text(id));
    let f0 = ops[0]->fields;
    reveal_with_fuel(inserts, 9);
    lemma_field_names_distinct();
    lemma_hash_write_all(h0, f0);
    let line = if handled {
        crate::runner::success_line(crate::time::utc_display_text(now.secs, now.nanos), id)
    } else {
        crate::runner::failure_line(crate::time::utc_display_text(now.secs, now.nanos), id)
    };
    let l2 = list_of(s2, logs_key_text(queue));
    assert((seq![line] + l2)[0] == line);
    assert(trimmed(seq![line] + l2, 0, 99)[0] == line);
    if handled {
        assert(ops.take(4) =~= ops);
    } else {
        lemma_apply_prefix(s, ops, 4);
        lemma_apply_prefix(s, ops, 5);
        assert(ops.take(6) =~= ops);
        let f4 = ops[4]->fields;
        reveal_with_fuel(inserts, 9);
    lemma_field_names_distinct();
    lemma_hash_write_all(hash_of(s4, job_key_text(id)), f4);
    }
}

/// Retrying a job puts its id back at the back of its queue, sets its status to
/// `pending` and removes its failure time and error.
pub proof fn law_retry_requeues(s: Store, id: Seq<char>, queue: Seq<char>)
    ensures
        ({
            let t = apply_all(s, crate::cli::retry_ops(id, queue));
            let h = hash_of(t, job_key_text(id));
            &&& list_of(t, queue_key_text(queue)) == list_of(s, queue_key_text(queue)).push(id)
            &&& h.contains_key("status"@)
            &&& h["status"@] == "pending"@
            &&& !h.contains_key("failed_at"@)
            &&& !h.contains_key("error"@)
        }),
{
    reveal_strlit("status");
    reveal_strlit("failed_at");
    reveal_strlit("error");
    lemma_keys_distinct(id, queue);
    let ops = crate::cli::retry_ops(id, queue);
    lemma_apply_three(s, ops);
    let s2 = apply(apply(s, ops[0]), ops[1]);
    let f = ops[1]->fields;
    reveal_with_fuel(inserts, 9);
    lemma_field_names_distinct();
    lemma_hash_write_all(hash_of(apply(s, ops[0]), job_key_text(id)), f);
    let names = ops[2]->names;
    let h2 = hash_of(s2, job_key_text(id));
    assert(names[0] == "failed_at"@);
    assert(names[1] == "error"@);
    assert(names.contains("failed_at"@));
    assert(names.contains("error"@));
    lemma_hash_remove(h2, names, "failed_at"@);
    lemma_hash_remove(h2, names, "error"@);
    lemma_hash_remove(h2, names, "status"@);
}

/// Queueing a job from the dashboard puts its id at the back of its queue, sets its
/// status to `pending` and takes it out of the delayed jobs.
pub proof fn law_dashboard_queue_now(s: Store, id: Seq<char>, queue: Seq<char>)
    ensures
        ({
            let t = apply_all(s, crate::dashboard::queue_now_ops(id, queue));
            let h = hash_of(t, job_key_text(id));
            &&& list_of(t, queue_key_text(queue)) == list_of(s, queue_key_text(queue)).push(id)
            &&& h.contains_key("status"@)
            &&& h["status"@] == "pending"@
            &&& !sorted_of(t, DELAYED_JOBS_KEY@).contains_key(id)
        }),
{
    reveal_strlit("status");
    lemma_keys_distinct(id, queue);
    let ops = crate::dashboard::queue_now_ops(id, queue);
    lemma_apply_three(s, ops);
    let f = ops[1]->fields;
    reveal_with_fuel(inserts, 9);
    lemma_field_names_distinct();
    lemma_hash_write_all(hash_of(apply(s, ops[0]), job_key_text(id)), f);
}

/// The dashboard's job actions: `retry` and `queue` put the job's id at the back of the
/// queue its hash names and mark it pending, `delete` empties its hash, and any other
/// action is refused.
pub proof fn law_dashboard_actions(s: Store, action: Seq<char>, id: Seq<char>, queue: Seq<char>)
    ensures
        action == "retry"@ || action == "queue"@ ==> (crate::dashboard::job_action_ops(
            action,
            id,
            queue,
        ) matches Some(ops) && {
            let t = apply_all(s, ops);
            &&& list_of(t, queue_key_text(queue)) == list_of(s, queue_key_text(queue)).push(id)
            &&& hash_of(t, job_key_text(id)).contains_key("status"@)
            &&& hash_of(t, job_key_text(id))["status"@] == "pending"@
        }),
        action == "delete"@ ==> (crate::dashboard::job_action_ops(action, id, queue) matches Some(
            ops,
        ) && hash_of(apply_all(s, ops), job_key_text(id)) == Map::<Seq<char>, Seq<char>>::empty()),
        action != "retry"@ && action != "queue"@ && action != "delete"@
            ==> crate::dashboard::job_action_ops(action, id, queue) is None,
{
    reveal_strlit("retry");
    reveal_strlit("queue");
    reveal_strlit("delete");
    assert("retry"@[0] != "queue"@[0]);
    assert("retry"@[0] != "delete"@[0]);
    assert("queue"@[0] != "delete"@[0]);
    if action == "retry"@ {
        law_retry_requeues(s, id, queue);
    } else if action == "queue"@ {
        law_dashboard_queue_now(s, id, queue);
    } else if action == "delete"@ {
        let ops = seq![OpView::Delete { key: job_key_text(id) }];
        lemma_apply_prefix(s, ops, 0);
        assert(ops.take(0) =~= Seq::<OpView>::empty());
        assert(ops.take(1) =~= ops);
    }
}

/// Deleting a cron job removes its hash and its place in the schedule.
pub proof fn law_deleted_cron_job_is_gone(s: Store, id: Seq<char>)
    ensures
        ({
            let t = apply_all(s, seq![
                OpView::Delete { key: cron_job_key_text(id) },
                OpView::SortedRemove { key: CRON_SCHEDULE_KEY@, member: id },
            ]);
            &&& hash_of(t, cron_job_key_text(id)) == Map::<Seq<char>, Seq<char>>::empty()
            &&& !sorted_of(t, CRON_SCHEDULE_KEY@).contains_key(id)
        }),
{
    lemma_keys_distinct(id, id);
    let ops = seq![
        OpView::Delete { key: cron_job_key_text(id) },
        OpView::SortedRemove { key: CRON_SCHEDULE_KEY@, member: id },
    ];
    lemma_apply_two(s, ops);
}

/// Disabling a cron job marks it disabled and takes it out of the schedule, so that no
/// later run picks it up; enabling it only marks it enabled.
pub proof fn law_disabled_cron_job_is_unscheduled(s: Store, id: Seq<char>, enabled: bool)
    ensures
        ({
            let set = OpView::HashSet {
                key: cron_job_key_text(id),
                fields: seq![("enabled"@, crate::text::bool_text(enabled))],
            };
            let ops = if enabled {
                seq![set]
            } else {
                seq![set, OpView::SortedRemove { key: CRON_SCHEDULE_KEY@, member: id }]
            };
            let t = apply_all(s, ops);
            &&& hash_of(t, cron_job_key_text(id))["enabled"@] == crate::text::bool_text(enabled)
            &&& crate::cron::scheduler::enabled_in(seq![("enabled"@, crate::text::bool_text(enabled))]) == enabled
            &&& !enabled ==> !sorted_of(t, CRON_SCHEDULE_KEY@).contains_key(id)
            &&& enabled ==> sorted_of(t, CRON_SCHEDULE_KEY@) == sorted_of(s, CRON_SCHEDULE_KEY@)
        }),
{
    reveal_strlit("true");
    reveal_strlit("false");
    reveal_strlit("enabled");
    lemma_keys_distinct(id, id);
    let set = OpView::HashSet {
        key: cron_job_key_text(id),
        fields: seq![("enabled"@, crate::text::bool_text(enabled))],
    };
    let f = seq![("enabled"@, crate::text::bool_text(enabled))];
    reveal_with_fuel(inserts, 3);
    lemma_hash_write_all(hash_of(s, cron_job_key_text(id)), f);
    assert(f.drop_last() =~= Seq::<(Seq<char>, Seq<char>)>::empty());
    assert(("true"@).len() != ("false"@).len());
    if enabled {
        let ops = seq![set];
        lemma_apply_prefix(s, ops, 0);
        assert(ops.take(0) =~= Seq::<OpView>::empty());
        assert(ops.take(1) =~= ops);
        assert(apply_all(s, ops).sorted == s.sorted);
    } else {
        lemma_apply_two(s, seq![set, OpView::SortedRemove { key: CRON_SCHEDULE_KEY@, member: id }]);
    }
}

/// Registering a cron job stores it as enabled or not as it declares, with its payload,
/// and schedules it at the second of its next run.
pub proof fn law_registration_schedules(
    s: Store,
    def: crate::cron::scheduler::CronJobDefinition,
    next: crate::time::UtcTime,
    created_at: Seq<char>,
    payload: Seq<char>,
)
    ensures
        ({
            let t = apply_all(s, seq![
                registration_hash(def, crate::time::rfc3339_text(next.secs, next.nanos), created_at, payload),
                OpView::SortedAdd { key: CRON_SCHEDULE_KEY@, member: def.id@, score: next.secs },
            ]);
            &&& sorted_of(t, CRON_SCHEDULE_KEY@).contains_key(def.id@)
            &&& sorted_of(t, CRON_SCHEDULE_KEY@)[def.id@] == next.secs
            &&& hash_of(t, cron_job_key_text(def.id@))["payload"@] == payload
            &&& hash_of(t, cron_job_key_text(def.id@))["enabled"@] == crate::text::bool_text(def.enabled)
            &&& hash_of(t, cron_job_key_text(def.id@))["name"@] == def.name@
            &&& hash_of(t, cron_job_key_text(def.id@))["queue"@] == def.queue@
            &&& hash_of(t, cron_job_key_text(def.id@))["cron_expression"@] == def.cron_expression@
            &&& hash_of(t, cron_job_key_text(def.id@))["timezone"@] == def.timezone@
            &&& hash_of(t, cron_job_key_text(def.id@))["next_run"@] == crate::time::rfc3339_text(
                next.secs,
                next.nanos,
            )
            &&& hash_of(t, cron_job_key_text(def.id@))["created_at"@] == created_at
        }),
{
    reveal_strlit("name");
    reveal_strlit("queue");
    reveal_strlit("cron_expression");
    reveal_strlit("timezone");
    reveal_strlit("enabled");
    reveal_strlit("next_run");
    reveal_strlit("created_at");
    reveal_strlit("payload");
    lemma_keys_distinct(def.id@, def.id@);
    let h = registration_hash(def, crate::time::rfc3339_text(next.secs, next.nanos), created_at, payload);
    let ops = seq![h, OpView::SortedAdd { key: CRON_SCHEDULE_KEY@, member: def.id@, score: next.secs }];
    lemma_apply_two(s, ops);
    let f = h->fields;
    let h0 = hash_of(s, cron_job_key_text(def.id@));
    reveal_with_fuel(inserts, 9);
    lemma_field_names_distinct();
    lemma_hash_write_all(h0, f);
}

} // verus!
