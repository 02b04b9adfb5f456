//! The cron scheduler's bookkeeping in Redis: registering a cron job, deciding what a due
//! job does, rescheduling it, listing, toggling, deleting and running it by hand.

use crate::cron::parser::{next_execution_spec, CronError, CronParser};
use crate::hash::{hash_get, lookup};
use crate::keys::{cron_job_key, cron_job_key_text, CRON_SCHEDULE_KEY};
use crate::ops::{field, ops_view, pairs_view, OpView, RedisOp};
use crate::queue::{enqueue_recorded, enqueue_recorded_ops};
use crate::text::{bool_text, format_bool, has_prefix, owned, str_eq, strip_prefix};
use crate::time::{format_rfc3339, rfc3339_text, UtcTime};
use vstd::prelude::*;

verus! {

/// What a cron job declares about itself when it is registered.
#[derive(Clone, Debug)]
pub struct CronJobDefinition {
    pub id: String,
    pub name: String,
    pub queue: String,
    pub cron_expression: String,
    pub timezone: String,
    pub enabled: bool,
}

/// A registered cron job as stored in Redis.
#[derive(Clone, Debug)]
pub struct CronJobMeta {
    pub id: String,
    pub name: String,
    pub queue: String,
    pub cron_expression: String,
    pub timezone: String,
    pub enabled: bool,
    pub last_run: Option<String>,
    pub next_run: String,
    pub created_at: String,
    pub payload: String,
}

/// The content of a `CronJobMeta`.
pub struct CronJobMetaView {
    pub id: Seq<char>,
    pub name: Seq<char>,
    pub queue: Seq<char>,
    pub cron_expression: Seq<char>,
    pub timezone: Seq<char>,
    pub enabled: bool,
    pub last_run: Option<Seq<char>>,
    pub next_run: Seq<char>,
    pub created_at: Seq<char>,
    pub payload: Seq<char>,
}

impl View for CronJobMeta {
    type V = CronJobMetaView;

    open spec fn view(&self) -> CronJobMetaView {
        CronJobMetaView {
            id: self.id@,
            name: self.name@,
            queue: self.queue@,
            cron_expression: self.cron_expression@,
            timezone: self.timezone@,
            enabled: self.enabled,
            last_run: match self.last_run {
                Some(s) => Some(s@),
                None => None,
            },
            next_run: self.next_run@,
            created_at: self.created_at@,
            payload: self.payload@,
        }
    }
}

/// A registration: the stored metadata and the writes that store and schedule it.
pub struct CronRegistration {
    pub meta: CronJobMeta,
    pub ops: Vec<RedisOp>,
}

/// Why a stored cron job cannot be run.
#[derive(Clone, Copy, Debug, PartialEq, Eq, Structural)]
pub enum CronRunError {
    /// The job's hash is empty: there is no such job.
    NotFound,
    /// The job has no `cron_expression` field.
    MissingCronExpression,
    /// The job has no `payload` field.
    MissingPayload,
}

impl CronRunError {
    /// The error's message.
    pub fn message(&self) -> (r: &'static str)
        ensures
            r@ == (match self {
                CronRunError::NotFound => "Cron job not found"@,
                CronRunError::MissingCronExpression => "Missing cron_expression"@,
                CronRunError::MissingPayload => "Missing payload"@,
            }),
    {
        match self {
            CronRunError::NotFound => "Cron job not found",
            CronRunError::MissingCronExpression => "Missing cron_expression",
            CronRunError::MissingPayload => "Missing payload",
        }
    }
}

/// What a due cron job does.
#[derive(Clone, Debug)]
pub enum CronRun {
    /// There is no such job: nothing is done.
    NotFound,
    /// The job is disabled: nothing is done.
    Disabled,
    /// The stored job is incomplete.
    Invalid(CronRunError),
    /// Its payload is enqueued on its queue, then it is rescheduled by its expression.
    Enqueue { payload: String, queue: String, cron_expression: String },
}

/// The content of a `CronRun`.
pub enum CronRunView {
    NotFound,
    Disabled,
    Invalid(CronRunError),
    Enqueue { payload: Seq<char>, queue: Seq<char>, cron_expression: Seq<char> },
}

impl View for CronRun {
    type V = CronRunView;

    open spec fn view(&self) -> CronRunView {
        match self {
            CronRun::NotFound => CronRunView::NotFound,
            CronRun::Disabled => CronRunView::Disabled,
            CronRun::Invalid(e) => CronRunView::Invalid(*e),
            CronRun::Enqueue { payload, queue, cron_expression } => CronRunView::Enqueue {
                payload: payload@,
                queue: queue@,
                cron_expression: cron_expression@,
            },
        }
    }
}

/// A stored `enabled` field reads as enabled only when it is the text `true` (what
/// `str::parse::<bool>` accepts as true); anything else, or no field, reads as disabled.
pub open spec fn enabled_in(fields: Seq<(Seq<char>, Seq<char>)>) -> bool {
    lookup(fields, "enabled"@) == Some("true"@)
}

/// The queue a stored job names, `default` where it names none.
pub open spec fn queue_in(fields: Seq<(Seq<char>, Seq<char>)>) -> Seq<char> {
    match lookup(fields, "queue"@) {
        Some(q) => q,
        None => "default"@,
    }
}

/// What a due job whose hash holds `fields` does.
pub open spec fn run_plan(fields: Seq<(Seq<char>, Seq<char>)>) -> CronRunView {
    if fields.len() == 0 {
        CronRunView::NotFound
    } else if !enabled_in(fields) {
        CronRunView::Disabled
    } else {
        match lookup(fields, "cron_expression"@) {
            None => CronRunView::Invalid(CronRunError::MissingCronExpression),
            Some(expr) => match lookup(fields, "payload"@) {
                None => CronRunView::Invalid(CronRunError::MissingPayload),
                Some(payload) => CronRunView::Enqueue {
                    payload,
                    queue: queue_in(fields),
                    cron_expression: expr,
                },
            },
        }
    }
}

/// The hash written when a job is registered.
pub open spec fn registration_hash(
    def: CronJobDefinition,
    next_run: Seq<char>,
    created_at: Seq<char>,
    payload: Seq<char>,
) -> OpView {
    OpView::HashSet {
        key: cron_job_key_text(def.id@),
        fields: seq![
            ("name"@, def.name@),
            ("queue"@, def.queue@),
            ("cron_expression"@, def.cron_expression@),
            ("timezone"@, def.timezone@),
            ("enabled"@, bool_text(def.enabled)),
            ("next_run"@, next_run),
            ("created_at"@, created_at),
            ("payload"@, payload),
        ],
    }
}

/// The writes after a job has run at `now`: its last and next runs and its place in the
/// schedule, or its removal from the schedule where its expression gives no next run.
pub open spec fn reschedule_ops(job_id: Seq<char>, cron_expression: Seq<char>, now: UtcTime) -> Seq<
    OpView,
> {
    match next_execution_spec(cron_expression, now) {
        Ok(next) => {
            seq![
                OpView::HashSet {
                    key: cron_job_key_text(job_id),
                    fields: seq![
                        ("last_run"@, rfc3339_text(now.secs, now.nanos)),
                        ("next_run"@, rfc3339_text(next.secs, next.nanos)),
                    ],
                },
                OpView::SortedAdd { key: CRON_SCHEDULE_KEY@, member: job_id, score: next.secs },
            ]
        },
        Err(_) => seq![OpView::SortedRemove { key: CRON_SCHEDULE_KEY@, member: job_id }],
    }
}

/// The writes after a job has been enabled at `now`: its next run and its place in the
/// schedule, where it has an expression that gives one; nothing otherwise.
pub open spec fn enable_reschedule_ops(
    job_id: Seq<char>,
    fields: Seq<(Seq<char>, Seq<char>)>,
    now: UtcTime,
) -> Seq<OpView> {
    match lookup(fields, "cron_expression"@) {
        Some(expr) => match next_execution_spec(expr, now) {
            Ok(next) => {
                seq![
                    OpView::HashSet {
                        key: cron_job_key_text(job_id),
                        fields: seq![("next_run"@, rfc3339_text(next.secs, next.nanos))],
                    },
                    OpView::SortedAdd {
                        key: CRON_SCHEDULE_KEY@,
                        member: job_id,
                        score: next.secs,
                    },
                ]
            },
            Err(_) => Seq::empty(),
        },
        None => Seq::empty(),
    }
}

/// The stored text of a field, or `default` where the hash lacks it.
pub open spec fn text_or(fields: Seq<(Seq<char>, Seq<char>)>, name: Seq<char>, default: Seq<char>) -> Seq<char> {
    match lookup(fields, name) {
        Some(v) => v,
        None => default,
    }
}

/// The listed metadata of the job stored under `key` with `fields`.
pub open spec fn listed_meta(key: Seq<char>, fields: Seq<(Seq<char>, Seq<char>)>) -> CronJobMetaView {
    CronJobMetaView {
        id: key.skip(("snm:cron:jobs:"@).len() as int),
        name: text_or(fields, "name"@, "Unknown"@),
        queue: text_or(fields, "queue"@, "default"@),
        cron_expression: text_or(fields, "cron_expression"@, ""@),
        timezone: text_or(fields, "timezone"@, "UTC"@),
        enabled: enabled_in(fields),
        last_run: lookup(fields, "last_run"@),
        next_run: text_or(fields, "next_run"@, ""@),
        created_at: text_or(fields, "created_at"@, ""@),
        payload: text_or(fields, "payload"@, ""@),
    }
}

/// The stored text of a field, or `default`.
fn get_or(fields: &Vec<(String, String)>, name: &str, default: &str) -> (r: String)
    ensures
        r@ == text_or(pairs_view(fields@), name@, default@),
{
    match hash_get(fields, name) {
        Some(v) => v.clone(),
        None => owned(default),
    }
}

/// A stored `enabled` field reads as enabled.
fn enabled_field(fields: &Vec<(String, String)>) -> (r: bool)
    ensures
        r == enabled_in(pairs_view(fields@)),
{
    proof { reveal_strlit("true"); }
    match hash_get(fields, "enabled") {
        Some(v) => str_eq(v.as_str(), "true"),
        None => false,
    }
}

/// The cron scheduler.
pub struct CronScheduler;

impl CronScheduler {
    /// Registers cron job `def` whose serialized form is `payload`, at `now`: its next run
    /// is computed from its expression (an error where that fails), and its metadata is
    /// stored in its hash and scheduled by the second of its next run.
    pub fn register_cron_job(def: &CronJobDefinition, payload: &str, now: UtcTime) -> (r: Result<
        CronRegistration,
        CronError,
    >)
        requires
            now.wf(),
        ensures
            match next_execution_spec(def.cron_expression@, now) {
                Err(e) => r matches Err(err) && err@ == e,
                Ok(next) => {
                    r matches Ok(reg) && {
                        &&& reg.meta@ == (CronJobMetaView {
                            id: def.id@,
                            name: def.name@,
                            queue: def.queue@,
                            cron_expression: def.cron_expression@,
                            timezone: def.timezone@,
                            enabled: def.enabled,
                            last_run: None,
                            next_run: rfc3339_text(next.secs, next.nanos),
                            created_at: rfc3339_text(now.secs, now.nanos),
                            payload: payload@,
                        })
                        &&& ops_view(reg.ops@) == seq![
                            registration_hash(
                                *def,
                                rfc3339_text(next.secs, next.nanos),
                                rfc3339_text(now.secs, now.nanos),
                                payload@,
                            ),
                            OpView::SortedAdd {
                                key: CRON_SCHEDULE_KEY@,
                                member: def.id@,
                                score: next.secs,
                            },
                        ]
                    }
                },
            },
    {
        let next = match CronParser::next_execution(def.cron_expression.as_str(), now) {
            Ok(t) => t,
            Err(e) => return Err(e),
        };
        let next_run = format_rfc3339(next);
        let created_at = format_rfc3339(now);
        let meta = CronJobMeta {
            id: def.id.clone(),
            name: def.name.clone(),
            queue: def.queue.clone(),
            cron_expression: def.cron_expression.clone(),
            timezone: def.timezone.clone(),
            enabled: def.enabled,
            last_run: None,
            next_run: next_run.clone(),
            created_at: created_at.clone(),
            payload: owned(payload),
        };
        let fields = vec![
            field("name", def.name.clone()),
            field("queue", def.queue.clone()),
            field("cron_expression", def.cron_expression.clone()),
            field("timezone", def.timezone.clone()),
            field("enabled", format_bool(def.enabled)),
            field("next_run", next_run),
            field("created_at", created_at),
            field("payload", owned(payload)),
        ];
        let hash = RedisOp::HashSet { key: cron_job_key(def.id.as_str()), fields };
        assert(hash@->fields =~= registration_hash(
            *def,
            rfc3339_text(next.secs, next.nanos),
            rfc3339_text(now.secs, now.nanos),
            payload@,
        )->fields);
        let ops = vec![
            hash,
            RedisOp::SortedAdd {
                key: owned(CRON_SCHEDULE_KEY),
                member: def.id.clone(),
                score: next.secs,
            },
        ];
        assert(ops_view(ops@) =~= seq![
            registration_hash(
                *def,
                rfc3339_text(next.secs, next.nanos),
                rfc3339_text(now.secs, now.nanos),
                payload@,
            ),
            OpView::SortedAdd { key: CRON_SCHEDULE_KEY@, member: def.id@, score: next.secs },
        ]);
        Ok(CronRegistration { meta, ops })
    }

    /// What a due job whose hash holds `fields` does: nothing where there is no such job
    /// or it is disabled, an error where its expression or payload is missing, and
    /// otherwise enqueue its payload on its queue (`default` where it names none).
    pub fn plan_run(fields: &Vec<(String, String)>) -> (r: CronRun)
        ensures
            r@ == run_plan(pairs_view(fields@)),
    {
        if fields.len() == 0 {
            return CronRun::NotFound;
        }
        if !enabled_field(fields) {
            return CronRun::Disabled;
        }
        let expr = match hash_get(fields, "cron_expression") {
            Some(e) => e.clone(),
            None => return CronRun::Invalid(CronRunError::MissingCronExpression),
        };
        let payload = match hash_get(fields, "payload") {
            Some(p) => p.clone(),
            None => return CronRun::Invalid(CronRunError::MissingPayload),
        };
        let queue = get_or(fields, "queue", "default");
        CronRun::Enqueue { payload, queue, cron_expression: expr }
    }

    /// The writes after job `job_id` with expression `cron_expression` has run at `now`.
    pub fn reschedule_after_run(job_id: &str, cron_expression: &str, now: UtcTime) -> (r: Vec<
        RedisOp,
    >)
        requires
            now.wf(),
        ensures
            ops_view(r@) == reschedule_ops(job_id@, cron_expression@, now),
    {
        match CronParser::next_execution(cron_expression, now) {
            Ok(next) => {
                let fields = vec![
                    field("last_run", format_rfc3339(now)),
                    field("next_run", format_rfc3339(next)),
                ];
                assert(pairs_view(fields@) =~= seq![
                    ("last_run"@, rfc3339_text(now.secs, now.nanos)),
                    ("next_run"@, rfc3339_text(next.secs, next.nanos)),
                ]);
                let r = vec![
                    RedisOp::HashSet { key: cron_job_key(job_id), fields },
                    RedisOp::SortedAdd {
                        key: owned(CRON_SCHEDULE_KEY),
                        member: owned(job_id),
                        score: next.secs,
                    },
                ];
                assert(ops_view(r@) =~= reschedule_ops(job_id@, cron_expression@, now));
                r
            },
            Err(_) => {
                let r = vec![
                    RedisOp::SortedRemove {
                        key: owned(CRON_SCHEDULE_KEY),
                        member: owned(job_id),
                    },
                ];
                assert(ops_view(r@) =~= reschedule_ops(job_id@, cron_expression@, now));
                r
            },
        }
    }

    /// The metadata listed for the job stored under `key` with `fields`; `None` where the
    /// key is not a cron job key. Missing fields read as `Unknown` (name), `default`
    /// (queue), `UTC` (timezone), disabled, no last run, or empty text.
    pub fn list_entry(key: &str, fields: &Vec<(String, String)>) -> (r: Option<CronJobMeta>)
        ensures
            r is Some <==> has_prefix(key@, "snm:cron:jobs:"@),
            r matches Some(m) ==> m@ == listed_meta(key@, pairs_view(fields@)),
    {
        let id = match strip_prefix(key, "snm:cron:jobs:") {
            Some(i) => i,
            None => return None,
        };
        Some(
            CronJobMeta {
                id: owned(id),
                name: get_or(fields, "name", "Unknown"),
                queue: get_or(fields, "queue", "default"),
                cron_expression: get_or(fields, "cron_expression", ""),
                timezone: get_or(fields, "timezone", "UTC"),
                enabled: enabled_field(fields),
                last_run: match hash_get(fields, "last_run") {
                    Some(v) => Some(v.clone()),
                    None => None,
                },
                next_run: get_or(fields, "next_run", ""),
                created_at: get_or(fields, "created_at", ""),
                payload: get_or(fields, "payload", ""),
            },
        )
    }

    /// The first writes of enabling or disabling job `job_id`: its `enabled` field, and,
    /// when disabling, its removal from the schedule.
    pub fn toggle_cron_job(job_id: &str, enabled: bool) -> (r: Vec<RedisOp>)
        ensures
            ops_view(r@) == {
                let set = OpView::HashSet {
                    key: cron_job_key_text(job_id@),
                    fields: seq![("enabled"@, bool_text(enabled))],
                };
                if enabled {
                    seq![set]
                } else {
                    seq![set, OpView::SortedRemove { key: CRON_SCHEDULE_KEY@, member: job_id@ }]
                }
            },
    {
        let fields = vec![field("enabled", format_bool(enabled))];
        assert(pairs_view(fields@) =~= seq![("enabled"@, bool_text(enabled))]);
        let set = RedisOp::HashSet { key: cron_job_key(job_id), fields };
        let r = if enabled {
            vec![set]
        } else {
            vec![
                set,
                RedisOp::SortedRemove { key: owned(CRON_SCHEDULE_KEY), member: owned(job_id) },
            ]
        };
        assert(ops_view(r@) =~= {
            let set = OpView::HashSet {
                key: cron_job_key_text(job_id@),
                fields: seq![("enabled"@, bool_text(enabled))],
            };
            if enabled {
                seq![set]
            } else {
                seq![set, OpView::SortedRemove { key: CRON_SCHEDULE_KEY@, member: job_id@ }]
            }
        });
        r
    }

    /// The writes that follow enabling job `job_id` whose hash now holds `fields`, at `now`.
    pub fn reschedule_enabled(job_id: &str, fields: &Vec<(String, String)>, now: UtcTime) -> (r:
        Vec<RedisOp>)
        requires
            now.wf(),
        ensures
            ops_view(r@) == enable_reschedule_ops(job_id@, pairs_view(fields@), now),
    {
        let expr = match hash_get(fields, "cron_expression") {
            Some(e) => e,
            None => {
                let r: Vec<RedisOp> = Vec::new();
                assert(ops_view(r@) =~= Seq::<OpView>::empty());
                return r;
            },
        };
        match CronParser::next_execution(expr.as_str(), now) {
            Ok(next) => {
                let next_fields = vec![field("next_run", format_rfc3339(next))];
                assert(pairs_view(next_fields@) =~= seq![
                    ("next_run"@, rfc3339_text(next.secs, next.nanos)),
                ]);
                let r = vec![
                    RedisOp::HashSet { key: cron_job_key(job_id), fields: next_fields },
                    RedisOp::SortedAdd {
                        key: owned(CRON_SCHEDULE_KEY),
                        member: owned(job_id),
                        score: next.secs,
                    },
                ];
                assert(ops_view(r@) =~= enable_reschedule_ops(job_id@, pairs_view(fields@), now));
                r
            },
            Err(_) => {
                let r: Vec<RedisOp> = Vec::new();
                assert(ops_view(r@) =~= enable_reschedule_ops(job_id@, pairs_view(fields@), now));
                r
            },
        }
    }

    /// The writes that delete job `job_id`: its hash, and its place in the schedule.
    pub fn delete_cron_job(job_id: &str) -> (r: Vec<RedisOp>)
        ensures
            ops_view(r@) == seq![
                OpView::Delete { key: cron_job_key_text(job_id@) },
                OpView::SortedRemove { key: CRON_SCHEDULE_KEY@, member: job_id@ },
            ],
    {
        let r = vec![
            RedisOp::Delete { key: cron_job_key(job_id) },
            RedisOp::SortedRemove { key: owned(CRON_SCHEDULE_KEY), member: owned(job_id) },
        ];
        assert(ops_view(r@) =~= seq![
            OpView::Delete { key: cron_job_key_text(job_id@) },
            OpView::SortedRemove { key: CRON_SCHEDULE_KEY@, member: job_id@ },
        ]);
        r
    }

    /// Running a stored job by hand at `now` as new job `new_job_id`: an error where there
    /// is no such job or it has no payload; otherwise the writes that enqueue its payload
    /// on its queue (`default` where it names none), whether or not it is enabled.
    pub fn run_now(fields: &Vec<(String, String)>, new_job_id: &str, now: UtcTime) -> (r: Result<
        Vec<RedisOp>,
        CronRunError,
    >)
        requires
            now.wf(),
        ensures
            fields.len() == 0 ==> r == Err::<Vec<RedisOp>, CronRunError>(CronRunError::NotFound),
            fields.len() != 0 ==> match lookup(pairs_view(fields@), "payload"@) {
                None => r == Err::<Vec<RedisOp>, CronRunError>(CronRunError::MissingPayload),
                Some(payload) => r matches Ok(ops) && ops_view(ops@) == enqueue_recorded_ops(
                    new_job_id@,
                    queue_in(pairs_view(fields@)),
                    payload,
                    rfc3339_text(now.secs, now.nanos),
                ),
            },
    {
        if fields.len() == 0 {
            return Err(CronRunError::NotFound);
        }
        let payload = match hash_get(fields, "payload") {
            Some(p) => p,
            None => return Err(CronRunError::MissingPayload),
        };
        let queue = get_or(fields, "queue", "default");
        Ok(enqueue_recorded(new_job_id, queue.as_str(), payload.as_str(), now))
    }
}

/// A due job is not found where its hash is empty, is skipped where its `enabled` field
/// does not read `true`, and is refused where it lacks an expression or, having one, a
/// payload.
pub proof fn law_due_job_is_refused_without_what_it_needs(fields: Seq<(Seq<char>, Seq<char>)>)
    ensures
        fields.len() == 0 ==> run_plan(fields) == CronRunView::NotFound,
        fields.len() > 0 && lookup(fields, "enabled"@) != Some("true"@) ==> run_plan(fields)
            == CronRunView::Disabled,
        fields.len() > 0 && lookup(fields, "enabled"@) == Some("true"@) && lookup(
            fields,
            "cron_expression"@,
        ) is None ==> run_plan(fields) == CronRunView::Invalid(CronRunError::MissingCronExpression),
        fields.len() > 0 && lookup(fields, "enabled"@) == Some("true"@) && lookup(
            fields,
            "cron_expression"@,
        ) is Some && lookup(fields, "payload"@) is None ==> run_plan(fields) == CronRunView::Invalid(
            CronRunError::MissingPayload,
        ),
{
}

/// A due job that is enabled and has an expression and a payload is enqueued with that
/// payload on the queue its hash names, and on `default` only where it names none.
pub proof fn law_due_job_runs_on_its_queue(
    fields: Seq<(Seq<char>, Seq<char>)>,
    payload: Seq<char>,
    expr: Seq<char>,
)
    requires
        fields.len() > 0,
        lookup(fields, "enabled"@) == Some("true"@),
        lookup(fields, "cron_expression"@) == Some(expr),
        lookup(fields, "payload"@) == Some(payload),
    ensures
        lookup(fields, "queue"@) matches Some(q) ==> run_plan(fields) == (CronRunView::Enqueue {
            payload,
            queue: q,
            cron_expression: expr,
        }),
        lookup(fields, "queue"@) is None ==> run_plan(fields) == (CronRunView::Enqueue {
            payload,
            queue: "default"@,
            cron_expression: expr,
        }),
{
}

/// Each field of a listed cron job is the hash field of the same name, or its default
/// where the hash lacks it; the id is the key after the cron job prefix, and the job is
/// enabled exactly where its `enabled` field reads `true`.
pub proof fn law_listed_fields_read_the_hash(key: Seq<char>, fields: Seq<(Seq<char>, Seq<char>)>)
    ensures
        listed_meta(key, fields).id == key.skip(14),
        listed_meta(key, fields).enabled == (lookup(fields, "enabled"@) == Some("true"@)),
        listed_meta(key, fields).last_run == lookup(fields, "last_run"@),
        lookup(fields, "name"@) matches Some(v) ==> listed_meta(key, fields).name == v,
        lookup(fields, "name"@) is None ==> listed_meta(key, fields).name == "Unknown"@,
        lookup(fields, "queue"@) matches Some(v) ==> listed_meta(key, fields).queue == v,
        lookup(fields, "queue"@) is None ==> listed_meta(key, fields).queue == "default"@,
        lookup(fields, "cron_expression"@) matches Some(v) ==> listed_meta(key, fields).cron_expression == v,
        lookup(fields, "cron_expression"@) is None ==> listed_meta(key, fields).cron_expression == ""@,
        lookup(fields, "timezone"@) matches Some(v) ==> listed_meta(key, fields).timezone == v,
        lookup(fields, "timezone"@) is None ==> listed_meta(key, fields).timezone == "UTC"@,
        lookup(fields, "next_run"@) matches Some(v) ==> listed_meta(key, fields).next_run == v,
        lookup(fields, "next_run"@) is None ==> listed_meta(key, fields).next_run == ""@,
        lookup(fields, "created_at"@) matches Some(v) ==> listed_meta(key, fields).created_at == v,
        lookup(fields, "created_at"@) is None ==> listed_meta(key, fields).created_at == ""@,
        lookup(fields, "payload"@) matches Some(v) ==> listed_meta(key, fields).payload == v,
        lookup(fields, "payload"@) is None ==> listed_meta(key, fields).payload == ""@,
{
    reveal_strlit("snm:cron:jobs:");
}

} // verus!
