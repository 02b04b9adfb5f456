//! Queue configuration and the process-wide settings that are written once: the Redis
//! URL, the configured queues and the dashboard's basic-auth credentials.

use crate::keys::{queue_config_key, queue_config_key_text};
use crate::ops::{field, ops_view, pairs_view, OpView, RedisOp};
use crate::text::{decimal, format_u64, owned};
use vstd::prelude::*;

verus! {

/// A queue, the number of workers that serve it and its priority.
#[derive(Clone, Debug)]
pub struct QueueConfig {
    pub name: String,
    pub concurrency: usize,
    pub priority: usize,
}

/// The content of a `QueueConfig`.
pub struct QueueConfigView {
    pub name: Seq<char>,
    pub concurrency: usize,
    pub priority: usize,
}

impl View for QueueConfig {
    type V = QueueConfigView;

    open spec fn view(&self) -> QueueConfigView {
        QueueConfigView { name: self.name@, concurrency: self.concurrency, priority: self.priority }
    }
}

/// The contents of a sequence of queue configurations.
pub open spec fn queues_view(v: Seq<QueueConfig>) -> Seq<QueueConfigView> {
    v.map_values(|q: QueueConfig| q@)
}

impl QueueConfig {
    /// A queue configuration with the given name, concurrency and priority.
    pub fn new(name: &str, concurrency: usize, priority: usize) -> (r: Self)
        ensures
            r@ == (QueueConfigView { name: name@, concurrency, priority }),
    {
        QueueConfig { name: owned(name), concurrency, priority }
    }

    /// One configuration per `(name, concurrency, priority)` triple, in the same order.
    pub fn from_configs(configs: Vec<(&str, usize, usize)>) -> (r: Vec<Self>)
        ensures
            r.len() == configs.len(),
            forall|i: int|
                0 <= i < configs.len() ==> #[trigger] r[i]@ == (QueueConfigView {
                    name: configs[i].0@,
                    concurrency: configs[i].1,
                    priority: configs[i].2,
                }),
    {
        let mut out: Vec<QueueConfig> = Vec::new();
        let mut i: usize = 0;
        while i < configs.len()
            invariant
                i <= configs.len(),
                out.len() == i,
                forall|j: int|
                    0 <= j < i ==> #[trigger] out[j]@ == (QueueConfigView {
                        name: configs[j].0@,
                        concurrency: configs[j].1,
                        priority: configs[j].2,
                    }),
            decreases configs.len() - i,
        {
            let (name, concurrency, priority) = configs[i];
            out.push(QueueConfig::new(name, concurrency, priority));
            i = i + 1;
        }
        out
    }
}

/// The writes that record a queue's configuration for the dashboard: its concurrency and
/// priority in its configuration hash, written together and then once more one by one.
pub open spec fn queue_metadata_ops(q: QueueConfigView) -> Seq<OpView> {
    let key = queue_config_key_text(q.name);
    let c = decimal(q.concurrency as nat);
    let p = decimal(q.priority as nat);
    seq![
        OpView::HashSet { key, fields: seq![("concurrency"@, c), ("priority"@, p)] },
        OpView::HashSet { key, fields: seq![("concurrency"@, c)] },
        OpView::HashSet { key, fields: seq![("priority"@, p)] },
    ]
}

impl QueueConfig {
    /// The writes that record this queue's configuration when the queues are initialized.
    pub fn metadata_ops(&self) -> (r: Vec<RedisOp>)
        ensures
            ops_view(r@) == queue_metadata_ops(self@),
    {
        let both = vec![
            field("concurrency", format_u64(self.concurrency as u64)),
            field("priority", format_u64(self.priority as u64)),
        ];
        let first = vec![field("concurrency", format_u64(self.concurrency as u64))];
        let second = vec![field("priority", format_u64(self.priority as u64))];
        let ghost c = decimal(self.concurrency as nat);
        let ghost p = decimal(self.priority as nat);
        assert(pairs_view(both@) =~= seq![("concurrency"@, c), ("priority"@, p)]);
        assert(pairs_view(first@) =~= seq![("concurrency"@, c)]);
        assert(pairs_view(second@) =~= seq![("priority"@, p)]);
        let name = self.name.as_str();
        let r = vec![
            RedisOp::HashSet { key: queue_config_key(name), fields: both },
            RedisOp::HashSet { key: queue_config_key(name), fields: first },
            RedisOp::HashSet { key: queue_config_key(name), fields: second },
        ];
        assert(ops_view(r@) =~= queue_metadata_ops(self@));
        r
    }
}

/// Credentials that protect the metrics dashboard.
#[derive(Clone, Debug)]
pub struct QrushBasicAuthConfig {
    pub username: String,
    pub password: String,
}

/// The content of a `QrushBasicAuthConfig`.
pub struct BasicAuthView {
    pub username: Seq<char>,
    pub password: Seq<char>,
}

impl View for QrushBasicAuthConfig {
    type V = BasicAuthView;

    open spec fn view(&self) -> BasicAuthView {
        BasicAuthView { username: self.username@, password: self.password@ }
    }
}

/// Errors of the write-once settings.
#[derive(Clone, Copy, Debug, PartialEq, Eq, Structural)]
pub enum ConfigError {
    /// The Redis URL had been set before.
    RedisUrlAlreadySet,
    /// The queues had been set before.
    QueuesAlreadyInitialized,
}

impl ConfigError {
    /// The error's message.
    pub fn message(&self) -> (r: &'static str)
        ensures
            r@ == (match self {
                ConfigError::RedisUrlAlreadySet => "Redis URL already set"@,
                ConfigError::QueuesAlreadyInitialized => "Queues already initialized"@,
            }),
    {
        match self {
            ConfigError::RedisUrlAlreadySet => "Redis URL already set",
            ConfigError::QueuesAlreadyInitialized => "Queues already initialized",
        }
    }
}

/// The settings that are each written at most once: the Redis URL, the queues and the
/// dashboard credentials (which may be written as "none").
pub struct QrushSettings {
    redis_url: Option<String>,
    queues: Option<Vec<QueueConfig>>,
    basic_auth: Option<Option<QrushBasicAuthConfig>>,
}

/// The content of `QrushSettings`: `None` for a slot not written yet.
pub struct SettingsView {
    pub redis_url: Option<Seq<char>>,
    pub queues: Option<Seq<QueueConfigView>>,
    pub basic_auth: Option<Option<BasicAuthView>>,
}

/// A write-once slot after a write of `v`: it keeps what it held, or takes `v` if empty.
pub open spec fn write_once<T>(slot: Option<T>, v: T) -> Option<T> {
    if slot is Some {
        slot
    } else {
        Some(v)
    }
}

/// The settings after `set_redis_url(url)`.
pub open spec fn with_redis_url(s: SettingsView, url: Seq<char>) -> SettingsView {
    SettingsView { redis_url: write_once(s.redis_url, url), ..s }
}

/// The settings after `set_global_queues(queues)`.
pub open spec fn with_queues(s: SettingsView, queues: Seq<QueueConfigView>) -> SettingsView {
    SettingsView { queues: write_once(s.queues, queues), ..s }
}

/// The settings after `set_basic_auth(auth)`.
pub open spec fn with_basic_auth(s: SettingsView, auth: Option<BasicAuthView>) -> SettingsView {
    SettingsView { basic_auth: write_once(s.basic_auth, auth), ..s }
}

/// The credentials in force: those written, if any were written and they were not "none".
pub open spec fn auth_in_force(s: SettingsView) -> Option<BasicAuthView> {
    match s.basic_auth {
        Some(Some(a)) => Some(a),
        _ => None,
    }
}

impl View for QrushSettings {
    type V = SettingsView;

    closed spec fn view(&self) -> SettingsView {
        SettingsView {
            redis_url: match self.redis_url {
                Some(u) => Some(u@),
                None => None,
            },
            queues: match self.queues {
                Some(q) => Some(queues_view(q@)),
                None => None,
            },
            basic_auth: match self.basic_auth {
                Some(Some(a)) => Some(Some(a@)),
                Some(None) => Some(None),
                None => None,
            },
        }
    }
}

impl QrushSettings {
    /// Settings with nothing written yet.
    pub fn new() -> (r: Self)
        ensures
            r@.redis_url is None,
            r@.queues is None,
            r@.basic_auth is None,
    {
        QrushSettings { redis_url: None, queues: None, basic_auth: None }
    }

    /// Whether the Redis URL has been written.
    pub fn has_redis_url(&self) -> (r: bool)
        ensures
            r == self@.redis_url is Some,
    {
        self.redis_url.is_some()
    }

    /// Whether the queues have been written.
    pub fn has_queues(&self) -> (r: bool)
        ensures
            r == self@.queues is Some,
    {
        self.queues.is_some()
    }
}

/// The configured queues. Reading them before they are set is an error of the caller's.
pub fn get_global_queues(settings: &QrushSettings) -> (r: &[QueueConfig])
    requires
        settings@.queues is Some,
    ensures
        queues_view(r@) == settings@.queues.unwrap(),
{
    settings.queues.as_ref().unwrap().as_slice()
}

/// Writes the queues once; a second write is refused and changes nothing.
pub fn set_global_queues(settings: &mut QrushSettings, configs: Vec<QueueConfig>) -> (r: Result<
    (),
    ConfigError,
>)
    ensures
        r is Err <==> old(settings)@.queues is Some,
        r matches Err(e) ==> e == ConfigError::QueuesAlreadyInitialized,
        final(settings)@ == with_queues(old(settings)@, queues_view(configs@)),
{
    if settings.queues.is_some() {
        Err(ConfigError::QueuesAlreadyInitialized)
    } else {
        settings.queues = Some(configs);
        Ok(())
    }
}

/// The Redis URL. Reading it before it is set is an error of the caller's.
pub fn get_redis_url(settings: &QrushSettings) -> (r: &str)
    requires
        settings@.redis_url is Some,
    ensures
        r@ == settings@.redis_url.unwrap(),
{
    settings.redis_url.as_ref().unwrap().as_str()
}

/// Writes the Redis URL once; a second write is refused and changes nothing.
pub fn set_redis_url(settings: &mut QrushSettings, url: String) -> (r: Result<(), ConfigError>)
    ensures
        r is Err <==> old(settings)@.redis_url is Some,
        r matches Err(e) ==> e == ConfigError::RedisUrlAlreadySet,
        final(settings)@ == with_redis_url(old(settings)@, url@),
{
    if settings.redis_url.is_some() {
        Err(ConfigError::RedisUrlAlreadySet)
    } else {
        settings.redis_url = Some(url);
        Ok(())
    }
}

/// Writes the dashboard credentials once (possibly as "none"); later writes are ignored.
pub fn set_basic_auth(settings: &mut QrushSettings, auth: Option<QrushBasicAuthConfig>)
    ensures
        final(settings)@ == with_basic_auth(
            old(settings)@,
            match auth {
                Some(a) => Some(a@),
                None => None,
            },
        ),
{
    if settings.basic_auth.is_none() {
        settings.basic_auth = Some(auth);
    }
}

/// The dashboard credentials in force, if any.
pub fn get_basic_auth(settings: &QrushSettings) -> (r: Option<&QrushBasicAuthConfig>)
    ensures
        match r {
            Some(a) => auth_in_force(settings@) == Some(a@),
            None => auth_in_force(settings@) is None,
        },
{
    match &settings.basic_auth {
        Some(Some(a)) => Some(a),
        _ => None,
    }
}

/// A value written into an empty write-once slot is what the slot holds afterwards.
pub proof fn law_write_then_read<T>(v: T)
    ensures
        write_once(None, v) == Some(v),
{
}

/// A write into a slot that holds a value leaves the value as it was.
pub proof fn law_written_slot_is_kept<T>(slot: Option<T>, v: T)
    requires
        slot is Some,
    ensures
        write_once(slot, v) == slot,
{
}

/// Writing the Redis URL into fresh settings makes it the URL read back, and leaves the
/// queues and credentials untouched; a second URL written afterwards changes nothing.
pub proof fn law_redis_url_written_once(s: SettingsView, url: Seq<char>, later: Seq<char>)
    requires
        s.redis_url is None,
    ensures
        with_redis_url(s, url).redis_url == Some(url),
        with_redis_url(s, url).queues == s.queues,
        with_redis_url(s, url).basic_auth == s.basic_auth,
        with_redis_url(with_redis_url(s, url), later) == with_redis_url(s, url),
{
}

/// Writing the queues into fresh settings makes them the queues read back, and leaves
/// the URL and credentials untouched; queues written afterwards change nothing.
pub proof fn law_queues_written_once(
    s: SettingsView,
    queues: Seq<QueueConfigView>,
    later: Seq<QueueConfigView>,
)
    requires
        s.queues is None,
    ensures
        with_queues(s, queues).queues == Some(queues),
        with_queues(s, queues).redis_url == s.redis_url,
        with_queues(s, queues).basic_auth == s.basic_auth,
        with_queues(with_queues(s, queues), later) == with_queues(s, queues),
{
}

/// The first credentials written are those in force from then on, whatever is written
/// afterwards; writing "none" first leaves the dashboard open for good.
pub proof fn law_basic_auth_first_write_wins(
    s: SettingsView,
    auth: Option<BasicAuthView>,
    later: Option<BasicAuthView>,
)
    requires
        s.basic_auth is None,
    ensures
        auth_in_force(with_basic_auth(s, auth)) == auth,
        auth_in_force(with_basic_auth(with_basic_auth(s, auth), later)) == auth,
{
}

/// One call of a setter on the settings, with what it writes.
pub enum SettingWrite {
    RedisUrl(Seq<char>),
    Queues(Seq<QueueConfigView>),
    BasicAuth(Option<BasicAuthView>),
}

/// The settings after one setter call.
pub open spec fn apply_write(s: SettingsView, w: SettingWrite) -> SettingsView {
    match w {
        SettingWrite::RedisUrl(u) => with_redis_url(s, u),
        SettingWrite::Queues(q) => with_queues(s, q),
        SettingWrite::BasicAuth(a) => with_basic_auth(s, a),
    }
}

/// The settings after a sequence of setter calls, in order.
pub open spec fn apply_writes(s: SettingsView, ws: Seq<SettingWrite>) -> SettingsView
    decreases ws.len(),
{
    if ws.len() == 0 {
        s
    } else {
        apply_write(apply_writes(s, ws.drop_last()), ws.last())
    }
}

/// The URL of the first `set_redis_url` call among `ws`, if any.
pub open spec fn first_redis_url(ws: Seq<SettingWrite>) -> Option<Seq<char>>
    decreases ws.len(),
{
    if ws.len() == 0 {
        None
    } else {
        match first_redis_url(ws.drop_last()) {
            Some(u) => Some(u),
            None => match ws.last() {
                SettingWrite::RedisUrl(u) => Some(u),
                _ => None,
            },
        }
    }
}

/// The queues of the first `set_global_queues` call among `ws`, if any.
pub open spec fn first_queues(ws: Seq<SettingWrite>) -> Option<Seq<QueueConfigView>>
    decreases ws.len(),
{
    if ws.len() == 0 {
        None
    } else {
        match first_queues(ws.drop_last()) {
            Some(q) => Some(q),
            None => match ws.last() {
                SettingWrite::Queues(q) => Some(q),
                _ => None,
            },
        }
    }
}

/// The credentials (possibly "none") of the first `set_basic_auth` call among `ws`, if
/// any.
pub open spec fn first_basic_auth(ws: Seq<SettingWrite>) -> Option<Option<BasicAuthView>>
    decreases ws.len(),
{
    if ws.len() == 0 {
        None
    } else {
        match first_basic_auth(ws.drop_last()) {
            Some(a) => Some(a),
            None => match ws.last() {
                SettingWrite::BasicAuth(a) => Some(a),
                _ => None,
            },
        }
    }
}

/// Calls made in two runs are the calls of the first run followed by those of the second.
pub proof fn lemma_apply_writes_append(s: SettingsView, a: Seq<SettingWrite>, b: Seq<SettingWrite>)
    ensures
        apply_writes(s, a + b) == apply_writes(apply_writes(s, a), b),
    decreases b.len(),
{
    if b.len() == 0 {
        assert(a + b =~= a);
    } else {
        lemma_apply_writes_append(s, a, b.drop_last());
        assert((a + b).drop_last() =~= a + b.drop_last());
    }
}

/// After any sequence of setter calls, the Redis URL read back is the one set before them,
/// or else the first one written among them; it stays unset where none was written.
pub proof fn law_redis_url_after_writes(s: SettingsView, ws: Seq<SettingWrite>)
    ensures
        apply_writes(s, ws).redis_url == match s.redis_url {
            Some(u) => Some(u),
            None => first_redis_url(ws),
        },
    decreases ws.len(),
{
    if ws.len() > 0 {
        law_redis_url_after_writes(s, ws.drop_last());
    }
}

/// After any sequence of setter calls, the queues read back are those set before them, or
/// else the first ones written among them; they stay unset where none were written.
pub proof fn law_queues_after_writes(s: SettingsView, ws: Seq<SettingWrite>)
    ensures
        apply_writes(s, ws).queues == match s.queues {
            Some(q) => Some(q),
            None => first_queues(ws),
        },
    decreases ws.len(),
{
    if ws.len() > 0 {
        law_queues_after_writes(s, ws.drop_last());
    }
}

/// After any sequence of setter calls on settings whose credentials were never written,
/// the credentials in force are those of the first `set_basic_auth` call (none where it
/// wrote "none"), and there are none where no such call was made.
pub proof fn law_basic_auth_after_writes(s: SettingsView, ws: Seq<SettingWrite>)
    requires
        s.basic_auth is None,
    ensures
        auth_in_force(apply_writes(s, ws)) == match first_basic_auth(ws) {
            Some(a) => a,
            None => None,
        },
    decreases ws.len(),
{
    lemma_basic_auth_slot(s, ws);
}

/// The credentials slot after a sequence of setter calls.
proof fn lemma_basic_auth_slot(s: SettingsView, ws: Seq<SettingWrite>)
    ensures
        apply_writes(s, ws).basic_auth == match s.basic_auth {
            Some(a) => Some(a),
            None => first_basic_auth(ws),
        },
    decreases ws.len(),
{
    if ws.len() > 0 {
        lemma_basic_auth_slot(s, ws.drop_last());
    }
}

/// Once `set_redis_url(u)` has succeeded (the URL was unset when it was called), `u` is
/// the URL read back after any later calls.
pub proof fn law_accepted_redis_url_lasts(
    s: SettingsView,
    before: Seq<SettingWrite>,
    u: Seq<char>,
    after: Seq<SettingWrite>,
)
    requires
        apply_writes(s, before).redis_url is None,
    ensures
        apply_writes(s, before + seq![SettingWrite::RedisUrl(u)] + after).redis_url == Some(u),
{
    let w = seq![SettingWrite::RedisUrl(u)];
    lemma_apply_writes_append(s, before + w, after);
    lemma_apply_writes_append(s, before, w);
    assert(w.drop_last() =~= Seq::<SettingWrite>::empty());
    assert(w.last() == SettingWrite::RedisUrl(u));
    assert(apply_writes(apply_writes(s, before), w.drop_last()) == apply_writes(s, before));
    assert(apply_writes(apply_writes(s, before), w).redis_url == Some(u));
    law_redis_url_after_writes(apply_writes(s, before + w), after);
}

/// Once `set_global_queues(q)` has succeeded (no queues were set when it was called), `q`
/// is what is read back after any later calls, item for item and in order.
pub proof fn law_accepted_queues_last(
    s: SettingsView,
    before: Seq<SettingWrite>,
    q: Seq<QueueConfigView>,
    after: Seq<SettingWrite>,
)
    requires
        apply_writes(s, before).queues is None,
    ensures
        apply_writes(s, before + seq![SettingWrite::Queues(q)] + after).queues == Some(q),
{
    let w = seq![SettingWrite::Queues(q)];
    lemma_apply_writes_append(s, before + w, after);
    lemma_apply_writes_append(s, before, w);
    assert(w.drop_last() =~= Seq::<SettingWrite>::empty());
    assert(w.last() == SettingWrite::Queues(q));
    assert(apply_writes(apply_writes(s, before), w.drop_last()) == apply_writes(s, before));
    assert(apply_writes(apply_writes(s, before), w).queues == Some(q));
    law_queues_after_writes(apply_writes(s, before + w), after);
}

} // verus!
