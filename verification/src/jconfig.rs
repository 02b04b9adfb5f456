//! What the dashboard shows of a job, read from the job's Redis hash and its payload.

use crate::hash::lookup;
use crate::text::{owned, str_eq};
use vstd::prelude::*;

verus! {

/// A job as the dashboard lists it.
#[derive(Clone, Debug)]
pub struct JobInfo {
    pub id: String,
    pub job_type: String,
    pub queue: Option<String>,
    pub payload: Option<String>,
    pub status: Option<String>,
    pub created_at: Option<String>,
    pub run_at: Option<String>,
}

/// The content of a `JobInfo`.
pub struct JobInfoView {
    pub id: Seq<char>,
    pub job_type: Seq<char>,
    pub queue: Option<Seq<char>>,
    pub payload: Option<Seq<char>>,
    pub status: Option<Seq<char>>,
    pub created_at: Option<Seq<char>>,
    pub run_at: Option<Seq<char>>,
}

/// The content of an optional string.
pub open spec fn opt_view(o: Option<String>) -> Option<Seq<char>> {
    match o {
        Some(s) => Some(s@),
        None => None,
    }
}

impl View for JobInfo {
    type V = JobInfoView;

    open spec fn view(&self) -> JobInfoView {
        JobInfoView {
            id: self.id@,
            job_type: self.job_type@,
            queue: opt_view(self.queue),
            payload: opt_view(self.payload),
            status: opt_view(self.status),
            created_at: opt_view(self.created_at),
            run_at: opt_view(self.run_at),
        }
    }
}

/// The string held by member `name` of the JSON object in `text`, as `serde_json` reads
/// it; `None` where `text` is not JSON, is not an object with that member, or the member
/// is not a string.
pub uninterp spec fn json_string_field(text: Seq<char>, name: Seq<char>) -> Option<Seq<char>>;

/// Parses `text` with `serde_json::from_str::<serde_json::Value>` and reads member `name`
/// with `Value::get` and `Value::as_str`. Trusted: the result is
/// `json_string_field(text, name)`; nothing more is claimed of it.
#[verifier::external_body]
pub(crate) fn json_string_member(text: &str, name: &str) -> (r: Option<String>)
    ensures
        opt_view(r) == json_string_field(text@, name@),
{
    let value: serde_json::Value = match serde_json::from_str(text) {
        Ok(v) => v,
        Err(_) => return None,
    };
    match value.get(name) {
        Some(member) => match member.as_str() {
            Some(text) => Some(text.to_string()),
            None => None,
        },
        None => None,
    }
}

/// The job type named in a payload: its `job_type` member, where that is a string.
pub fn extract_job_type(payload: &str) -> (r: Option<String>)
    ensures
        opt_view(r) == json_string_field(payload@, "job_type"@),
{
    json_string_member(payload, "job_type")
}

/// The dashboard entry of a job known only by its handler's name and queue.
pub open spec fn job_info_of(name: Seq<char>, queue: Seq<char>, id: Seq<char>) -> JobInfoView {
    JobInfoView {
        id,
        job_type: name,
        queue: Some(queue),
        payload: Some("N/A"@),
        status: None,
        created_at: None,
        run_at: None,
    }
}

/// The dashboard entry of job `id` whose handler is named `job_name` and serves
/// `job_queue`: no status or times, and `N/A` in place of the payload.
pub fn to_job_info(job_name: &str, job_queue: &str, id: &str) -> (r: JobInfo)
    ensures
        r@ == job_info_of(job_name@, job_queue@, id@),
{
    JobInfo {
        id: owned(id),
        job_type: owned(job_name),
        queue: Some(owned(job_queue)),
        payload: Some(owned("N/A")),
        status: None,
        created_at: None,
        run_at: None,
    }
}

/// The entry of job `id` before any field of its hash is read.
pub open spec fn blank_job_info(id: Seq<char>) -> JobInfoView {
    JobInfoView {
        id,
        job_type: "unknown"@,
        queue: None,
        payload: None,
        status: None,
        created_at: None,
        run_at: None,
    }
}

/// The entry after reading field `name` with `value`: the known fields are copied, and a
/// payload also sets the job type where it names one; other fields are ignored.
pub open spec fn read_field(info: JobInfoView, name: Seq<char>, value: Seq<char>) -> JobInfoView {
    if name == "queue"@ {
        JobInfoView { queue: Some(value), ..info }
    } else if name == "status"@ {
        JobInfoView { status: Some(value), ..info }
    } else if name == "payload"@ {
        JobInfoView {
            payload: Some(value),
            job_type: match json_string_field(value, "job_type"@) {
                Some(t) => t,
                None => info.job_type,
            },
            ..info
        }
    } else if name == "created_at"@ {
        JobInfoView { created_at: Some(value), ..info }
    } else if name == "run_at"@ {
        JobInfoView { run_at: Some(value), ..info }
    } else {
        info
    }
}

/// The entry after reading the fields in order.
pub open spec fn read_fields(info: JobInfoView, fields: Seq<(Seq<char>, Seq<char>)>) -> JobInfoView
    decreases fields.len(),
{
    if fields.len() == 0 {
        info
    } else {
        read_field(read_fields(info, fields.drop_last()), fields.last().0, fields.last().1)
    }
}

/// The dashboard entry of job `job_id` built from the field/value pairs of its hash, in
/// the order Redis returned them.
pub fn job_info_from_fields(job_id: &str, fields: &Vec<(String, String)>) -> (r: JobInfo)
    ensures
        r@ == read_fields(blank_job_info(job_id@), crate::ops::pairs_view(fields@)),
{
    let mut info = JobInfo {
        id: owned(job_id),
        job_type: owned("unknown"),
        queue: None,
        payload: None,
        status: None,
        created_at: None,
        run_at: None,
    };
    let ghost pv = crate::ops::pairs_view(fields@);
    let mut i: usize = 0;
    while i < fields.len()
        invariant
            i <= fields.len(),
            pv == crate::ops::pairs_view(fields@),
            info@ == read_fields(blank_job_info(job_id@), pv.take(i as int)),
        decreases fields.len() - i,
    {
        let name = fields[i].0.as_str();
        let value = fields[i].1.as_str();
        assert(pv.take(i + 1).drop_last() =~= pv.take(i as int));
        assert(pv[i as int] == (name@, value@));
        if str_eq(name, "queue") {
            info.queue = Some(owned(value));
        } else if str_eq(name, "status") {
            info.status = Some(owned(value));
        } else if str_eq(name, "payload") {
            info.payload = Some(owned(value));
            match extract_job_type(value) {
                Some(t) => {
                    info.job_type = t;
                },
                None => {},
            }
        } else if str_eq(name, "created_at") {
            info.created_at = Some(owned(value));
        } else if str_eq(name, "run_at") {
            info.run_at = Some(owned(value));
        }
        i = i + 1;
    }
    assert(pv.take(fields.len() as int) =~= pv);
    info
}

/// Reading a job's hash gives its id, and for each of the fields `queue`, `status`,
/// `payload`, `created_at` and `run_at` the value the hash holds for it (the last pair of
/// that name), or none where the hash lacks it.
pub proof fn law_job_info_reads_its_fields(id: Seq<char>, fields: Seq<(Seq<char>, Seq<char>)>)
    ensures
        read_fields(blank_job_info(id), fields).id == id,
        read_fields(blank_job_info(id), fields).queue == lookup(fields, "queue"@),
        read_fields(blank_job_info(id), fields).status == lookup(fields, "status"@),
        read_fields(blank_job_info(id), fields).payload == lookup(fields, "payload"@),
        read_fields(blank_job_info(id), fields).created_at == lookup(fields, "created_at"@),
        read_fields(blank_job_info(id), fields).run_at == lookup(fields, "run_at"@),
    decreases fields.len(),
{
    reveal_strlit("queue");
    reveal_strlit("status");
    reveal_strlit("payload");
    reveal_strlit("created_at");
    reveal_strlit("run_at");
    let names = seq!["queue"@, "status"@, "payload"@, "created_at"@, "run_at"@];
    assert(names[1][0] != names[4][0]);
    assert forall|a: int, b: int| 0 <= a < b < 5 implies names[a] != names[b] by {
        if names[a].len() == names[b].len() {
            assert(names[a][0] != names[b][0]);
        }
    }
    assert(names[0] != names[1] && names[0] != names[2] && names[0] != names[3] && names[0]
        != names[4] && names[1] != names[2] && names[1] != names[3] && names[1] != names[4]
        && names[2] != names[3] && names[2] != names[4] && names[3] != names[4]);
    if fields.len() > 0 {
        law_job_info_reads_its_fields(id, fields.drop_last());
    }
}

} // verus!
