//! The writes each queue operation makes to a job's stored fields, and what
//! the status read back from the fields says after them.
//!
//! A write of several fields replaces the value of each field of the same
//! name and adds the others after the stored ones; reading takes a field's
//! value by name.

use vstd::prelude::*;
use vstd::string::StringExecFns;

use crate::jobs::{
    failure_state, field_value, field_views, fields_state, lemma_state_roundtrip, spec_is_terminal,
    spec_state_str, spec_status_parts, state_to_str, JobState,
};
use crate::text::{append_decimal, decimal_string, lemma_parse_decimal_string, parse_unsigned_spec};

verus! {

/// Stored fields as (name, value) texts.
pub type Fields = Seq<(Seq<char>, Seq<char>)>;

/// One field written: it replaces the value of the first field of that
/// name, or is added after the others.
pub open spec fn hash_set(f: Fields, k: Seq<char>, v: Seq<char>) -> Fields
    decreases f.len(),
{
    if f.len() == 0 {
        seq![(k, v)]
    } else if f[0].0 == k {
        seq![(k, v)] + f.drop_first()
    } else {
        seq![f[0]] + hash_set(f.drop_first(), k, v)
    }
}

/// Several fields written in order.
pub open spec fn hash_set_all(f: Fields, w: Fields) -> Fields
    decreases w.len(),
{
    if w.len() == 0 {
        f
    } else {
        hash_set_all(hash_set(f, w[0].0, w[0].1), w.drop_first())
    }
}

/// The value a list of writes leaves in a field: the last one written.
pub open spec fn written(w: Fields, k: Seq<char>) -> Option<Seq<char>>
    decreases w.len(),
{
    if w.len() == 0 {
        None
    } else {
        match written(w.drop_first(), k) {
            Some(v) => Some(v),
            None => if w[0].0 == k {
                Some(w[0].1)
            } else {
                None
            },
        }
    }
}

/// After writing a field, reading it gives the written value and reading
/// any other field gives what it held before.
pub proof fn lemma_hash_set_value(f: Fields, k: Seq<char>, v: Seq<char>, k2: Seq<char>)
    ensures
        field_value(hash_set(f, k, v), k2) == if k2 == k { Some(v) } else { field_value(f, k2) },
        hash_set(f, k, v).len() > 0,
    decreases f.len(),
{
    let h = hash_set(f, k, v);
    if f.len() == 0 {
        assert(h.drop_first() =~= Seq::<(Seq<char>, Seq<char>)>::empty());
        assert(field_value(h.drop_first(), k2) is None);
        assert(field_value(f, k2) is None);
    } else if f[0].0 == k {
        assert(h.drop_first() =~= f.drop_first());
        assert(h[0] == (k, v));
        if k2 != k {
            assert(field_value(h, k2) == field_value(h.drop_first(), k2));
            assert(field_value(f, k2) == field_value(f.drop_first(), k2));
        }
    } else {
        lemma_hash_set_value(f.drop_first(), k, v, k2);
        assert(h.drop_first() =~= hash_set(f.drop_first(), k, v));
        assert(h[0] == f[0]);
        if f[0].0 != k2 {
            assert(field_value(h, k2) == field_value(h.drop_first(), k2));
            assert(field_value(f, k2) == field_value(f.drop_first(), k2));
        }
    }
}

/// After several writes, a field holds the last value written to it, or
/// what it held before when none was.
pub proof fn lemma_hash_set_all_value(f: Fields, w: Fields, k: Seq<char>)
    ensures
        field_value(hash_set_all(f, w), k) == match written(w, k) {
            Some(v) => Some(v),
            None => field_value(f, k),
        },
        w.len() > 0 ==> hash_set_all(f, w).len() > 0,
    decreases w.len(),
{
    if w.len() > 0 {
        let g = hash_set(f, w[0].0, w[0].1);
        lemma_hash_set_value(f, w[0].0, w[0].1, k);
        lemma_hash_set_all_value(g, w.drop_first(), k);
        lemma_hash_set_all_len(g, w.drop_first());
    }
}

proof fn lemma_hash_set_all_len(f: Fields, w: Fields)
    requires
        f.len() > 0,
    ensures
        hash_set_all(f, w).len() > 0,
    decreases w.len(),
{
    if w.len() > 0 {
        lemma_hash_set_value(f, w[0].0, w[0].1, w[0].0);
        lemma_hash_set_all_len(hash_set(f, w[0].0, w[0].1), w.drop_first());
    }
}

/// The state a failure with this code leaves the job in.
pub open spec fn spec_failure_state(code: Seq<char>) -> JobState {
    if code == "CANCELLED"@ {
        JobState::Cancelled
    } else {
        JobState::Failed
    }
}

/// The fields a job is created with.
pub open spec fn queued_writes(created_at: Seq<char>) -> Fields {
    seq![
        ("state"@, spec_state_str(JobState::Queued)),
        ("stage"@, "queued"@),
        ("progress_percent"@, "0"@),
        ("created_at"@, created_at),
    ]
}

/// The fields a worker writes when it starts the job.
pub open spec fn running_writes(started_at: Seq<char>) -> Fields {
    seq![
        ("state"@, spec_state_str(JobState::Running)),
        ("stage"@, "starting"@),
        ("started_at"@, started_at),
        ("heartbeat_at"@, started_at),
    ]
}

/// The fields a progress report writes.
pub open spec fn progress_writes(stage: Seq<char>, percent: u32, routes_found: u64, now: Seq<char>) -> Fields {
    seq![
        ("stage"@, stage),
        ("progress_percent"@, decimal_string(percent as nat)),
        ("routes_found"@, decimal_string(routes_found as nat)),
        ("heartbeat_at"@, now),
    ]
}

/// The fields written when the job succeeds.
pub open spec fn succeeded_writes(finished_at: Seq<char>) -> Fields {
    seq![
        ("state"@, spec_state_str(JobState::Succeeded)),
        ("stage"@, "done"@),
        ("progress_percent"@, "100"@),
        ("finished_at"@, finished_at),
    ]
}

/// The fields written when the job fails with an error code and message.
pub open spec fn failed_writes(code: Seq<char>, message: Seq<char>, finished_at: Seq<char>) -> Fields {
    seq![
        ("state"@, spec_state_str(spec_failure_state(code))),
        ("finished_at"@, finished_at),
        ("error_code"@, code),
        ("error_message"@, message),
    ]
}

/// The fields written when a queued job is cancelled.
pub open spec fn cancelled_writes(finished_at: Seq<char>) -> Fields {
    seq![
        ("state"@, spec_state_str(JobState::Cancelled)),
        ("finished_at"@, finished_at),
    ]
}

fn pair(name: &str, value: &str) -> (r: (String, String))
    ensures
        r.0@ == name@,
        r.1@ == value@,
{
    (String::from_str(name), String::from_str(value))
}

fn decimal(n: u64) -> (r: String)
    ensures
        r@ == decimal_string(n as nat),
{
    let mut s = String::new();
    append_decimal(&mut s, n);
    assert(s@ =~= decimal_string(n as nat));
    s
}

/// The fields a submitted job is stored with.
pub fn queued_fields(created_at: &str) -> (r: Vec<(String, String)>)
    ensures
        field_views(r@) == queued_writes(created_at@),
{
    let v = vec![
        pair("state", state_to_str(JobState::Queued)),
        pair("stage", "queued"),
        pair("progress_percent", "0"),
        pair("created_at", created_at),
    ];
    assert(field_views(v@) =~= queued_writes(created_at@));
    v
}

/// The fields a worker writes when it starts a job.
pub fn running_fields(started_at: &str) -> (r: Vec<(String, String)>)
    ensures
        field_views(r@) == running_writes(started_at@),
{
    let v = vec![
        pair("state", state_to_str(JobState::Running)),
        pair("stage", "starting"),
        pair("started_at", started_at),
        pair("heartbeat_at", started_at),
    ];
    assert(field_views(v@) =~= running_writes(started_at@));
    v
}

/// The fields a progress report writes (numbers in decimal).
pub fn progress_fields(stage: &str, percent: u32, routes_found: u64, now: &str) -> (r: Vec<(String, String)>)
    ensures
        field_views(r@) == progress_writes(stage@, percent, routes_found, now@),
{
    let p = decimal(percent as u64);
    let routes = decimal(routes_found);
    let v = vec![
        pair("stage", stage),
        (String::from_str("progress_percent"), p),
        (String::from_str("routes_found"), routes),
        pair("heartbeat_at", now),
    ];
    assert(field_views(v@) =~= progress_writes(stage@, percent, routes_found, now@));
    v
}

/// The fields written when a job succeeds.
pub fn succeeded_fields(finished_at: &str) -> (r: Vec<(String, String)>)
    ensures
        field_views(r@) == succeeded_writes(finished_at@),
{
    let v = vec![
        pair("state", state_to_str(JobState::Succeeded)),
        pair("stage", "done"),
        pair("progress_percent", "100"),
        pair("finished_at", finished_at),
    ];
    assert(field_views(v@) =~= succeeded_writes(finished_at@));
    v
}

/// The fields written when a job fails: the code `CANCELLED` marks it
/// cancelled, any other code failed.
pub fn failed_fields(code: &str, message: &str, finished_at: &str) -> (r: Vec<(String, String)>)
    ensures
        field_views(r@) == failed_writes(code@, message@, finished_at@),
{
    let v = vec![
        pair("state", state_to_str(failure_state(code))),
        pair("finished_at", finished_at),
        pair("error_code", code),
        pair("error_message", message),
    ];
    assert(field_views(v@) =~= failed_writes(code@, message@, finished_at@));
    v
}

/// The fields written when a queued job is cancelled.
pub fn cancelled_fields(finished_at: &str) -> (r: Vec<(String, String)>)
    ensures
        field_views(r@) == cancelled_writes(finished_at@),
{
    let v = vec![pair("state", state_to_str(JobState::Cancelled)), pair("finished_at", finished_at)];
    assert(field_views(v@) =~= cancelled_writes(finished_at@));
    v
}

// ---------------------------------------------------------------------------
// What the status reads back after each operation
// ---------------------------------------------------------------------------

/// The queue position a rank gives a queued job (1-based).
pub open spec fn queue_position_of(rank: Option<i64>) -> Option<u32> {
    match rank {
        Some(r) => Some((r + 1) as u32),
        None => None,
    }
}

proof fn lemma_written_4(
    a: (Seq<char>, Seq<char>),
    b: (Seq<char>, Seq<char>),
    c: (Seq<char>, Seq<char>),
    d: (Seq<char>, Seq<char>),
    k: Seq<char>,
)
    ensures
        written(seq![a, b, c, d], k) == if d.0 == k {
            Some(d.1)
        } else if c.0 == k {
            Some(c.1)
        } else if b.0 == k {
            Some(b.1)
        } else if a.0 == k {
            Some(a.1)
        } else {
            None
        },
{
    let w = seq![a, b, c, d];
    assert(w.drop_first() =~= seq![b, c, d]);
    assert(seq![b, c, d].drop_first() =~= seq![c, d]);
    assert(seq![c, d].drop_first() =~= seq![d]);
    assert(seq![d].drop_first() =~= Seq::<(Seq<char>, Seq<char>)>::empty());
    reveal_with_fuel(written, 5);
}

proof fn lemma_written_2(a: (Seq<char>, Seq<char>), b: (Seq<char>, Seq<char>), k: Seq<char>)
    ensures
        written(seq![a, b], k) == if b.0 == k {
            Some(b.1)
        } else if a.0 == k {
            Some(a.1)
        } else {
            None
        },
{
    assert(seq![a, b].drop_first() =~= seq![b]);
    assert(seq![b].drop_first() =~= Seq::<(Seq<char>, Seq<char>)>::empty());
    reveal_with_fuel(written, 3);
}

/// The stored field names are distinct.
proof fn lemma_field_names_distinct()
    ensures
        "state"@ != "stage"@,
        "state"@ != "progress_percent"@,
        "state"@ != "created_at"@,
        "state"@ != "started_at"@,
        "state"@ != "heartbeat_at"@,
        "state"@ != "routes_found"@,
        "state"@ != "finished_at"@,
        "state"@ != "error_code"@,
        "state"@ != "error_message"@,
        "state"@ != "ram_used_bytes"@,
        "stage"@ != "progress_percent"@,
        "stage"@ != "created_at"@,
        "stage"@ != "started_at"@,
        "stage"@ != "heartbeat_at"@,
        "stage"@ != "routes_found"@,
        "stage"@ != "finished_at"@,
        "stage"@ != "error_code"@,
        "stage"@ != "error_message"@,
        "stage"@ != "ram_used_bytes"@,
        "progress_percent"@ != "created_at"@,
        "progress_percent"@ != "started_at"@,
        "progress_percent"@ != "heartbeat_at"@,
        "progress_percent"@ != "routes_found"@,
        "progress_percent"@ != "finished_at"@,
        "progress_percent"@ != "error_code"@,
        "progress_percent"@ != "error_message"@,
        "progress_percent"@ != "ram_used_bytes"@,
        "created_at"@ != "started_at"@,
        "created_at"@ != "heartbeat_at"@,
        "created_at"@ != "routes_found"@,
        "created_at"@ != "finished_at"@,
        "created_at"@ != "error_code"@,
        "created_at"@ != "error_message"@,
        "created_at"@ != "ram_used_bytes"@,
        "started_at"@ != "heartbeat_at"@,
        "started_at"@ != "routes_found"@,
        "started_at"@ != "finished_at"@,
        "started_at"@ != "error_code"@,
        "started_at"@ != "error_message"@,
        "started_at"@ != "ram_used_bytes"@,
        "heartbeat_at"@ != "routes_found"@,
        "heartbeat_at"@ != "finished_at"@,
        "heartbeat_at"@ != "error_code"@,
        "heartbeat_at"@ != "error_message"@,
        "heartbeat_at"@ != "ram_used_bytes"@,
        "routes_found"@ != "finished_at"@,
        "routes_found"@ != "error_code"@,
        "routes_found"@ != "error_message"@,
        "routes_found"@ != "ram_used_bytes"@,
        "finished_at"@ != "error_code"@,
        "finished_at"@ != "error_message"@,
        "finished_at"@ != "ram_used_bytes"@,
        "error_code"@ != "error_message"@,
        "error_code"@ != "ram_used_bytes"@,
        "error_message"@ != "ram_used_bytes"@,
{
    reveal_strlit("state");
    reveal_strlit("stage");
    reveal_strlit("progress_percent");
    reveal_strlit("created_at");
    reveal_strlit("started_at");
    reveal_strlit("heartbeat_at");
    reveal_strlit("routes_found");
    reveal_strlit("finished_at");
    reveal_strlit("error_code");
    reveal_strlit("error_message");
    reveal_strlit("ram_used_bytes");
    assert("state"@.len() == 5);
    assert("stage"@.len() == 5);
    assert("progress_percent"@.len() == 16);
    assert("created_at"@.len() == 10);
    assert("started_at"@.len() == 10);
    assert("heartbeat_at"@.len() == 12);
    assert("routes_found"@.len() == 12);
    assert("finished_at"@.len() == 11);
    assert("error_code"@.len() == 10);
    assert("error_message"@.len() == 13);
    assert("ram_used_bytes"@.len() == 14);
    assert("state"@[3] != "stage"@[3]);
    assert("created_at"@[0] != "started_at"@[0]);
    assert("created_at"@[0] != "error_code"@[0]);
    assert("started_at"@[0] != "error_code"@[0]);
    assert("heartbeat_at"@[0] != "routes_found"@[0]);
}

proof fn lemma_small_numbers()
    ensures
        parse_unsigned_spec("0"@, u32::MAX as nat) == Some(0nat),
        parse_unsigned_spec("100"@, u32::MAX as nat) == Some(100nat),
{
    reveal_strlit("0");
    reveal_strlit("100");
    assert(decimal_string(0) =~= "0"@);
    assert(decimal_string(1) =~= seq!['1']);
    assert(decimal_string(10) =~= seq!['1', '0']);
    assert(decimal_string(100) =~= "100"@);
    lemma_parse_decimal_string(0, u32::MAX as nat);
    lemma_parse_decimal_string(100, u32::MAX as nat);
}

/// A job just submitted reads back as queued at its place in the waiting
/// queue, in the `queued` stage at 0 percent, with its creation time and
/// no start, finish or error.
pub proof fn lemma_submitted_status(created_at: Seq<char>, rank: Option<i64>)
    ensures
        ({
            let f = hash_set_all(Seq::empty(), queued_writes(created_at));
            &&& f.len() > 0
            &&& spec_status_parts(f, rank) == (JobState::Queued, queue_position_of(rank), "queued"@, 0u32, None::<u64>, None::<u64>)
            &&& field_value(f, "created_at"@) == Some(created_at)
            &&& field_value(f, "started_at"@) is None
            &&& field_value(f, "finished_at"@) is None
            &&& field_value(f, "error_code"@) is None
        }),
{
    let e = Seq::<(Seq<char>, Seq<char>)>::empty();
    let w = queued_writes(created_at);
    lemma_field_names_distinct();
    lemma_small_numbers();
    lemma_state_roundtrip(JobState::Queued);
    lemma_reads_after_4(e, w, "state"@);
    lemma_reads_after_4(e, w, "stage"@);
    lemma_reads_after_4(e, w, "progress_percent"@);
    lemma_reads_after_4(e, w, "routes_found"@);
    lemma_reads_after_4(e, w, "ram_used_bytes"@);
    lemma_reads_after_4(e, w, "created_at"@);
    lemma_reads_after_4(e, w, "started_at"@);
    lemma_reads_after_4(e, w, "finished_at"@);
    lemma_reads_after_4(e, w, "error_code"@);
}

proof fn lemma_reads_after_4(f: Fields, w: Fields, k: Seq<char>)
    requires
        w.len() == 4,
    ensures
        field_value(hash_set_all(f, w), k) == if w[3].0 == k {
            Some(w[3].1)
        } else if w[2].0 == k {
            Some(w[2].1)
        } else if w[1].0 == k {
            Some(w[1].1)
        } else if w[0].0 == k {
            Some(w[0].1)
        } else {
            field_value(f, k)
        },
        hash_set_all(f, w).len() > 0,
{
    lemma_hash_set_all_value(f, w, k);
    lemma_written_4(w[0], w[1], w[2], w[3], k);
    assert(w =~= seq![w[0], w[1], w[2], w[3]]);
}

proof fn lemma_reads_after_2(f: Fields, w: Fields, k: Seq<char>)
    requires
        w.len() == 2,
    ensures
        field_value(hash_set_all(f, w), k) == if w[1].0 == k {
            Some(w[1].1)
        } else if w[0].0 == k {
            Some(w[0].1)
        } else {
            field_value(f, k)
        },
        hash_set_all(f, w).len() > 0,
{
    lemma_hash_set_all_value(f, w, k);
    lemma_written_2(w[0], w[1], k);
    assert(w =~= seq![w[0], w[1]]);
}

/// A job a worker starts reads back as running, without a queue position,
/// in the `starting` stage with its start time; its progress counters,
/// creation and finish times and error are as stored before.
pub proof fn lemma_started_status(f: Fields, started_at: Seq<char>, rank: Option<i64>)
    ensures
        ({
            let g = hash_set_all(f, running_writes(started_at));
            let before = spec_status_parts(f, rank);
            &&& g.len() > 0
            &&& spec_status_parts(g, rank) == (JobState::Running, None::<u32>, "starting"@, before.3, before.4, before.5)
            &&& field_value(g, "started_at"@) == Some(started_at)
            &&& field_value(g, "created_at"@) == field_value(f, "created_at"@)
            &&& field_value(g, "finished_at"@) == field_value(f, "finished_at"@)
            &&& field_value(g, "error_code"@) == field_value(f, "error_code"@)
            &&& field_value(g, "error_message"@) == field_value(f, "error_message"@)
        }),
{
    let w = running_writes(started_at);
    lemma_field_names_distinct();
    lemma_state_roundtrip(JobState::Running);
    lemma_reads_after_4(f, w, "state"@);
    lemma_reads_after_4(f, w, "stage"@);
    lemma_reads_after_4(f, w, "progress_percent"@);
    lemma_reads_after_4(f, w, "routes_found"@);
    lemma_reads_after_4(f, w, "ram_used_bytes"@);
    lemma_reads_after_4(f, w, "started_at"@);
    lemma_reads_after_4(f, w, "created_at"@);
    lemma_reads_after_4(f, w, "finished_at"@);
    lemma_reads_after_4(f, w, "error_code"@);
    lemma_reads_after_4(f, w, "error_message"@);
}

/// A progress report reads back as written: its stage, percent and routes
/// found; the state, queue position and everything else are as stored
/// before.
pub proof fn lemma_progress_status(f: Fields, stage: Seq<char>, percent: u32, routes_found: u64, now: Seq<char>, rank: Option<i64>)
    ensures
        ({
            let g = hash_set_all(f, progress_writes(stage, percent, routes_found, now));
            let before = spec_status_parts(f, rank);
            &&& g.len() > 0
            &&& spec_status_parts(g, rank) == (before.0, before.1, stage, percent, Some(routes_found), before.5)
            &&& field_value(g, "created_at"@) == field_value(f, "created_at"@)
            &&& field_value(g, "started_at"@) == field_value(f, "started_at"@)
            &&& field_value(g, "finished_at"@) == field_value(f, "finished_at"@)
            &&& field_value(g, "error_code"@) == field_value(f, "error_code"@)
            &&& field_value(g, "error_message"@) == field_value(f, "error_message"@)
        }),
{
    let w = progress_writes(stage, percent, routes_found, now);
    lemma_field_names_distinct();
    lemma_parse_decimal_string(percent as nat, u32::MAX as nat);
    lemma_parse_decimal_string(routes_found as nat, u64::MAX as nat);
    lemma_reads_after_4(f, w, "state"@);
    lemma_reads_after_4(f, w, "stage"@);
    lemma_reads_after_4(f, w, "progress_percent"@);
    lemma_reads_after_4(f, w, "routes_found"@);
    lemma_reads_after_4(f, w, "ram_used_bytes"@);
    lemma_reads_after_4(f, w, "started_at"@);
    lemma_reads_after_4(f, w, "created_at"@);
    lemma_reads_after_4(f, w, "finished_at"@);
    lemma_reads_after_4(f, w, "error_code"@);
    lemma_reads_after_4(f, w, "error_message"@);
}

/// A succeeded job reads back as finished: succeeded, in the `done` stage
/// at 100 percent, with its finish time; its routes found, creation and
/// start times and error are as stored before.
pub proof fn lemma_succeeded_status(f: Fields, finished_at: Seq<char>, rank: Option<i64>)
    ensures
        ({
            let g = hash_set_all(f, succeeded_writes(finished_at));
            let before = spec_status_parts(f, rank);
            &&& g.len() > 0
            &&& spec_status_parts(g, rank) == (JobState::Succeeded, None::<u32>, "done"@, 100u32, before.4, before.5)
            &&& spec_is_terminal(JobState::Succeeded)
            &&& field_value(g, "finished_at"@) == Some(finished_at)
            &&& field_value(g, "created_at"@) == field_value(f, "created_at"@)
            &&& field_value(g, "started_at"@) == field_value(f, "started_at"@)
            &&& field_value(g, "error_code"@) == field_value(f, "error_code"@)
            &&& field_value(g, "error_message"@) == field_value(f, "error_message"@)
        }),
{
    let w = succeeded_writes(finished_at);
    lemma_field_names_distinct();
    lemma_small_numbers();
    lemma_state_roundtrip(JobState::Succeeded);
    lemma_reads_after_4(f, w, "state"@);
    lemma_reads_after_4(f, w, "stage"@);
    lemma_reads_after_4(f, w, "progress_percent"@);
    lemma_reads_after_4(f, w, "routes_found"@);
    lemma_reads_after_4(f, w, "ram_used_bytes"@);
    lemma_reads_after_4(f, w, "started_at"@);
    lemma_reads_after_4(f, w, "created_at"@);
    lemma_reads_after_4(f, w, "finished_at"@);
    lemma_reads_after_4(f, w, "error_code"@);
    lemma_reads_after_4(f, w, "error_message"@);
}

/// A failed job reads back as finished with its error: cancelled for the
/// code `CANCELLED`, failed otherwise, with the code, message and finish
/// time written; its progress and its creation and start times are as
/// stored before.
pub proof fn lemma_failed_status(f: Fields, code: Seq<char>, message: Seq<char>, finished_at: Seq<char>, rank: Option<i64>)
    ensures
        ({
            let g = hash_set_all(f, failed_writes(code, message, finished_at));
            let before = spec_status_parts(f, rank);
            &&& g.len() > 0
            &&& spec_status_parts(g, rank) == (spec_failure_state(code), None::<u32>, before.2, before.3, before.4, before.5)
            &&& spec_is_terminal(spec_failure_state(code))
            &&& field_value(g, "error_code"@) == Some(code)
            &&& field_value(g, "error_message"@) == Some(message)
            &&& field_value(g, "finished_at"@) == Some(finished_at)
            &&& field_value(g, "created_at"@) == field_value(f, "created_at"@)
            &&& field_value(g, "started_at"@) == field_value(f, "started_at"@)
        }),
{
    let w = failed_writes(code, message, finished_at);
    lemma_field_names_distinct();
    lemma_state_roundtrip(spec_failure_state(code));
    lemma_reads_after_4(f, w, "state"@);
    lemma_reads_after_4(f, w, "stage"@);
    lemma_reads_after_4(f, w, "progress_percent"@);
    lemma_reads_after_4(f, w, "routes_found"@);
    lemma_reads_after_4(f, w, "ram_used_bytes"@);
    lemma_reads_after_4(f, w, "started_at"@);
    lemma_reads_after_4(f, w, "created_at"@);
    lemma_reads_after_4(f, w, "finished_at"@);
    lemma_reads_after_4(f, w, "error_code"@);
    lemma_reads_after_4(f, w, "error_message"@);
}

/// A cancelled queued job reads back as cancelled with its finish time;
/// everything else is as stored before.
pub proof fn lemma_cancelled_status(f: Fields, finished_at: Seq<char>, rank: Option<i64>)
    ensures
        ({
            let g = hash_set_all(f, cancelled_writes(finished_at));
            let before = spec_status_parts(f, rank);
            &&& g.len() > 0
            &&& spec_status_parts(g, rank) == (JobState::Cancelled, None::<u32>, before.2, before.3, before.4, before.5)
            &&& spec_is_terminal(JobState::Cancelled)
            &&& field_value(g, "finished_at"@) == Some(finished_at)
            &&& field_value(g, "created_at"@) == field_value(f, "created_at"@)
            &&& field_value(g, "started_at"@) == field_value(f, "started_at"@)
            &&& field_value(g, "error_code"@) == field_value(f, "error_code"@)
            &&& field_value(g, "error_message"@) == field_value(f, "error_message"@)
        }),
{
    let w = cancelled_writes(finished_at);
    lemma_field_names_distinct();
    lemma_state_roundtrip(JobState::Cancelled);
    lemma_reads_after_2(f, w, "state"@);
    lemma_reads_after_2(f, w, "stage"@);
    lemma_reads_after_2(f, w, "progress_percent"@);
    lemma_reads_after_2(f, w, "routes_found"@);
    lemma_reads_after_2(f, w, "ram_used_bytes"@);
    lemma_reads_after_2(f, w, "started_at"@);
    lemma_reads_after_2(f, w, "created_at"@);
    lemma_reads_after_2(f, w, "finished_at"@);
    lemma_reads_after_2(f, w, "error_code"@);
    lemma_reads_after_2(f, w, "error_message"@);
}

} // verus!
