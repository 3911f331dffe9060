//! Reading the queue's stream replies: which stream entry (id and job id)
//! a claim returned, and how often an entry was delivered.

use vstd::prelude::*;

verus! {

/// A reply of the queue server, as plain values.
#[derive(Debug)]
pub enum Reply {
    Nil,
    Int(i64),
    Bulk(Vec<u8>),
    Simple(String),
    Array(Vec<Reply>),
    Other,
}

/// The text bytes decode to, with each invalid UTF-8 sequence replaced by
/// U+FFFD.
pub uninterp spec fn utf8_lossy(bytes: Seq<u8>) -> Seq<char>;

/// `String::from_utf8_lossy`: the contract names the decoded text as a
/// function of the bytes alone; the replacement rules are not restated.
#[verifier::external_body]
fn lossy_string(bytes: &Vec<u8>) -> (r: String)
    ensures
        r@ == utf8_lossy(bytes@),
{
    String::from_utf8_lossy(bytes.as_slice()).into_owned()
}

/// The field name of the job id in a stream entry.
pub open spec fn job_id_field() -> Seq<u8> {
    seq![106u8, 111u8, 98u8, 95u8, 105u8, 100u8]
}

fn is_job_id_field(k: &Vec<u8>) -> (r: bool)
    ensures
        r == (k@ == job_id_field()),
{
    if k.len() != 6 {
        return false;
    }
    let r = k[0] == 106 && k[1] == 111 && k[2] == 98 && k[3] == 95 && k[4] == 105 && k[5] == 100;
    if r {
        assert(k@ =~= job_id_field());
    }
    r
}

/// The job id among the (field, value) pairs from position `2 * i` on: the
/// value of the last bulk pair whose field is `job_id`.
pub open spec fn job_id_from(fields: Seq<Reply>, prev: Option<Seq<char>>, i: nat) -> Option<Seq<char>>
    decreases fields.len() - 2 * i,
{
    if 2 * i + 1 >= fields.len() {
        prev
    } else {
        let next = match (fields[2 * i as int], fields[2 * i as int + 1]) {
            (Reply::Bulk(k), Reply::Bulk(v)) => if k@ == job_id_field() { Some(utf8_lossy(v@)) } else { prev },
            _ => prev,
        };
        job_id_from(fields, next, i + 1)
    }
}

/// The entry `[id, [field, value, ...]]`: its id (bulk or simple string)
/// and its job id, when both are present.
pub open spec fn spec_stream_entry(entry: Reply) -> Option<(Seq<char>, Seq<char>)> {
    match entry {
        Reply::Array(parts) => if parts@.len() == 0 {
            None
        } else {
            let id = match parts@[0] {
                Reply::Bulk(b) => Some(utf8_lossy(b@)),
                Reply::Simple(s) => Some(s@),
                _ => None,
            };
            match id {
                None => None,
                Some(id) => if parts@.len() < 2 {
                    None
                } else {
                    match parts@[1] {
                        Reply::Array(fields) => match job_id_from(fields@, None, 0) {
                            Some(j) => Some((id, j)),
                            None => None,
                        },
                        _ => None,
                    }
                },
            }
        },
        _ => None,
    }
}

/// The first entry of the list that reads as a stream entry.
pub open spec fn first_entry(entries: Seq<Reply>) -> Option<(Seq<char>, Seq<char>)>
    decreases entries.len(),
{
    if entries.len() == 0 {
        None
    } else {
        match spec_stream_entry(entries[0]) {
            Some(e) => Some(e),
            None => first_entry(entries.drop_first()),
        }
    }
}

pub open spec fn opt_view(o: Option<String>) -> Option<Seq<char>> {
    match o {
        Some(s) => Some(s@),
        None => None,
    }
}

pub open spec fn pair_view(r: Option<(String, String)>) -> Option<(Seq<char>, Seq<char>)> {
    match r {
        Some((a, b)) => Some((a@, b@)),
        None => None,
    }
}

/// Read one stream entry `[id, [field, value, ...]]`.
pub fn parse_stream_entry(entry: &Reply) -> (r: Option<(String, String)>)
    ensures
        pair_view(r) == spec_stream_entry(*entry),
{
    let parts = match entry {
        Reply::Array(p) => p,
        _ => return None,
    };
    if parts.len() == 0 {
        return None;
    }
    let id = match &parts[0] {
        Reply::Bulk(b) => lossy_string(b),
        Reply::Simple(s) => s.clone(),
        _ => return None,
    };
    if parts.len() < 2 {
        return None;
    }
    let fields = match &parts[1] {
        Reply::Array(f) => f,
        _ => return None,
    };
    let mut job_id: Option<String> = None;
    let mut i: usize = 0;
    while i + 1 < fields.len()
        invariant
            i <= fields@.len() + 1,
            i % 2 == 0,
            job_id_from(fields@, None, 0) == job_id_from(fields@, opt_view(job_id), (i / 2) as nat),
        decreases fields.len() - i,
    {
        assert(2 * ((i / 2) as nat) == i);
        match (&fields[i], &fields[i + 1]) {
            (Reply::Bulk(k), Reply::Bulk(v)) => {
                if is_job_id_field(k) {
                    job_id = Some(lossy_string(v));
                }
            },
            _ => {},
        }
        assert((i + 2) / 2 == i / 2 + 1);
        i += 2;
    }
    assert(2 * ((i / 2) as nat) == i);
    match job_id {
        Some(j) => Some((id, j)),
        None => None,
    }
}

/// The first entry of the list that reads as a stream entry.
fn find_entry(entries: &Vec<Reply>) -> (r: Option<(String, String)>)
    ensures
        pair_view(r) == first_entry(entries@),
{
    let mut i: usize = 0;
    assert(entries@.skip(0) =~= entries@);
    while i < entries.len()
        invariant
            i <= entries@.len(),
            first_entry(entries@) == first_entry(entries@.skip(i as int)),
        decreases entries.len() - i,
    {
        assert(entries@.skip(i as int)[0] == entries@[i as int]);
        assert(entries@.skip(i as int).drop_first() =~= entries@.skip(i + 1));
        let e = parse_stream_entry(&entries[i]);
        if e.is_some() {
            return e;
        }
        i += 1;
    }
    None
}

/// The reply to a reclaim: `[cursor, [entries...], [deleted...]]`.
pub open spec fn spec_xautoclaim(reply: Reply) -> Option<(Seq<char>, Seq<char>)> {
    match reply {
        Reply::Array(parts) => if parts@.len() < 2 {
            None
        } else {
            match parts@[1] {
                Reply::Array(entries) => first_entry(entries@),
                _ => None,
            }
        },
        _ => None,
    }
}

/// The first entry a reclaim reply holds.
pub fn parse_xautoclaim_reply(reply: &Reply) -> (r: Option<(String, String)>)
    ensures
        pair_view(r) == spec_xautoclaim(*reply),
{
    let parts = match reply {
        Reply::Array(p) => p,
        _ => return None,
    };
    if parts.len() < 2 {
        return None;
    }
    match &parts[1] {
        Reply::Array(entries) => find_entry(entries),
        _ => None,
    }
}

/// The reply to a group read: `[[stream, [entries...]]]` (nil when empty).
pub open spec fn spec_xreadgroup(reply: Reply) -> Option<(Seq<char>, Seq<char>)> {
    match reply {
        Reply::Array(streams) => if streams@.len() == 0 {
            None
        } else {
            match streams@[0] {
                Reply::Array(stream) => if stream@.len() < 2 {
                    None
                } else {
                    match stream@[1] {
                        Reply::Array(entries) => first_entry(entries@),
                        _ => None,
                    }
                },
                _ => None,
            }
        },
        _ => None,
    }
}

/// The first entry a group read returned.
pub fn parse_xreadgroup_reply(reply: &Reply) -> (r: Option<(String, String)>)
    ensures
        pair_view(r) == spec_xreadgroup(*reply),
{
    let streams = match reply {
        Reply::Array(s) => s,
        _ => return None,
    };
    if streams.len() == 0 {
        return None;
    }
    let stream = match &streams[0] {
        Reply::Array(s) => s,
        _ => return None,
    };
    if stream.len() < 2 {
        return None;
    }
    match &stream[1] {
        Reply::Array(entries) => find_entry(entries),
        _ => None,
    }
}

/// The delivery count in a pending-entries reply
/// `[[id, consumer, idle, delivery-count]]`; 1 when it has none.
pub open spec fn spec_delivery_count(reply: Reply) -> u64 {
    match reply {
        Reply::Array(items) => if items@.len() == 0 {
            1
        } else {
            match items@[0] {
                Reply::Array(fields) => if fields@.len() < 4 {
                    1
                } else {
                    match fields@[3] {
                        Reply::Int(c) => c as u64,
                        _ => 1,
                    }
                },
                _ => 1,
            }
        },
        _ => 1,
    }
}

/// How often the pending entry was delivered.
pub fn delivery_count(reply: &Reply) -> (r: u64)
    ensures
        r == spec_delivery_count(*reply),
{
    let items = match reply {
        Reply::Array(i) => i,
        _ => return 1,
    };
    if items.len() == 0 {
        return 1;
    }
    let fields = match &items[0] {
        Reply::Array(f) => f,
        _ => return 1,
    };
    if fields.len() < 4 {
        return 1;
    }
    match &fields[3] {
        Reply::Int(c) => *c as u64,
        _ => 1,
    }
}

} // verus!
