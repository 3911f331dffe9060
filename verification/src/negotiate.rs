//! Content negotiation of the job API: request bodies and responses come
//! as JSON or as protobuf, chosen by the `Content-Type` and `Accept`
//! headers.

use vstd::prelude::*;

use crate::meta::eq_ignore_ascii_case;
use crate::text::{chars_of, trim};

verus! {

/// The protobuf media type.
pub const CONTENT_TYPE_PROTOBUF: &'static str = "application/x-protobuf";

/// Request body (or response) decoded from (or encoded as) the negotiated
/// encoding.
pub struct ProtoOrJson<T>(pub T);

/// Whether the client asked for protobuf responses.
#[derive(Clone, Copy, Debug, PartialEq, Eq, Structural)]
pub struct WantsProto(pub bool);

/// The text before the first `c` (all of it without one).
pub open spec fn before_first(s: Seq<char>, c: char) -> Seq<char>
    decreases s.len(),
{
    if s.len() == 0 {
        s
    } else if s[0] == c {
        Seq::empty()
    } else {
        seq![s[0]] + before_first(s.drop_first(), c)
    }
}

/// The media type of a header value, without parameters and whitespace.
pub open spec fn essence(value: Seq<char>) -> Seq<char> {
    trim(before_first(value, ';'))
}

pub open spec fn spec_is_protobuf(value: Seq<char>) -> bool {
    eq_ignore_ascii_case(essence(value), "application/x-protobuf"@)
        || eq_ignore_ascii_case(essence(value), "application/protobuf"@)
}

pub open spec fn spec_is_json(value: Seq<char>) -> bool {
    eq_ignore_ascii_case(essence(value), "application/json"@)
}

fn essence_of(v: &Vec<char>, from: usize, to: usize) -> (r: (usize, usize))
    requires
        from <= to <= v@.len(),
    ensures
        from <= r.0 <= r.1 <= to,
        v@.subrange(r.0 as int, r.1 as int) == essence(v@.subrange(from as int, to as int)),
{
    let mut e = from;
    assert(v@.subrange(from as int, to as int).skip(0) =~= v@.subrange(from as int, to as int));
    while e < to && v[e] != ';'
        invariant
            from <= e <= to <= v@.len(),
            before_first(v@.subrange(from as int, to as int), ';')
                == v@.subrange(from as int, e as int) + before_first(v@.subrange(e as int, to as int), ';'),
        decreases to - e,
    {
        assert(v@.subrange(e as int, to as int).drop_first() =~= v@.subrange(e + 1, to as int));
        assert(v@.subrange(from as int, e + 1) =~= v@.subrange(from as int, e as int) + seq![v@[e as int]]);
        e += 1;
    }
    assert(before_first(v@.subrange(e as int, to as int), ';') =~= Seq::<char>::empty());
    assert(v@.subrange(from as int, e as int) + Seq::<char>::empty() =~= v@.subrange(from as int, e as int));
    crate::text::trim_bounds(v, from, e)
}

fn eq_ignore_case_at(v: &Vec<char>, a: usize, b: usize, lit: &str) -> (r: bool)
    requires
        a <= b <= v@.len(),
    ensures
        r == eq_ignore_ascii_case(v@.subrange(a as int, b as int), lit@),
{
    let l = chars_of(lit);
    if b - a != l.len() {
        return false;
    }
    let mut i: usize = 0;
    while i < l.len()
        invariant
            i <= l@.len(),
            l@ == lit@,
            b - a == l@.len(),
            a <= b <= v@.len(),
            forall|k: int| 0 <= k < i ==> #[trigger] crate::meta::ascii_lower(v@.subrange(a as int, b as int)[k]) == crate::meta::ascii_lower(l@[k]),
        decreases l.len() - i,
    {
        assert(v@.subrange(a as int, b as int)[i as int] == v@[a + i]);
        if lower(v[a + i]) != lower(l[i]) {
            return false;
        }
        i += 1;
    }
    true
}

fn lower(c: char) -> (r: char)
    ensures
        r == crate::meta::ascii_lower(c),
{
    if 'A' <= c && c <= 'Z' {
        let v = (c as u32) + 32;
        v as u8 as char
    } else {
        c
    }
}

fn is_protobuf_range(v: &Vec<char>, from: usize, to: usize) -> (r: bool)
    requires
        from <= to <= v@.len(),
    ensures
        r == spec_is_protobuf(v@.subrange(from as int, to as int)),
{
    let (a, b) = essence_of(v, from, to);
    eq_ignore_case_at(v, a, b, "application/x-protobuf") || eq_ignore_case_at(v, a, b, "application/protobuf")
}

/// Whether a `Content-Type` (or `Accept` entry) names protobuf.
pub fn is_protobuf(value: &str) -> (r: bool)
    ensures
        r == spec_is_protobuf(value@),
{
    let v = chars_of(value);
    assert(v@.subrange(0, v@.len() as int) =~= v@);
    is_protobuf_range(&v, 0, v.len())
}

/// Whether a `Content-Type` names JSON.
pub fn is_json(value: &str) -> (r: bool)
    ensures
        r == spec_is_json(value@),
{
    let v = chars_of(value);
    assert(v@.subrange(0, v@.len() as int) =~= v@);
    let (a, b) = essence_of(&v, 0, v.len());
    eq_ignore_case_at(&v, a, b, "application/json")
}

/// `value[i..j]` is one of the comma-separated entries of the value.
pub open spec fn is_entry(value: Seq<char>, i: int, j: int) -> bool {
    &&& 0 <= i <= j <= value.len()
    &&& (i == 0 || value[i - 1] == ',')
    &&& (j == value.len() || value[j] == ',')
    &&& forall|k: int| i <= k < j ==> value[k] != ','
}

/// Some comma-separated entry of an `Accept` value names protobuf; no
/// header means no.
pub open spec fn spec_accepts_proto(accept: Option<Seq<char>>) -> bool {
    match accept {
        None => false,
        Some(a) => has_proto_entry(a),
    }
}

/// Some comma-separated entry of the value names protobuf.
pub open spec fn has_proto_entry(a: Seq<char>) -> bool {
    exists|i: int, j: int| #[trigger] is_entry(a, i, j) && spec_is_protobuf(a.subrange(i, j))
}

/// Whether the client asked for protobuf responses (`accept` is the
/// `Accept` header, when present and readable).
pub fn accepts_proto(accept: Option<&str>) -> (r: bool)
    ensures
        r == spec_accepts_proto(match accept {
            Some(a) => Some(a@),
            None => None,
        }),
{
    let a = match accept {
        Some(a) => a,
        None => return false,
    };
    let v = chars_of(a);
    let mut start: usize = 0;
    loop
        invariant
            start <= v@.len(),
            v@ == a@,
            accept == Some(a),
            start == 0 || v@[start - 1] == ',',
            forall|i: int, j: int| #[trigger] is_entry(v@, i, j) && i < start ==> !spec_is_protobuf(v@.subrange(i, j)),
        decreases v@.len() - start,
    {
        let mut end = start;
        while end < v.len() && v[end] != ','
            invariant
                start <= end <= v@.len(),
                forall|k: int| start <= k < end ==> v@[k] != ',',
            decreases v@.len() - end,
        {
            end += 1;
        }
        assert(is_entry(v@, start as int, end as int));
        if is_protobuf_range(&v, start, end) {
            assert(is_entry(a@, start as int, end as int) && spec_is_protobuf(a@.subrange(start as int, end as int)));
            return true;
        }
        proof {
            assert forall|i: int, j: int| #[trigger] is_entry(v@, i, j) && i < end + 1 implies !spec_is_protobuf(v@.subrange(i, j)) by {
                if i >= start {
                    if i > start {
                        assert(v@[i - 1] == ',');
                        assert(false);
                    }
                    if j < end {
                        assert(v@[j] == ',');
                        assert(false);
                    }
                    if j > end {
                        assert(v@[end as int] != ',');
                        assert(false);
                    }
                }
            }
        }
        if end == v.len() {
            proof {
                assert forall|i: int, j: int| #[trigger] is_entry(v@, i, j) implies !spec_is_protobuf(v@.subrange(i, j)) by {
                    assert(i < end + 1);
                }
            }
            return false;
        }
        start = end + 1;
    }
}

/// How a request body is encoded.
#[derive(Clone, Copy, Debug, PartialEq, Eq, Structural)]
pub enum BodyEncoding {
    Protobuf,
    Json,
}

/// The encoding of a request body by its `Content-Type` (absent means
/// JSON); `None` for an unsupported type.
pub fn body_encoding(content_type: Option<&str>) -> (r: Option<BodyEncoding>)
    ensures
        r == match content_type {
            None => Some(BodyEncoding::Json),
            Some(c) => if spec_is_protobuf(c@) {
                Some(BodyEncoding::Protobuf)
            } else if spec_is_json(c@) {
                Some(BodyEncoding::Json)
            } else {
                None
            },
        },
{
    match content_type {
        None => Some(BodyEncoding::Json),
        Some(c) => if is_protobuf(c) {
            Some(BodyEncoding::Protobuf)
        } else if is_json(c) {
            Some(BodyEncoding::Json)
        } else {
            None
        },
    }
}

} // verus!
