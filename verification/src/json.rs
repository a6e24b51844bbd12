//! The exact wire encoding of segment and subsegment documents: field order
//! follows the record declarations, and every optional field whose value is
//! absent, false or empty is omitted, as the collector's schema expects.

use vstd::prelude::*;
use vstd::string::StringSliceAdditionalSpecFns;
use vstd::utf8::encode_utf8;
use crate::epoch::{append_seconds, seconds_bytes, Seconds};
use crate::hexbytes::hex_digit;
use crate::segment::{
    Annotation, Aws, AwsOperation, Cause, Ec2, Ecs, ElasticBeanstalk, Exception, Http, Request,
    Response, Segment, Service, Sql, StackFrame, Subsegment, Tracing, XRay,
};
use crate::segment_id::{segment_id_chars, SegmentId};
use crate::text::{append_lit, dec_bytes, lemma_concat_assoc, push_dec};
use crate::trace_id::{trace_id_chars, TraceId};

verus! {

/// The wire form of one byte inside a JSON string: quote, backslash and
/// control characters are escaped; everything else passes through.
pub open spec fn escape_byte(b: u8) -> Seq<u8> {
    if b == 34 {
        seq![92u8, 34u8]
    } else if b == 92 {
        seq![92u8, 92u8]
    } else if b == 8 {
        seq![92u8, 98u8]
    } else if b == 9 {
        seq![92u8, 116u8]
    } else if b == 10 {
        seq![92u8, 110u8]
    } else if b == 12 {
        seq![92u8, 102u8]
    } else if b == 13 {
        seq![92u8, 114u8]
    } else if b < 32 {
        seq![92u8, 117u8, 48u8, 48u8, hex_digit((b / 16) as u8), hex_digit((b % 16) as u8)]
    } else {
        seq![b]
    }
}

/// The escaped wire form of a byte sequence.
pub open spec fn json_escaped(bs: Seq<u8>) -> Seq<u8>
    decreases bs.len(),
{
    if bs.len() == 0 {
        Seq::<u8>::empty()
    } else {
        json_escaped(bs.drop_last()) + escape_byte(bs.last())
    }
}

/// A JSON string: the escaped UTF-8 of `s` between quotes.
pub open spec fn json_string(s: Seq<char>) -> Seq<u8> {
    seq![34u8] + json_escaped(encode_utf8(s)) + seq![34u8]
}

/// Appends the escaped form of every byte of `bs`.
fn append_escaped(buf: &mut Vec<u8>, bs: &[u8])
    ensures
        final(buf)@ == old(buf)@ + json_escaped(bs@),
{
    let mut i: usize = 0;
    while i < bs.len()
        invariant
            0 <= i <= bs@.len(),
            buf@ == old(buf)@ + json_escaped(bs@.take(i as int)),
        decreases bs@.len() - i,
    {
        let ghost pre = buf@;
        let b = bs[i];
        if b == 34 {
            buf.push(92);
            buf.push(34);
        } else if b == 92 {
            buf.push(92);
            buf.push(92);
        } else if b == 8 {
            buf.push(92);
            buf.push(98);
        } else if b == 9 {
            buf.push(92);
            buf.push(116);
        } else if b == 10 {
            buf.push(92);
            buf.push(110);
        } else if b == 12 {
            buf.push(92);
            buf.push(102);
        } else if b == 13 {
            buf.push(92);
            buf.push(114);
        } else if b < 32 {
            buf.push(92);
            buf.push(117);
            buf.push(48);
            buf.push(48);
            let hi: u8 = b / 16;
            let lo: u8 = b % 16;
            buf.push(if hi < 10 {
                48 + hi
            } else {
                87 + hi
            });
            buf.push(if lo < 10 {
                48 + lo
            } else {
                87 + lo
            });
        } else {
            buf.push(b);
        }
        proof {
            assert(buf@ =~= pre + escape_byte(b));
            assert(bs@.take(i + 1).drop_last() =~= bs@.take(i as int));
            assert(bs@.take(i + 1).last() == bs@[i as int]);
            assert(buf@ =~= old(buf)@ + json_escaped(bs@.take(i + 1)));
        }
        i = i + 1;
    }
    assert(bs@.take(bs@.len() as int) =~= bs@);
}

/// Appends the JSON string form of `s`.
pub fn append_json_string(buf: &mut Vec<u8>, s: &str)
    ensures
        final(buf)@ == old(buf)@ + json_string(s@),
{
    buf.push(34);
    append_escaped(buf, s.as_bytes());
    buf.push(34);
    assert(buf@ =~= old(buf)@ + json_string(s@));
}

/// `key:"value"` when the value is present, nothing otherwise; `k` carries
/// its own punctuation.
pub open spec fn opt_str_field(k: &str, v: Option<String>) -> Seq<u8> {
    match v {
        Some(s) => k.spec_bytes() + json_string(s@),
        None => Seq::<u8>::empty(),
    }
}

/// Appends `opt_str_field(k, *v)`.
fn append_opt_str_field(buf: &mut Vec<u8>, k: &str, v: &Option<String>)
    ensures
        final(buf)@ == old(buf)@ + opt_str_field(k, *v),
{
    match v {
        Some(s) => {
            append_lit(buf, k);
            append_json_string(buf, s.as_str());
            assert(buf@ =~= old(buf)@ + opt_str_field(k, *v));
        },
        None => {
            assert(buf@ =~= old(buf)@ + opt_str_field(k, *v));
        },
    }
}

/// `key:true` when the flag is set, nothing otherwise.
pub open spec fn flag_field(k: &str, b: bool) -> Seq<u8> {
    if b {
        k.spec_bytes() + "true".spec_bytes()
    } else {
        Seq::<u8>::empty()
    }
}

/// Appends `flag_field(k, b)`.
fn append_flag_field(buf: &mut Vec<u8>, k: &str, b: bool)
    ensures
        final(buf)@ == old(buf)@ + flag_field(k, b),
{
    if b {
        append_lit(buf, k);
        append_lit(buf, "true");
        assert(buf@ =~= old(buf)@ + flag_field(k, b));
    } else {
        assert(buf@ =~= old(buf)@ + flag_field(k, b));
    }
}

/// `key:true` or `key:false` when present, nothing otherwise.
pub open spec fn opt_bool_field(k: &str, v: Option<bool>) -> Seq<u8> {
    match v {
        Some(b) => k.spec_bytes() + (if b {
            "true".spec_bytes()
        } else {
            "false".spec_bytes()
        }),
        None => Seq::<u8>::empty(),
    }
}

/// Appends `opt_bool_field(k, *v)`.
fn append_opt_bool_field(buf: &mut Vec<u8>, k: &str, v: &Option<bool>)
    ensures
        final(buf)@ == old(buf)@ + opt_bool_field(k, *v),
{
    match v {
        Some(b) => {
            append_lit(buf, k);
            if *b {
                append_lit(buf, "true");
            } else {
                append_lit(buf, "false");
            }
            assert(buf@ =~= old(buf)@ + opt_bool_field(k, *v));
        },
        None => {
            assert(buf@ =~= old(buf)@ + opt_bool_field(k, *v));
        },
    }
}

/// `key:number` when present, nothing otherwise.
pub open spec fn opt_u64_field(k: &str, v: Option<u64>) -> Seq<u8> {
    match v {
        Some(n) => k.spec_bytes() + dec_bytes(n as nat),
        None => Seq::<u8>::empty(),
    }
}

/// Appends `opt_u64_field(k, *v)`.
fn append_opt_u64_field(buf: &mut Vec<u8>, k: &str, v: &Option<u64>)
    ensures
        final(buf)@ == old(buf)@ + opt_u64_field(k, *v),
{
    match v {
        Some(n) => {
            append_lit(buf, k);
            push_dec(buf, *n);
            assert(buf@ =~= old(buf)@ + opt_u64_field(k, *v));
        },
        None => {
            assert(buf@ =~= old(buf)@ + opt_u64_field(k, *v));
        },
    }
}

/// `key:number` when present, nothing otherwise.
pub open spec fn opt_u16_field(k: &str, v: Option<u16>) -> Seq<u8> {
    match v {
        Some(n) => k.spec_bytes() + dec_bytes(n as nat),
        None => Seq::<u8>::empty(),
    }
}

/// Appends `opt_u16_field(k, *v)`.
fn append_opt_u16_field(buf: &mut Vec<u8>, k: &str, v: &Option<u16>)
    ensures
        final(buf)@ == old(buf)@ + opt_u16_field(k, *v),
{
    match v {
        Some(n) => {
            append_lit(buf, k);
            push_dec(buf, *n as u64);
            assert(buf@ =~= old(buf)@ + opt_u16_field(k, *v));
        },
        None => {
            assert(buf@ =~= old(buf)@ + opt_u16_field(k, *v));
        },
    }
}

/// `key:number` when present, nothing otherwise.
pub open spec fn opt_usize_field(k: &str, v: Option<usize>) -> Seq<u8> {
    match v {
        Some(n) => k.spec_bytes() + dec_bytes(n as nat),
        None => Seq::<u8>::empty(),
    }
}

/// Appends `opt_usize_field(k, *v)`.
fn append_opt_usize_field(buf: &mut Vec<u8>, k: &str, v: &Option<usize>)
    ensures
        final(buf)@ == old(buf)@ + opt_usize_field(k, *v),
{
    match v {
        Some(n) => {
            append_lit(buf, k);
            push_dec(buf, *n as u64);
            assert(buf@ =~= old(buf)@ + opt_usize_field(k, *v));
        },
        None => {
            assert(buf@ =~= old(buf)@ + opt_usize_field(k, *v));
        },
    }
}

/// `key:timestamp` when present, nothing otherwise.
pub open spec fn opt_seconds_field(k: &str, v: Option<Seconds>) -> Seq<u8> {
    match v {
        Some(t) => k.spec_bytes() + seconds_bytes(t.millis),
        None => Seq::<u8>::empty(),
    }
}

/// Appends `opt_seconds_field(k, *v)`.
fn append_opt_seconds_field(buf: &mut Vec<u8>, k: &str, v: &Option<Seconds>)
    ensures
        final(buf)@ == old(buf)@ + opt_seconds_field(k, *v),
{
    match v {
        Some(t) => {
            append_lit(buf, k);
            append_seconds(buf, t);
            assert(buf@ =~= old(buf)@ + opt_seconds_field(k, *v));
        },
        None => {
            assert(buf@ =~= old(buf)@ + opt_seconds_field(k, *v));
        },
    }
}

/// `key:"rendered id"` when present, nothing otherwise.
pub open spec fn opt_segment_id_field(k: &str, v: Option<SegmentId>) -> Seq<u8> {
    match v {
        Some(x) => k.spec_bytes() + json_string(segment_id_chars(x@)),
        None => Seq::<u8>::empty(),
    }
}

/// Appends `opt_segment_id_field(k, *v)`.
fn append_opt_segment_id_field(buf: &mut Vec<u8>, k: &str, v: &Option<SegmentId>)
    ensures
        final(buf)@ == old(buf)@ + opt_segment_id_field(k, *v),
{
    match v {
        Some(x) => {
            append_lit(buf, k);
            let r = x.render();
            append_json_string(buf, r.as_str());
            assert(buf@ =~= old(buf)@ + opt_segment_id_field(k, *v));
        },
        None => {
            assert(buf@ =~= old(buf)@ + opt_segment_id_field(k, *v));
        },
    }
}

/// `key:"rendered id"` when present, nothing otherwise.
pub open spec fn opt_trace_id_field(k: &str, v: Option<TraceId>) -> Seq<u8> {
    match v {
        Some(x) => k.spec_bytes() + json_string(trace_id_chars(x@)),
        None => Seq::<u8>::empty(),
    }
}

/// Appends `opt_trace_id_field(k, *v)`.
fn append_opt_trace_id_field(buf: &mut Vec<u8>, k: &str, v: &Option<TraceId>)
    ensures
        final(buf)@ == old(buf)@ + opt_trace_id_field(k, *v),
{
    match v {
        Some(x) => {
            append_lit(buf, k);
            let r = x.render();
            append_json_string(buf, r.as_str());
            assert(buf@ =~= old(buf)@ + opt_trace_id_field(k, *v));
        },
        None => {
            assert(buf@ =~= old(buf)@ + opt_trace_id_field(k, *v));
        },
    }
}

/// An object body `fields` — concatenated fields, each led by a comma —
/// wrapped in braces, the first comma dropped.
pub open spec fn obj_wrap(fields: Seq<u8>) -> Seq<u8> {
    seq![123u8] + strip_comma(fields) + seq![125u8]
}

/// `fields` without its leading comma, when it has one.
pub open spec fn strip_comma(fields: Seq<u8>) -> Seq<u8> {
    if fields.len() > 0 && fields[0] == 44 {
        fields.drop_first()
    } else {
        fields
    }
}

/// Appends `obj_wrap(fields@)`: the braces and every byte of `fields` but a
/// leading comma.
fn append_obj(buf: &mut Vec<u8>, fields: &Vec<u8>)
    ensures
        final(buf)@ == old(buf)@ + obj_wrap(fields@),
{
    buf.push(123);
    let start: usize = if fields.len() > 0 && fields[0] == 44 {
        1
    } else {
        0
    };
    let mut i: usize = start;
    proof {
        assert(buf@ =~= old(buf)@ + seq![123u8] + fields@.subrange(start as int, start as int));
    }
    while i < fields.len()
        invariant
            start <= i <= fields@.len(),
            buf@ == old(buf)@ + seq![123u8] + fields@.subrange(start as int, i as int),
        decreases fields@.len() - i,
    {
        let b = fields[i];
        buf.push(b);
        proof {
            assert(fields@.subrange(start as int, i + 1) =~= fields@.subrange(
                start as int,
                i as int,
            ).push(fields@[i as int]));
            assert(buf@ =~= old(buf)@ + seq![123u8] + fields@.subrange(start as int, i + 1));
        }
        i = i + 1;
    }
    buf.push(125);
    proof {
        assert(fields@.subrange(start as int, fields@.len() as int) =~= strip_comma(fields@));
        assert(buf@ =~= old(buf)@ + obj_wrap(fields@));
    }
}

/// The text of each string in a list.
pub open spec fn strs_view(v: Seq<String>) -> Seq<Seq<char>> {
    v.map_values(|s: String| s@)
}

/// The comma-separated JSON strings of `items`.
pub open spec fn str_items(items: Seq<Seq<char>>) -> Seq<u8>
    decreases items.len(),
{
    if items.len() == 0 {
        Seq::<u8>::empty()
    } else if items.len() == 1 {
        json_string(items[0])
    } else {
        str_items(items.drop_last()) + seq![44u8] + json_string(items.last())
    }
}

/// A JSON array of strings.
pub open spec fn json_str_array(items: Seq<Seq<char>>) -> Seq<u8> {
    seq![91u8] + str_items(items) + seq![93u8]
}

/// Appends the JSON array of the strings in `v`.
fn append_str_array(buf: &mut Vec<u8>, v: &Vec<String>)
    ensures
        final(buf)@ == old(buf)@ + json_str_array(strs_view(v@)),
{
    let ghost items = strs_view(v@);
    buf.push(91);
    proof {
        assert(buf@ =~= old(buf)@ + seq![91u8] + str_items(items.take(0)));
    }
    let mut i: usize = 0;
    while i < v.len()
        invariant
            0 <= i <= v@.len(),
            items == strs_view(v@),
            items.len() == v@.len(),
            buf@ == old(buf)@ + seq![91u8] + str_items(items.take(i as int)),
        decreases v@.len() - i,
    {
        if i > 0 {
            buf.push(44);
        }
        append_json_string(buf, v[i].as_str());
        proof {
            assert(items.take(i + 1).drop_last() =~= items.take(i as int));
            assert(items.take(i + 1).last() == items[i as int]);
            assert(items[i as int] == v@[i as int]@);
            assert(buf@ =~= old(buf)@ + seq![91u8] + str_items(items.take(i + 1)));
        }
        i = i + 1;
    }
    buf.push(93);
    proof {
        assert(items.take(items.len() as int) =~= items);
        assert(buf@ =~= old(buf)@ + json_str_array(items));
    }
}

/// The untagged wire form of one annotation value: a string, a number or a
/// boolean.
pub open spec fn ann_value(a: Annotation) -> Seq<u8> {
    match a {
        Annotation::String(s) => json_string(s@),
        Annotation::Number(n) => dec_bytes(n as nat),
        Annotation::Bool(b) => if b {
            "true".spec_bytes()
        } else {
            "false".spec_bytes()
        },
    }
}

/// One annotation member: the key as a JSON string, a colon, the value.
pub open spec fn ann_item(p: (String, Annotation)) -> Seq<u8> {
    json_string(p.0@) + seq![58u8] + ann_value(p.1)
}

/// The comma-separated members of an annotation object.
pub open spec fn ann_items(items: Seq<(String, Annotation)>) -> Seq<u8>
    decreases items.len(),
{
    if items.len() == 0 {
        Seq::<u8>::empty()
    } else if items.len() == 1 {
        ann_item(items[0])
    } else {
        ann_items(items.drop_last()) + seq![44u8] + ann_item(items.last())
    }
}

/// A JSON object of annotation members, in list order.
pub open spec fn json_ann_object(items: Seq<(String, Annotation)>) -> Seq<u8> {
    seq![123u8] + ann_items(items) + seq![125u8]
}

/// Appends the JSON object of the annotations in `v`.
fn append_ann_object(buf: &mut Vec<u8>, v: &Vec<(String, Annotation)>)
    ensures
        final(buf)@ == old(buf)@ + json_ann_object(v@),
{
    buf.push(123);
    proof {
        assert(buf@ =~= old(buf)@ + seq![123u8] + ann_items(v@.take(0)));
    }
    let mut i: usize = 0;
    while i < v.len()
        invariant
            0 <= i <= v@.len(),
            buf@ == old(buf)@ + seq![123u8] + ann_items(v@.take(i as int)),
        decreases v@.len() - i,
    {
        let ghost pre = buf@;
        if i > 0 {
            buf.push(44);
        }
        append_json_string(buf, v[i].0.as_str());
        buf.push(58);
        match &v[i].1 {
            Annotation::String(s) => append_json_string(buf, s.as_str()),
            Annotation::Number(n) => push_dec(buf, *n as u64),
            Annotation::Bool(b) => if *b {
                append_lit(buf, "true")
            } else {
                append_lit(buf, "false")
            },
        }
        proof {
            if i > 0 {
                assert(buf@ =~= pre + seq![44u8] + ann_item(v@[i as int]));
            } else {
                assert(buf@ =~= pre + ann_item(v@[i as int]));
            }
            assert(v@.take(i + 1).drop_last() =~= v@.take(i as int));
            assert(v@.take(i + 1).last() == v@[i as int]);
            assert(buf@ =~= old(buf)@ + seq![123u8] + ann_items(v@.take(i + 1)));
        }
        i = i + 1;
    }
    buf.push(125);
    proof {
        assert(v@.take(v@.len() as int) =~= v@);
        assert(buf@ =~= old(buf)@ + json_ann_object(v@));
    }
}

/// One metadata member: the key as a JSON string, a colon, and the value
/// spliced in verbatim.
pub open spec fn meta_item(p: (String, String)) -> Seq<u8> {
    json_string(p.0@) + seq![58u8] + encode_utf8(p.1@)
}

/// The comma-separated members of a metadata object.
pub open spec fn meta_items(items: Seq<(String, String)>) -> Seq<u8>
    decreases items.len(),
{
    if items.len() == 0 {
        Seq::<u8>::empty()
    } else if items.len() == 1 {
        meta_item(items[0])
    } else {
        meta_items(items.drop_last()) + seq![44u8] + meta_item(items.last())
    }
}

/// A JSON object of metadata members, in list order; values go out verbatim.
pub open spec fn json_meta_object(items: Seq<(String, String)>) -> Seq<u8> {
    seq![123u8] + meta_items(items) + seq![125u8]
}

/// Appends the JSON object of the metadata in `v`.
fn append_meta_object(buf: &mut Vec<u8>, v: &Vec<(String, String)>)
    ensures
        final(buf)@ == old(buf)@ + json_meta_object(v@),
{
    buf.push(123);
    proof {
        assert(buf@ =~= old(buf)@ + seq![123u8] + meta_items(v@.take(0)));
    }
    let mut i: usize = 0;
    while i < v.len()
        invariant
            0 <= i <= v@.len(),
            buf@ == old(buf)@ + seq![123u8] + meta_items(v@.take(i as int)),
        decreases v@.len() - i,
    {
        let ghost pre = buf@;
        if i > 0 {
            buf.push(44);
        }
        append_json_string(buf, v[i].0.as_str());
        buf.push(58);
        append_lit(buf, v[i].1.as_str());
        proof {
            if i > 0 {
                assert(buf@ =~= pre + seq![44u8] + meta_item(v@[i as int]));
            } else {
                assert(buf@ =~= pre + meta_item(v@[i as int]));
            }
            assert(v@.take(i + 1).drop_last() =~= v@.take(i as int));
            assert(v@.take(i + 1).last() == v@[i as int]);
            assert(buf@ =~= old(buf)@ + seq![123u8] + meta_items(v@.take(i + 1)));
        }
        i = i + 1;
    }
    buf.push(125);
    proof {
        assert(v@.take(v@.len() as int) =~= v@);
        assert(buf@ =~= old(buf)@ + json_meta_object(v@));
    }
}

/// The wire form of a response block.
pub open spec fn response_json(r: Response) -> Seq<u8> {
    obj_wrap(
        opt_u16_field(",\"status\":", r.status) + opt_u64_field(
            ",\"content_length\":",
            r.content_length,
        ),
    )
}

/// Appends `response_json(*r)`.
fn append_response(buf: &mut Vec<u8>, r: &Response)
    ensures
        final(buf)@ == old(buf)@ + response_json(*r),
{
    let mut fields: Vec<u8> = Vec::new();
    append_opt_u16_field(&mut fields, ",\"status\":", &r.status);
    append_opt_u64_field(&mut fields, ",\"content_length\":", &r.content_length);
    proof {
        assert(fields@ =~= opt_u16_field(",\"status\":", r.status) + opt_u64_field(
            ",\"content_length\":",
            r.content_length,
        ));
    }
    append_obj(buf, &fields);
}

/// The wire form of a request block.
pub open spec fn request_json(r: Request) -> Seq<u8> {
    obj_wrap(
        opt_str_field(",\"method\":", r.method) + opt_str_field(",\"url\":", r.url)
            + opt_str_field(",\"client_ip\":", r.client_ip) + opt_str_field(
            ",\"user_agent\":",
            r.user_agent,
        ) + opt_str_field(",\"x_forwarded_for\":", r.x_forwarded_for) + opt_bool_field(
            ",\"traced\":",
            r.traced,
        ),
    )
}

/// Appends `request_json(*r)`.
fn append_request(buf: &mut Vec<u8>, r: &Request)
    ensures
        final(buf)@ == old(buf)@ + request_json(*r),
{
    let mut fields: Vec<u8> = Vec::new();
    append_opt_str_field(&mut fields, ",\"method\":", &r.method);
    append_opt_str_field(&mut fields, ",\"url\":", &r.url);
    append_opt_str_field(&mut fields, ",\"client_ip\":", &r.client_ip);
    append_opt_str_field(&mut fields, ",\"user_agent\":", &r.user_agent);
    append_opt_str_field(&mut fields, ",\"x_forwarded_for\":", &r.x_forwarded_for);
    append_opt_bool_field(&mut fields, ",\"traced\":", &r.traced);
    proof {
        assert(fields@ =~= opt_str_field(",\"method\":", r.method) + opt_str_field(
            ",\"url\":",
            r.url,
        ) + opt_str_field(",\"client_ip\":", r.client_ip) + opt_str_field(
            ",\"user_agent\":",
            r.user_agent,
        ) + opt_str_field(",\"x_forwarded_for\":", r.x_forwarded_for) + opt_bool_field(
            ",\"traced\":",
            r.traced,
        ));
    }
    append_obj(buf, &fields);
}

/// The wire form of an HTTP block.
pub open spec fn http_json(h: Http) -> Seq<u8> {
    obj_wrap(
        (match h.request {
            Some(q) => ",\"request\":".spec_bytes() + request_json(q),
            None => Seq::<u8>::empty(),
        }) + (match h.response {
            Some(p) => ",\"response\":".spec_bytes() + response_json(p),
            None => Seq::<u8>::empty(),
        }),
    )
}

/// Appends `http_json(*h)`.
fn append_http(buf: &mut Vec<u8>, h: &Http)
    ensures
        final(buf)@ == old(buf)@ + http_json(*h),
{
    let mut fields: Vec<u8> = Vec::new();
    if let Some(q) = &h.request {
        append_lit(&mut fields, ",\"request\":");
        append_request(&mut fields, q);
    }
    if let Some(p) = &h.response {
        append_lit(&mut fields, ",\"response\":");
        append_response(&mut fields, p);
    }
    proof {
        assert(fields@ =~= (match h.request {
            Some(q) => ",\"request\":".spec_bytes() + request_json(q),
            None => Seq::<u8>::empty(),
        }) + (match h.response {
            Some(p) => ",\"response\":".spec_bytes() + response_json(p),
            None => Seq::<u8>::empty(),
        }));
    }
    append_obj(buf, &fields);
}

/// The wire form of a service block.
pub open spec fn service_json(s: Service) -> Seq<u8> {
    obj_wrap(opt_str_field(",\"version\":", s.version))
}

/// Appends `service_json(*s)`.
fn append_service(buf: &mut Vec<u8>, s: &Service)
    ensures
        final(buf)@ == old(buf)@ + service_json(*s),
{
    let mut fields: Vec<u8> = Vec::new();
    append_opt_str_field(&mut fields, ",\"version\":", &s.version);
    append_obj(buf, &fields);
}

/// The wire form of the SDK marker block; its one member is always present,
/// `null` when no version is recorded.
pub open spec fn xray_json(x: XRay) -> Seq<u8> {
    "{\"sdk_version\":".spec_bytes() + (match x.sdk_version {
        Some(s) => json_string(s@),
        None => "null".spec_bytes(),
    }) + seq![125u8]
}

/// Appends `xray_json(*x)`.
fn append_xray(buf: &mut Vec<u8>, x: &XRay)
    ensures
        final(buf)@ == old(buf)@ + xray_json(*x),
{
    append_lit(buf, "{\"sdk_version\":");
    match &x.sdk_version {
        Some(s) => append_json_string(buf, s.as_str()),
        None => append_lit(buf, "null"),
    }
    buf.push(125);
    assert(buf@ =~= old(buf)@ + xray_json(*x));
}

/// The wire form of the tracing SDK block; its one member is always present,
/// `null` when no SDK is recorded.
pub open spec fn tracing_json(t: Tracing) -> Seq<u8> {
    "{\"sdk\":".spec_bytes() + (match t.sdk {
        Some(s) => json_string(s@),
        None => "null".spec_bytes(),
    }) + seq![125u8]
}

/// Appends `tracing_json(*t)`.
fn append_tracing(buf: &mut Vec<u8>, t: &Tracing)
    ensures
        final(buf)@ == old(buf)@ + tracing_json(*t),
{
    append_lit(buf, "{\"sdk\":");
    match &t.sdk {
        Some(s) => append_json_string(buf, s.as_str()),
        None => append_lit(buf, "null"),
    }
    buf.push(125);
    assert(buf@ =~= old(buf)@ + tracing_json(*t));
}

/// The wire form of an ECS block.
pub open spec fn ecs_json(e: Ecs) -> Seq<u8> {
    obj_wrap(opt_str_field(",\"container\":", e.container))
}

/// Appends `ecs_json(*e)`.
fn append_ecs(buf: &mut Vec<u8>, e: &Ecs)
    ensures
        final(buf)@ == old(buf)@ + ecs_json(*e),
{
    let mut fields: Vec<u8> = Vec::new();
    append_opt_str_field(&mut fields, ",\"container\":", &e.container);
    append_obj(buf, &fields);
}

/// The wire form of an EC2 block.
pub open spec fn ec2_json(e: Ec2) -> Seq<u8> {
    obj_wrap(
        opt_str_field(",\"instance_id\":", e.instance_id) + opt_str_field(
            ",\"availability_zone\":",
            e.availability_zone,
        ),
    )
}

/// Appends `ec2_json(*e)`.
fn append_ec2(buf: &mut Vec<u8>, e: &Ec2)
    ensures
        final(buf)@ == old(buf)@ + ec2_json(*e),
{
    let mut fields: Vec<u8> = Vec::new();
    append_opt_str_field(&mut fields, ",\"instance_id\":", &e.instance_id);
    append_opt_str_field(&mut fields, ",\"availability_zone\":", &e.availability_zone);
    proof {
        assert(fields@ =~= opt_str_field(",\"instance_id\":", e.instance_id) + opt_str_field(
            ",\"availability_zone\":",
            e.availability_zone,
        ));
    }
    append_obj(buf, &fields);
}

/// The wire form of an Elastic Beanstalk block.
pub open spec fn elastic_beanstalk_json(e: ElasticBeanstalk) -> Seq<u8> {
    obj_wrap(
        opt_str_field(",\"environment_name\":", e.environment_name) + opt_str_field(
            ",\"version_label\":",
            e.version_label,
        ) + opt_usize_field(",\"deployment_id\":", e.deployment_id),
    )
}

/// Appends `elastic_beanstalk_json(*e)`.
fn append_elastic_beanstalk(buf: &mut Vec<u8>, e: &ElasticBeanstalk)
    ensures
        final(buf)@ == old(buf)@ + elastic_beanstalk_json(*e),
{
    let mut fields: Vec<u8> = Vec::new();
    append_opt_str_field(&mut fields, ",\"environment_name\":", &e.environment_name);
    append_opt_str_field(&mut fields, ",\"version_label\":", &e.version_label);
    append_opt_usize_field(&mut fields, ",\"deployment_id\":", &e.deployment_id);
    proof {
        assert(fields@ =~= opt_str_field(",\"environment_name\":", e.environment_name)
            + opt_str_field(",\"version_label\":", e.version_label) + opt_usize_field(
            ",\"deployment_id\":",
            e.deployment_id,
        ));
    }
    append_obj(buf, &fields);
}

/// The wire form of the environment block of a segment.
pub open spec fn aws_json(a: Aws) -> Seq<u8> {
    obj_wrap(
        opt_str_field(",\"account_id\":", a.account_id) + (match a.ecs {
            Some(e) => ",\"ecs\":".spec_bytes() + ecs_json(e),
            None => Seq::<u8>::empty(),
        }) + (match a.ec2 {
            Some(e) => ",\"ec2\":".spec_bytes() + ec2_json(e),
            None => Seq::<u8>::empty(),
        }) + (match a.elastic_beanstalk {
            Some(e) => ",\"elastic_beanstalk\":".spec_bytes() + elastic_beanstalk_json(e),
            None => Seq::<u8>::empty(),
        }) + (match a.tracing {
            Some(t) => ",\"tracing\":".spec_bytes() + tracing_json(t),
            None => Seq::<u8>::empty(),
        }) + (match a.xray {
            Some(x) => ",\"xray\":".spec_bytes() + xray_json(x),
            None => Seq::<u8>::empty(),
        }),
    )
}

/// Appends `aws_json(*a)`.
#[verifier::rlimit(50)]
fn append_aws(buf: &mut Vec<u8>, a: &Aws)
    ensures
        final(buf)@ == old(buf)@ + aws_json(*a),
{
    let ghost p1 = opt_str_field(",\"account_id\":", a.account_id);
    let ghost p2 = match &a.ecs {
        Some(e) => ",\"ecs\":".spec_bytes() + ecs_json(*e),
        None => Seq::<u8>::empty(),
    };
    let ghost p3 = match &a.ec2 {
        Some(e) => ",\"ec2\":".spec_bytes() + ec2_json(*e),
        None => Seq::<u8>::empty(),
    };
    let ghost p4 = match &a.elastic_beanstalk {
        Some(e) => ",\"elastic_beanstalk\":".spec_bytes() + elastic_beanstalk_json(*e),
        None => Seq::<u8>::empty(),
    };
    let ghost p5 = match &a.tracing {
        Some(t) => ",\"tracing\":".spec_bytes() + tracing_json(*t),
        None => Seq::<u8>::empty(),
    };
    let ghost p6 = match &a.xray {
        Some(x) => ",\"xray\":".spec_bytes() + xray_json(*x),
        None => Seq::<u8>::empty(),
    };
    let mut fields: Vec<u8> = Vec::new();
    append_opt_str_field(&mut fields, ",\"account_id\":", &a.account_id);
    assert(fields@ =~= p1);
    if let Some(e) = &a.ecs {
        append_lit(&mut fields, ",\"ecs\":");
        append_ecs(&mut fields, e);
    }
    assert(fields@ =~= p1 + p2);
    if let Some(e) = &a.ec2 {
        append_lit(&mut fields, ",\"ec2\":");
        append_ec2(&mut fields, e);
    }
    assert(fields@ =~= p1 + p2 + p3);
    if let Some(e) = &a.elastic_beanstalk {
        append_lit(&mut fields, ",\"elastic_beanstalk\":");
        append_elastic_beanstalk(&mut fields, e);
    }
    assert(fields@ =~= p1 + p2 + p3 + p4);
    if let Some(t) = &a.tracing {
        append_lit(&mut fields, ",\"tracing\":");
        append_tracing(&mut fields, t);
    }
    assert(fields@ =~= p1 + p2 + p3 + p4 + p5);
    if let Some(x) = &a.xray {
        append_lit(&mut fields, ",\"xray\":");
        append_xray(&mut fields, x);
    }
    assert(fields@ =~= p1 + p2 + p3 + p4 + p5 + p6);
    append_obj(buf, &fields);
}

/// The wire form of a downstream-operation block.
pub open spec fn aws_operation_json(a: AwsOperation) -> Seq<u8> {
    obj_wrap(
        opt_str_field(",\"operation\":", a.operation) + opt_str_field(
            ",\"account_id\":",
            a.account_id,
        ) + opt_str_field(",\"region\":", a.region) + opt_str_field(
            ",\"request_id\":",
            a.request_id,
        ) + opt_str_field(",\"queue_url\":", a.queue_url) + opt_str_field(
            ",\"table_name\":",
            a.table_name,
        ),
    )
}

/// Appends `aws_operation_json(*a)`.
fn append_aws_operation(buf: &mut Vec<u8>, a: &AwsOperation)
    ensures
        final(buf)@ == old(buf)@ + aws_operation_json(*a),
{
    let mut fields: Vec<u8> = Vec::new();
    append_opt_str_field(&mut fields, ",\"operation\":", &a.operation);
    append_opt_str_field(&mut fields, ",\"account_id\":", &a.account_id);
    append_opt_str_field(&mut fields, ",\"region\":", &a.region);
    append_opt_str_field(&mut fields, ",\"request_id\":", &a.request_id);
    append_opt_str_field(&mut fields, ",\"queue_url\":", &a.queue_url);
    append_opt_str_field(&mut fields, ",\"table_name\":", &a.table_name);
    proof {
        assert(fields@ =~= opt_str_field(",\"operation\":", a.operation) + opt_str_field(
            ",\"account_id\":",
            a.account_id,
        ) + opt_str_field(",\"region\":", a.region) + opt_str_field(
            ",\"request_id\":",
            a.request_id,
        ) + opt_str_field(",\"queue_url\":", a.queue_url) + opt_str_field(
            ",\"table_name\":",
            a.table_name,
        ));
    }
    append_obj(buf, &fields);
}

/// The wire form of a SQL block.
pub open spec fn sql_json(s: Sql) -> Seq<u8> {
    obj_wrap(
        opt_str_field(",\"connection_string\":", s.connection_string) + opt_str_field(
            ",\"url\":",
            s.url,
        ) + opt_str_field(",\"sanitized_query\":", s.sanitized_query) + opt_str_field(
            ",\"database_type\":",
            s.database_type,
        ) + opt_str_field(",\"database_version\":", s.database_version) + opt_str_field(
            ",\"driver_version\":",
            s.driver_version,
        ) + opt_str_field(",\"user\":", s.user) + opt_str_field(",\"preparation\":", s.preparation),
    )
}

/// Appends `sql_json(*s)`.
fn append_sql(buf: &mut Vec<u8>, s: &Sql)
    ensures
        final(buf)@ == old(buf)@ + sql_json(*s),
{
    let mut fields: Vec<u8> = Vec::new();
    append_opt_str_field(&mut fields, ",\"connection_string\":", &s.connection_string);
    append_opt_str_field(&mut fields, ",\"url\":", &s.url);
    append_opt_str_field(&mut fields, ",\"sanitized_query\":", &s.sanitized_query);
    append_opt_str_field(&mut fields, ",\"database_type\":", &s.database_type);
    append_opt_str_field(&mut fields, ",\"database_version\":", &s.database_version);
    append_opt_str_field(&mut fields, ",\"driver_version\":", &s.driver_version);
    append_opt_str_field(&mut fields, ",\"user\":", &s.user);
    append_opt_str_field(&mut fields, ",\"preparation\":", &s.preparation);
    proof {
        assert(fields@ =~= opt_str_field(",\"connection_string\":", s.connection_string)
            + opt_str_field(",\"url\":", s.url) + opt_str_field(
            ",\"sanitized_query\":",
            s.sanitized_query,
        ) + opt_str_field(",\"database_type\":", s.database_type) + opt_str_field(
            ",\"database_version\":",
            s.database_version,
        ) + opt_str_field(",\"driver_version\":", s.driver_version) + opt_str_field(
            ",\"user\":",
            s.user,
        ) + opt_str_field(",\"preparation\":", s.preparation));
    }
    append_obj(buf, &fields);
}

/// The wire form of one stack frame.
pub open spec fn stack_frame_json(f: StackFrame) -> Seq<u8> {
    obj_wrap(
        opt_str_field(",\"path\":", f.path) + opt_str_field(",\"line\":", f.line) + opt_str_field(
            ",\"label\":",
            f.label,
        ),
    )
}

/// Appends `stack_frame_json(*f)`.
fn append_stack_frame(buf: &mut Vec<u8>, f: &StackFrame)
    ensures
        final(buf)@ == old(buf)@ + stack_frame_json(*f),
{
    let mut fields: Vec<u8> = Vec::new();
    append_opt_str_field(&mut fields, ",\"path\":", &f.path);
    append_opt_str_field(&mut fields, ",\"line\":", &f.line);
    append_opt_str_field(&mut fields, ",\"label\":", &f.label);
    proof {
        assert(fields@ =~= opt_str_field(",\"path\":", f.path) + opt_str_field(
            ",\"line\":",
            f.line,
        ) + opt_str_field(",\"label\":", f.label));
    }
    append_obj(buf, &fields);
}

/// The comma-separated wire forms of stack frames.
pub open spec fn frame_items(items: Seq<StackFrame>) -> Seq<u8>
    decreases items.len(),
{
    if items.len() == 0 {
        Seq::<u8>::empty()
    } else if items.len() == 1 {
        stack_frame_json(items[0])
    } else {
        frame_items(items.drop_last()) + seq![44u8] + stack_frame_json(items.last())
    }
}

/// A JSON array of stack frames.
pub open spec fn json_frame_array(items: Seq<StackFrame>) -> Seq<u8> {
    seq![91u8] + frame_items(items) + seq![93u8]
}

/// Appends the JSON array of the stack frames in `v`.
fn append_frame_array(buf: &mut Vec<u8>, v: &Vec<StackFrame>)
    ensures
        final(buf)@ == old(buf)@ + json_frame_array(v@),
{
    buf.push(91);
    proof {
        assert(buf@ =~= old(buf)@ + seq![91u8] + frame_items(v@.take(0)));
    }
    let mut i: usize = 0;
    while i < v.len()
        invariant
            0 <= i <= v@.len(),
            buf@ == old(buf)@ + seq![91u8] + frame_items(v@.take(i as int)),
        decreases v@.len() - i,
    {
        if i > 0 {
            buf.push(44);
        }
        append_stack_frame(buf, &v[i]);
        proof {
            assert(v@.take(i + 1).drop_last() =~= v@.take(i as int));
            assert(v@.take(i + 1).last() == v@[i as int]);
            assert(buf@ =~= old(buf)@ + seq![91u8] + frame_items(v@.take(i + 1)));
        }
        i = i + 1;
    }
    buf.push(93);
    proof {
        assert(v@.take(v@.len() as int) =~= v@);
        assert(buf@ =~= old(buf)@ + json_frame_array(v@));
    }
}

/// The wire form of one exception: its identifier and stack always present,
/// the rest omitted when absent.
pub open spec fn exception_json(e: Exception) -> Seq<u8> {
    "{\"id\":".spec_bytes() + json_string(e.id@) + opt_str_field(",\"messages\":", e.messages)
        + opt_bool_field(",\"remote\":", e.remote) + opt_usize_field(",\"truncated\":", e.truncated)
        + opt_usize_field(",\"skipped\":", e.skipped) + opt_str_field(",\"cause\":", e.cause)
        + ",\"stack\":".spec_bytes() + json_frame_array(e.stack@) + seq![125u8]
}

/// Appends `exception_json(*e)`.
fn append_exception(buf: &mut Vec<u8>, e: &Exception)
    ensures
        final(buf)@ == old(buf)@ + exception_json(*e),
{
    let ghost mut acc: Seq<u8> = Seq::<u8>::empty();
    append_lit(buf, "{\"id\":");
    append_json_string(buf, e.id.as_str());
    proof {
        acc = "{\"id\":".spec_bytes() + json_string(e.id@);
        assert(buf@ =~= old(buf)@ + acc);
    }
    append_opt_str_field(buf, ",\"messages\":", &e.messages);
    proof {
        acc = acc + opt_str_field(",\"messages\":", e.messages);
        assert(buf@ =~= old(buf)@ + acc);
    }
    append_opt_bool_field(buf, ",\"remote\":", &e.remote);
    proof {
        acc = acc + opt_bool_field(",\"remote\":", e.remote);
        assert(buf@ =~= old(buf)@ + acc);
    }
    append_opt_usize_field(buf, ",\"truncated\":", &e.truncated);
    proof {
        acc = acc + opt_usize_field(",\"truncated\":", e.truncated);
        assert(buf@ =~= old(buf)@ + acc);
    }
    append_opt_usize_field(buf, ",\"skipped\":", &e.skipped);
    proof {
        acc = acc + opt_usize_field(",\"skipped\":", e.skipped);
        assert(buf@ =~= old(buf)@ + acc);
    }
    append_opt_str_field(buf, ",\"cause\":", &e.cause);
    proof {
        acc = acc + opt_str_field(",\"cause\":", e.cause);
        assert(buf@ =~= old(buf)@ + acc);
    }
    append_lit(buf, ",\"stack\":");
    append_frame_array(buf, &e.stack);
    buf.push(125);
    proof {
        acc = acc + ",\"stack\":".spec_bytes() + json_frame_array(e.stack@) + seq![125u8];
        assert(buf@ =~= old(buf)@ + acc);
        assert(acc == exception_json(*e));
    }
}

/// The comma-separated wire forms of exceptions.
pub open spec fn exc_items(items: Seq<Exception>) -> Seq<u8>
    decreases items.len(),
{
    if items.len() == 0 {
        Seq::<u8>::empty()
    } else if items.len() == 1 {
        exception_json(items[0])
    } else {
        exc_items(items.drop_last()) + seq![44u8] + exception_json(items.last())
    }
}

/// A JSON array of exceptions.
pub open spec fn json_exc_array(items: Seq<Exception>) -> Seq<u8> {
    seq![91u8] + exc_items(items) + seq![93u8]
}

/// Appends the JSON array of the exceptions in `v`.
fn append_exc_array(buf: &mut Vec<u8>, v: &Vec<Exception>)
    ensures
        final(buf)@ == old(buf)@ + json_exc_array(v@),
{
    buf.push(91);
    proof {
        assert(buf@ =~= old(buf)@ + seq![91u8] + exc_items(v@.take(0)));
    }
    let mut i: usize = 0;
    while i < v.len()
        invariant
            0 <= i <= v@.len(),
            buf@ == old(buf)@ + seq![91u8] + exc_items(v@.take(i as int)),
        decreases v@.len() - i,
    {
        if i > 0 {
            buf.push(44);
        }
        append_exception(buf, &v[i]);
        proof {
            assert(v@.take(i + 1).drop_last() =~= v@.take(i as int));
            assert(v@.take(i + 1).last() == v@[i as int]);
            assert(buf@ =~= old(buf)@ + seq![91u8] + exc_items(v@.take(i + 1)));
        }
        i = i + 1;
    }
    buf.push(93);
    proof {
        assert(v@.take(v@.len() as int) =~= v@);
        assert(buf@ =~= old(buf)@ + json_exc_array(v@));
    }
}

/// The untagged wire form of a cause: a bare JSON string for an exception
/// identifier, or a description object whose `paths` member is omitted when
/// empty.
pub open spec fn cause_json(c: Cause) -> Seq<u8> {
    match c {
        Cause::Name(s) => json_string(s@),
        Cause::Description { working_directory, paths, exceptions } => "{\"working_directory\":".spec_bytes()
            + json_string(working_directory@) + (if strs_view(paths@).len() == 0 {
            Seq::<u8>::empty()
        } else {
            ",\"paths\":".spec_bytes() + json_str_array(strs_view(paths@))
        }) + ",\"exceptions\":".spec_bytes() + json_exc_array(exceptions@) + seq![125u8],
    }
}

/// Appends `cause_json(*c)`.
fn append_cause(buf: &mut Vec<u8>, c: &Cause)
    ensures
        final(buf)@ == old(buf)@ + cause_json(*c),
{
    match c {
        Cause::Name(s) => {
            append_json_string(buf, s.as_str());
        },
        Cause::Description { working_directory, paths, exceptions } => {
            let ghost mut acc: Seq<u8> = Seq::<u8>::empty();
            append_lit(buf, "{\"working_directory\":");
            append_json_string(buf, working_directory.as_str());
            proof {
                acc = "{\"working_directory\":".spec_bytes() + json_string(working_directory@);
                assert(buf@ =~= old(buf)@ + acc);
            }
            if paths.len() > 0 {
                append_lit(buf, ",\"paths\":");
                append_str_array(buf, paths);
            }
            proof {
                acc = acc + (if strs_view(paths@).len() == 0 {
                    Seq::<u8>::empty()
                } else {
                    ",\"paths\":".spec_bytes() + json_str_array(strs_view(paths@))
                });
                assert(buf@ =~= old(buf)@ + acc);
            }
            append_lit(buf, ",\"exceptions\":");
            append_exc_array(buf, exceptions);
            buf.push(125);
            proof {
                acc = acc + ",\"exceptions\":".spec_bytes() + json_exc_array(exceptions@) + seq![
                    125u8,
                ];
                assert(buf@ =~= old(buf)@ + acc);
                assert(acc == cause_json(*c));
            }
        },
    }
}

/// `,"cause":` and the cause, when present.
pub open spec fn opt_cause_field(v: Option<Cause>) -> Seq<u8> {
    match v {
        Some(c) => ",\"cause\":".spec_bytes() + cause_json(c),
        None => Seq::<u8>::empty(),
    }
}

/// Appends `opt_cause_field(*v)`.
fn append_opt_cause_field(buf: &mut Vec<u8>, v: &Option<Cause>)
    ensures
        final(buf)@ == old(buf)@ + opt_cause_field(*v),
{
    match v {
        Some(c) => {
            append_lit(buf, ",\"cause\":");
            append_cause(buf, c);
            proof {
                lemma_concat_assoc(old(buf)@, ",\"cause\":".spec_bytes(), cause_json(*c));
            }
        },
        None => {
            assert(buf@ =~= old(buf)@ + opt_cause_field(*v));
        },
    }
}

/// `,"http":` and the HTTP block, when present.
pub open spec fn opt_http_field(v: Option<Http>) -> Seq<u8> {
    match v {
        Some(h) => ",\"http\":".spec_bytes() + http_json(h),
        None => Seq::<u8>::empty(),
    }
}

/// Appends `opt_http_field(*v)`.
fn append_opt_http_field(buf: &mut Vec<u8>, v: &Option<Http>)
    ensures
        final(buf)@ == old(buf)@ + opt_http_field(*v),
{
    match v {
        Some(h) => {
            append_lit(buf, ",\"http\":");
            append_http(buf, h);
            proof {
                lemma_concat_assoc(old(buf)@, ",\"http\":".spec_bytes(), http_json(*h));
            }
        },
        None => {
            assert(buf@ =~= old(buf)@ + opt_http_field(*v));
        },
    }
}

/// `,"annotations":` and the annotation object, when present.
pub open spec fn opt_annotations_field(v: Option<Vec<(String, Annotation)>>) -> Seq<u8> {
    match v {
        Some(a) => ",\"annotations\":".spec_bytes() + json_ann_object(a@),
        None => Seq::<u8>::empty(),
    }
}

/// Appends `opt_annotations_field(*v)`.
fn append_opt_annotations_field(buf: &mut Vec<u8>, v: &Option<Vec<(String, Annotation)>>)
    ensures
        final(buf)@ == old(buf)@ + opt_annotations_field(*v),
{
    match v {
        Some(a) => {
            append_lit(buf, ",\"annotations\":");
            append_ann_object(buf, a);
            proof {
                lemma_concat_assoc(old(buf)@, ",\"annotations\":".spec_bytes(), json_ann_object(a@));
            }
        },
        None => {
            assert(buf@ =~= old(buf)@ + opt_annotations_field(*v));
        },
    }
}

/// `,"metadata":` and the metadata object, when present.
pub open spec fn opt_metadata_field(v: Option<Vec<(String, String)>>) -> Seq<u8> {
    match v {
        Some(m) => ",\"metadata\":".spec_bytes() + json_meta_object(m@),
        None => Seq::<u8>::empty(),
    }
}

/// Appends `opt_metadata_field(*v)`.
fn append_opt_metadata_field(buf: &mut Vec<u8>, v: &Option<Vec<(String, String)>>)
    ensures
        final(buf)@ == old(buf)@ + opt_metadata_field(*v),
{
    match v {
        Some(m) => {
            append_lit(buf, ",\"metadata\":");
            append_meta_object(buf, m);
            proof {
                lemma_concat_assoc(old(buf)@, ",\"metadata\":".spec_bytes(), json_meta_object(m@));
            }
        },
        None => {
            assert(buf@ =~= old(buf)@ + opt_metadata_field(*v));
        },
    }
}

/// `,"aws":` and the environment block, when present.
pub open spec fn opt_aws_field(v: Option<Aws>) -> Seq<u8> {
    match v {
        Some(a) => ",\"aws\":".spec_bytes() + aws_json(a),
        None => Seq::<u8>::empty(),
    }
}

/// Appends `opt_aws_field(*v)`.
fn append_opt_aws_field(buf: &mut Vec<u8>, v: &Option<Aws>)
    ensures
        final(buf)@ == old(buf)@ + opt_aws_field(*v),
{
    match v {
        Some(a) => {
            append_lit(buf, ",\"aws\":");
            append_aws(buf, a);
            proof {
                lemma_concat_assoc(old(buf)@, ",\"aws\":".spec_bytes(), aws_json(*a));
            }
        },
        None => {
            assert(buf@ =~= old(buf)@ + opt_aws_field(*v));
        },
    }
}

/// `,"service":` and the service block, when present.
pub open spec fn opt_service_field(v: Option<Service>) -> Seq<u8> {
    match v {
        Some(s) => ",\"service\":".spec_bytes() + service_json(s),
        None => Seq::<u8>::empty(),
    }
}

/// Appends `opt_service_field(*v)`.
fn append_opt_service_field(buf: &mut Vec<u8>, v: &Option<Service>)
    ensures
        final(buf)@ == old(buf)@ + opt_service_field(*v),
{
    match v {
        Some(s) => {
            append_lit(buf, ",\"service\":");
            append_service(buf, s);
            proof {
                lemma_concat_assoc(old(buf)@, ",\"service\":".spec_bytes(), service_json(*s));
            }
        },
        None => {
            assert(buf@ =~= old(buf)@ + opt_service_field(*v));
        },
    }
}

/// `,"aws":` and the downstream-operation block, when present.
pub open spec fn opt_aws_operation_field(v: Option<AwsOperation>) -> Seq<u8> {
    match v {
        Some(a) => ",\"aws\":".spec_bytes() + aws_operation_json(a),
        None => Seq::<u8>::empty(),
    }
}

/// Appends `opt_aws_operation_field(*v)`.
fn append_opt_aws_operation_field(buf: &mut Vec<u8>, v: &Option<AwsOperation>)
    ensures
        final(buf)@ == old(buf)@ + opt_aws_operation_field(*v),
{
    match v {
        Some(a) => {
            append_lit(buf, ",\"aws\":");
            append_aws_operation(buf, a);
            proof {
                lemma_concat_assoc(old(buf)@, ",\"aws\":".spec_bytes(), aws_operation_json(*a));
            }
        },
        None => {
            assert(buf@ =~= old(buf)@ + opt_aws_operation_field(*v));
        },
    }
}

/// `,"sql":` and the SQL block, when present.
pub open spec fn opt_sql_field(v: Option<Sql>) -> Seq<u8> {
    match v {
        Some(s) => ",\"sql\":".spec_bytes() + sql_json(s),
        None => Seq::<u8>::empty(),
    }
}

/// Appends `opt_sql_field(*v)`.
fn append_opt_sql_field(buf: &mut Vec<u8>, v: &Option<Sql>)
    ensures
        final(buf)@ == old(buf)@ + opt_sql_field(*v),
{
    match v {
        Some(s) => {
            append_lit(buf, ",\"sql\":");
            append_sql(buf, s);
            proof {
                lemma_concat_assoc(old(buf)@, ",\"sql\":".spec_bytes(), sql_json(*s));
            }
        },
        None => {
            assert(buf@ =~= old(buf)@ + opt_sql_field(*v));
        },
    }
}

/// `,"precursor_ids":` and the array of identifiers, when present.
pub open spec fn opt_precursor_field(v: Option<Vec<String>>) -> Seq<u8> {
    match v {
        Some(p) => ",\"precursor_ids\":".spec_bytes() + json_str_array(strs_view(p@)),
        None => Seq::<u8>::empty(),
    }
}

/// Appends `opt_precursor_field(*v)`.
fn append_opt_precursor_field(buf: &mut Vec<u8>, v: &Option<Vec<String>>)
    ensures
        final(buf)@ == old(buf)@ + opt_precursor_field(*v),
{
    match v {
        Some(p) => {
            append_lit(buf, ",\"precursor_ids\":");
            append_str_array(buf, p);
            proof {
                lemma_concat_assoc(
                    old(buf)@,
                    ",\"precursor_ids\":".spec_bytes(),
                    json_str_array(strs_view(p@)),
                );
            }
        },
        None => {
            assert(buf@ =~= old(buf)@ + opt_precursor_field(*v));
        },
    }
}

/// The full wire form of a segment document: `trace_id`, `id`, `name` and
/// `start_time` always present, in declaration order; every other field
/// omitted when absent, false or empty.
pub open spec fn segment_json(s: Segment) -> Seq<u8> {
    "{\"trace_id\":".spec_bytes() + json_string(trace_id_chars(s.trace_id@))
        + ",\"id\":".spec_bytes() + json_string(segment_id_chars(s.id@)) + ",\"name\":".spec_bytes()
        + json_string(s.name@) + ",\"start_time\":".spec_bytes() + seconds_bytes(
        s.start_time.millis,
    ) + opt_seconds_field(",\"end_time\":", s.end_time) + flag_field(
        ",\"in_progress\":",
        s.in_progress,
    ) + opt_segment_id_field(",\"parent_id\":", s.parent_id) + flag_field(",\"fault\":", s.fault)
        + flag_field(",\"error\":", s.error) + flag_field(",\"throttle\":", s.throttle)
        + opt_cause_field(s.cause) + opt_str_field(",\"origin\":", s.origin) + opt_str_field(
        ",\"user\":",
        s.user,
    ) + opt_str_field(",\"resource_arn\":", s.resource_arn) + opt_http_field(s.http)
        + opt_annotations_field(s.annotations) + opt_metadata_field(s.metadata) + opt_aws_field(
        s.aws,
    ) + opt_service_field(s.service) + seq![125u8]
}

/// Appends `segment_json(*s)`.
pub fn append_segment_json(buf: &mut Vec<u8>, s: &Segment)
    ensures
        final(buf)@ == old(buf)@ + segment_json(*s),
{
    let ghost mut acc: Seq<u8> = Seq::<u8>::empty();
    append_lit(buf, "{\"trace_id\":");
    proof {
        acc = "{\"trace_id\":".spec_bytes();
    }
    let tr = s.trace_id.render();
    append_json_string(buf, tr.as_str());
    proof {
        lemma_concat_assoc(old(buf)@, acc, json_string(trace_id_chars(s.trace_id@)));
        acc = acc + json_string(trace_id_chars(s.trace_id@));
    }
    append_lit(buf, ",\"id\":");
    proof {
        lemma_concat_assoc(old(buf)@, acc, ",\"id\":".spec_bytes());
        acc = acc + ",\"id\":".spec_bytes();
    }
    let idr = s.id.render();
    append_json_string(buf, idr.as_str());
    proof {
        lemma_concat_assoc(old(buf)@, acc, json_string(segment_id_chars(s.id@)));
        acc = acc + json_string(segment_id_chars(s.id@));
    }
    append_lit(buf, ",\"name\":");
    proof {
        lemma_concat_assoc(old(buf)@, acc, ",\"name\":".spec_bytes());
        acc = acc + ",\"name\":".spec_bytes();
    }
    append_json_string(buf, s.name.as_str());
    proof {
        lemma_concat_assoc(old(buf)@, acc, json_string(s.name@));
        acc = acc + json_string(s.name@);
    }
    append_lit(buf, ",\"start_time\":");
    proof {
        lemma_concat_assoc(old(buf)@, acc, ",\"start_time\":".spec_bytes());
        acc = acc + ",\"start_time\":".spec_bytes();
    }
    append_seconds(buf, &s.start_time);
    proof {
        lemma_concat_assoc(old(buf)@, acc, seconds_bytes(s.start_time.millis));
        acc = acc + seconds_bytes(s.start_time.millis);
    }
    append_opt_seconds_field(buf, ",\"end_time\":", &s.end_time);
    proof {
        lemma_concat_assoc(old(buf)@, acc, opt_seconds_field(",\"end_time\":", s.end_time));
        acc = acc + opt_seconds_field(",\"end_time\":", s.end_time);
    }
    append_flag_field(buf, ",\"in_progress\":", s.in_progress);
    proof {
        lemma_concat_assoc(old(buf)@, acc, flag_field(",\"in_progress\":", s.in_progress));
        acc = acc + flag_field(",\"in_progress\":", s.in_progress);
    }
    append_opt_segment_id_field(buf, ",\"parent_id\":", &s.parent_id);
    proof {
        lemma_concat_assoc(old(buf)@, acc, opt_segment_id_field(",\"parent_id\":", s.parent_id));
        acc = acc + opt_segment_id_field(",\"parent_id\":", s.parent_id);
    }
    append_flag_field(buf, ",\"fault\":", s.fault);
    proof {
        lemma_concat_assoc(old(buf)@, acc, flag_field(",\"fault\":", s.fault));
        acc = acc + flag_field(",\"fault\":", s.fault);
    }
    append_flag_field(buf, ",\"error\":", s.error);
    proof {
        lemma_concat_assoc(old(buf)@, acc, flag_field(",\"error\":", s.error));
        acc = acc + flag_field(",\"error\":", s.error);
    }
    append_flag_field(buf, ",\"throttle\":", s.throttle);
    proof {
        lemma_concat_assoc(old(buf)@, acc, flag_field(",\"throttle\":", s.throttle));
        acc = acc + flag_field(",\"throttle\":", s.throttle);
    }
    append_opt_cause_field(buf, &s.cause);
    proof {
        lemma_concat_assoc(old(buf)@, acc, opt_cause_field(s.cause));
        acc = acc + opt_cause_field(s.cause);
    }
    append_opt_str_field(buf, ",\"origin\":", &s.origin);
    proof {
        lemma_concat_assoc(old(buf)@, acc, opt_str_field(",\"origin\":", s.origin));
        acc = acc + opt_str_field(",\"origin\":", s.origin);
    }
    append_opt_str_field(buf, ",\"user\":", &s.user);
    proof {
        lemma_concat_assoc(old(buf)@, acc, opt_str_field(",\"user\":", s.user));
        acc = acc + opt_str_field(",\"user\":", s.user);
    }
    append_opt_str_field(buf, ",\"resource_arn\":", &s.resource_arn);
    proof {
        lemma_concat_assoc(old(buf)@, acc, opt_str_field(",\"resource_arn\":", s.resource_arn));
        acc = acc + opt_str_field(",\"resource_arn\":", s.resource_arn);
    }
    append_opt_http_field(buf, &s.http);
    proof {
        lemma_concat_assoc(old(buf)@, acc, opt_http_field(s.http));
        acc = acc + opt_http_field(s.http);
    }
    append_opt_annotations_field(buf, &s.annotations);
    proof {
        lemma_concat_assoc(old(buf)@, acc, opt_annotations_field(s.annotations));
        acc = acc + opt_annotations_field(s.annotations);
    }
    append_opt_metadata_field(buf, &s.metadata);
    proof {
        lemma_concat_assoc(old(buf)@, acc, opt_metadata_field(s.metadata));
        acc = acc + opt_metadata_field(s.metadata);
    }
    append_opt_aws_field(buf, &s.aws);
    proof {
        lemma_concat_assoc(old(buf)@, acc, opt_aws_field(s.aws));
        acc = acc + opt_aws_field(s.aws);
    }
    append_opt_service_field(buf, &s.service);
    proof {
        lemma_concat_assoc(old(buf)@, acc, opt_service_field(s.service));
        acc = acc + opt_service_field(s.service);
    }
    buf.push(125);
    proof {
        assert(buf@ =~= (old(buf)@ + acc) + seq![125u8]);
        lemma_concat_assoc(old(buf)@, acc, seq![125u8]);
        acc = acc + seq![125u8];
        assert(acc == segment_json(*s));
    }
}

impl Segment {
    /// The document's exact wire form.
    pub fn to_json(&self) -> (r: Vec<u8>)
        ensures
            r@ == segment_json(*self),
    {
        let mut buf: Vec<u8> = Vec::new();
        append_segment_json(&mut buf, self);
        proof {
            assert(buf@ =~= segment_json(*self));
        }
        buf
    }
}

/// The full wire form of a subsegment document: `name`, `id`, `start_time`
/// and the `type` tag always present, in declaration order; every other
/// field omitted when absent, false or empty; child subsegments inline.
pub open spec fn subsegment_json(s: Subsegment) -> Seq<u8>
    decreases s,
    via subsegment_json_decreases
{
    "{\"name\":".spec_bytes() + json_string(s.name@) + ",\"id\":".spec_bytes() + json_string(
        segment_id_chars(s.id@),
    ) + ",\"start_time\":".spec_bytes() + seconds_bytes(s.start_time.millis) + opt_seconds_field(
        ",\"end_time\":",
        s.end_time,
    ) + opt_trace_id_field(",\"trace_id\":", s.trace_id) + opt_segment_id_field(
        ",\"parent_id\":",
        s.parent_id,
    ) + flag_field(",\"in_progress\":", s.in_progress) + flag_field(",\"fault\":", s.fault)
        + flag_field(",\"error\":", s.error) + flag_field(",\"throttled\":", s.throttled)
        + opt_str_field(",\"namespace\":", s.namespace) + opt_bool_field(",\"traced\":", s.traced)
        + opt_precursor_field(s.precursor_ids) + opt_cause_field(s.cause) + opt_annotations_field(
        s.annotations,
    ) + opt_metadata_field(s.metadata) + ",\"type\":".spec_bytes() + json_string(s.type_@) + (
    if s.subsegments@.len() == 0 {
        Seq::<u8>::empty()
    } else {
        ",\"subsegments\":".spec_bytes() + (seq![91u8] + sub_items(s.subsegments@) + seq![93u8])
    }) + opt_http_field(s.http) + opt_aws_operation_field(s.aws) + opt_sql_field(s.sql) + seq![
        125u8,
    ]
}

#[via_fn]
proof fn subsegment_json_decreases(s: Subsegment) {
    assert(decreases_to!(s => s.subsegments));
    assert(decreases_to!(s.subsegments => s.subsegments@));
}

/// The comma-separated wire forms of child subsegments.
pub open spec fn sub_items(items: Seq<Subsegment>) -> Seq<u8>
    decreases items,
{
    if items.len() == 0 {
        Seq::<u8>::empty()
    } else if items.len() == 1 {
        subsegment_json(items[0])
    } else {
        sub_items(items.drop_last()) + seq![44u8] + subsegment_json(items.last())
    }
}

/// Appends `subsegment_json(*s)`.
#[verifier::rlimit(100)]
pub fn append_subsegment_json(buf: &mut Vec<u8>, s: &Subsegment)
    ensures
        final(buf)@ == old(buf)@ + subsegment_json(*s),
    decreases *s,
{
    let ghost mut acc: Seq<u8> = Seq::<u8>::empty();
    append_lit(buf, "{\"name\":");
    proof {
        acc = "{\"name\":".spec_bytes();
    }
    append_json_string(buf, s.name.as_str());
    proof {
        lemma_concat_assoc(old(buf)@, acc, json_string(s.name@));
        acc = acc + json_string(s.name@);
    }
    append_lit(buf, ",\"id\":");
    proof {
        lemma_concat_assoc(old(buf)@, acc, ",\"id\":".spec_bytes());
        acc = acc + ",\"id\":".spec_bytes();
    }
    let idr = s.id.render();
    append_json_string(buf, idr.as_str());
    proof {
        lemma_concat_assoc(old(buf)@, acc, json_string(segment_id_chars(s.id@)));
        acc = acc + json_string(segment_id_chars(s.id@));
    }
    append_lit(buf, ",\"start_time\":");
    proof {
        lemma_concat_assoc(old(buf)@, acc, ",\"start_time\":".spec_bytes());
        acc = acc + ",\"start_time\":".spec_bytes();
    }
    append_seconds(buf, &s.start_time);
    proof {
        lemma_concat_assoc(old(buf)@, acc, seconds_bytes(s.start_time.millis));
        acc = acc + seconds_bytes(s.start_time.millis);
    }
    append_opt_seconds_field(buf, ",\"end_time\":", &s.end_time);
    proof {
        lemma_concat_assoc(old(buf)@, acc, opt_seconds_field(",\"end_time\":", s.end_time));
        acc = acc + opt_seconds_field(",\"end_time\":", s.end_time);
    }
    append_opt_trace_id_field(buf, ",\"trace_id\":", &s.trace_id);
    proof {
        lemma_concat_assoc(old(buf)@, acc, opt_trace_id_field(",\"trace_id\":", s.trace_id));
        acc = acc + opt_trace_id_field(",\"trace_id\":", s.trace_id);
    }
    append_opt_segment_id_field(buf, ",\"parent_id\":", &s.parent_id);
    proof {
        lemma_concat_assoc(old(buf)@, acc, opt_segment_id_field(",\"parent_id\":", s.parent_id));
        acc = acc + opt_segment_id_field(",\"parent_id\":", s.parent_id);
    }
    append_flag_field(buf, ",\"in_progress\":", s.in_progress);
    proof {
        lemma_concat_assoc(old(buf)@, acc, flag_field(",\"in_progress\":", s.in_progress));
        acc = acc + flag_field(",\"in_progress\":", s.in_progress);
    }
    append_flag_field(buf, ",\"fault\":", s.fault);
    proof {
        lemma_concat_assoc(old(buf)@, acc, flag_field(",\"fault\":", s.fault));
        acc = acc + flag_field(",\"fault\":", s.fault);
    }
    append_flag_field(buf, ",\"error\":", s.error);
    proof {
        lemma_concat_assoc(old(buf)@, acc, flag_field(",\"error\":", s.error));
        acc = acc + flag_field(",\"error\":", s.error);
    }
    append_flag_field(buf, ",\"throttled\":", s.throttled);
    proof {
        lemma_concat_assoc(old(buf)@, acc, flag_field(",\"throttled\":", s.throttled));
        acc = acc + flag_field(",\"throttled\":", s.throttled);
    }
    append_opt_str_field(buf, ",\"namespace\":", &s.namespace);
    proof {
        lemma_concat_assoc(old(buf)@, acc, opt_str_field(",\"namespace\":", s.namespace));
        acc = acc + opt_str_field(",\"namespace\":", s.namespace);
    }
    append_opt_bool_field(buf, ",\"traced\":", &s.traced);
    proof {
        lemma_concat_assoc(old(buf)@, acc, opt_bool_field(",\"traced\":", s.traced));
        acc = acc + opt_bool_field(",\"traced\":", s.traced);
    }
    append_opt_precursor_field(buf, &s.precursor_ids);
    proof {
        lemma_concat_assoc(old(buf)@, acc, opt_precursor_field(s.precursor_ids));
        acc = acc + opt_precursor_field(s.precursor_ids);
    }
    append_opt_cause_field(buf, &s.cause);
    proof {
        lemma_concat_assoc(old(buf)@, acc, opt_cause_field(s.cause));
        acc = acc + opt_cause_field(s.cause);
    }
    append_opt_annotations_field(buf, &s.annotations);
    proof {
        lemma_concat_assoc(old(buf)@, acc, opt_annotations_field(s.annotations));
        acc = acc + opt_annotations_field(s.annotations);
    }
    append_opt_metadata_field(buf, &s.metadata);
    proof {
        lemma_concat_assoc(old(buf)@, acc, opt_metadata_field(s.metadata));
        acc = acc + opt_metadata_field(s.metadata);
    }
    append_lit(buf, ",\"type\":");
    proof {
        lemma_concat_assoc(old(buf)@, acc, ",\"type\":".spec_bytes());
        acc = acc + ",\"type\":".spec_bytes();
    }
    append_json_string(buf, s.type_.as_str());
    proof {
        lemma_concat_assoc(old(buf)@, acc, json_string(s.type_@));
        acc = acc + json_string(s.type_@);
    }
    if s.subsegments.len() > 0 {
        append_lit(buf, ",\"subsegments\":");
        buf.push(91);
        let ghost base = buf@;
        proof {
            assert(base + sub_items(s.subsegments@.take(0)) =~= base);
        }
        let mut i: usize = 0;
        while i < s.subsegments.len()
            invariant
                0 <= i <= s.subsegments@.len(),
                buf@ == base + sub_items(s.subsegments@.take(i as int)),
            decreases s.subsegments@.len() - i,
        {
            if i > 0 {
                buf.push(44);
            }
            proof {
                assert(decreases_to!(*s => s.subsegments));
                assert(decreases_to!(s.subsegments => s.subsegments@));
                assert(decreases_to!(s.subsegments@ => s.subsegments@[i as int]));
            }
            append_subsegment_json(buf, &s.subsegments[i]);
            proof {
                assert(s.subsegments@.take(i + 1).drop_last() =~= s.subsegments@.take(i as int));
                assert(s.subsegments@.take(i + 1).last() == s.subsegments@[i as int]);
                assert(buf@ =~= base + sub_items(s.subsegments@.take(i + 1)));
            }
            i = i + 1;
        }
        buf.push(93);
        proof {
            assert(s.subsegments@.take(s.subsegments@.len() as int) =~= s.subsegments@);
            let arr = seq![91u8] + sub_items(s.subsegments@) + seq![93u8];
            let key = ",\"subsegments\":".spec_bytes();
            assert(buf@ =~= ((old(buf)@ + acc) + key) + arr);
            lemma_concat_assoc(old(buf)@, acc, key);
            lemma_concat_assoc(old(buf)@, acc + key, arr);
            lemma_concat_assoc(acc, key, arr);
            acc = acc + (key + arr);
            assert(buf@ == old(buf)@ + acc);
        }
    }
    proof {
        let piece = if s.subsegments@.len() == 0 {
            Seq::<u8>::empty()
        } else {
            ",\"subsegments\":".spec_bytes() + (seq![91u8] + sub_items(s.subsegments@) + seq![93u8])
        };
        if s.subsegments@.len() == 0 {
            assert(acc + piece =~= acc);
            acc = acc + piece;
        }
        assert(buf@ == old(buf)@ + acc);
    }
    append_opt_http_field(buf, &s.http);
    proof {
        lemma_concat_assoc(old(buf)@, acc, opt_http_field(s.http));
        acc = acc + opt_http_field(s.http);
    }
    append_opt_aws_operation_field(buf, &s.aws);
    proof {
        lemma_concat_assoc(old(buf)@, acc, opt_aws_operation_field(s.aws));
        acc = acc + opt_aws_operation_field(s.aws);
    }
    append_opt_sql_field(buf, &s.sql);
    proof {
        lemma_concat_assoc(old(buf)@, acc, opt_sql_field(s.sql));
        acc = acc + opt_sql_field(s.sql);
    }
    buf.push(125);
    proof {
        assert(buf@ =~= (old(buf)@ + acc) + seq![125u8]);
        lemma_concat_assoc(old(buf)@, acc, seq![125u8]);
        acc = acc + seq![125u8];
        assert(acc == subsegment_json(*s));
    }
}

impl Subsegment {
    /// The document's exact wire form.
    pub fn to_json(&self) -> (r: Vec<u8>)
        ensures
            r@ == subsegment_json(*self),
    {
        let mut buf: Vec<u8> = Vec::new();
        append_subsegment_json(&mut buf, self);
        proof {
            assert(buf@ =~= subsegment_json(*self));
        }
        buf
    }
}

} // verus!
