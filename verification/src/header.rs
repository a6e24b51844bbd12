//! The incoming propagation header: its parser, which lets a process join an
//! already-started trace, and the canonical rendering of the understood
//! fields.

use vstd::prelude::*;
use crate::error::Error;

verus! {

/// The request-header name the propagation text travels under.
pub const NAME: &'static str = "X-Amzn-Trace-Id";

/// Whether the current trace is recorded, as carried by the `Sampled=` part
/// of the propagation header.
#[derive(Debug, PartialEq, Eq, Structural, Clone, Copy)]
pub enum SamplingDecision {
    /// The current trace is sampled and will be forwarded to the collector.
    Sampled,
    /// The current trace is not sampled.
    NotSampled,
    /// The decision is left to the downstream service.
    Requested,
    /// No decision was communicated, or the value was not recognized.
    Unknown,
}

/// The decision that one whole `Sampled=...` header part denotes; anything
/// unrecognized is [`SamplingDecision::Unknown`].
pub open spec fn decision_of(p: Seq<char>) -> SamplingDecision {
    if p == "Sampled=1"@ {
        SamplingDecision::Sampled
    } else if p == "Sampled=0"@ {
        SamplingDecision::NotSampled
    } else if p == "Sampled=?"@ {
        SamplingDecision::Requested
    } else {
        SamplingDecision::Unknown
    }
}

/// Whether `p` begins with `q`.
pub open spec fn starts_with(p: Seq<char>, q: Seq<char>) -> bool {
    p.len() >= q.len() && p.take(q.len() as int) == q
}

/// The position of the first `c` in `s`, or `s.len()` if there is none.
pub open spec fn first_index(s: Seq<char>, c: char) -> int
    decreases s.len(),
{
    if s.len() == 0 {
        0
    } else if s[0] == c {
        0
    } else {
        1 + first_index(s.drop_first(), c)
    }
}

/// `first_index` points at the first occurrence: it is in bounds, lands on
/// `c` when `c` occurs, and nothing before it is `c`.
pub proof fn lemma_first_index(s: Seq<char>, c: char)
    ensures
        0 <= first_index(s, c) <= s.len(),
        first_index(s, c) < s.len() ==> s[first_index(s, c)] == c,
        forall|t: int| 0 <= t < first_index(s, c) ==> s[t] != c,
    decreases s.len(),
{
    if s.len() > 0 && s[0] != c {
        lemma_first_index(s.drop_first(), c);
        assert forall|t: int| 0 <= t < first_index(s, c) implies s[t] != c by {
            if t > 0 {
                assert(s.drop_first()[t - 1] != c);
            }
        }
    }
}

/// A position on the first occurrence of `c`, with none before it, is
/// exactly `first_index`.
pub proof fn lemma_first_index_is(s: Seq<char>, c: char, k: int)
    requires
        0 <= k <= s.len(),
        k < s.len() ==> s[k] == c,
        forall|t: int| 0 <= t < k ==> s[t] != c,
    ensures
        first_index(s, c) == k,
{
    lemma_first_index(s, c);
    let fi = first_index(s, c);
    if fi < k {
        assert(s[fi] != c);
    }
    if k < fi {
        assert(s[k] != c);
    }
}

/// Whether the header part `p` carries a `=` separator.
pub open spec fn has_eq(p: Seq<char>) -> bool {
    exists|i: int| 0 <= i < p.len() && p[i] == '='
}

/// The parsed propagation header.
///
/// Constructed once per inbound request by [`Header::from_str`]; read-only
/// thereafter.
#[derive(Debug)]
pub struct Header {
    /// The identifier of the trace this request belongs to, from `Root=`;
    /// empty when no `Root=` part was present (callers must check).
    pub trace_id: String,
    /// The identifier of the calling unit of work, from `Parent=`.
    pub parent_id: Option<String>,
    /// The inherited sampling decision, from `Sampled=`.
    pub sampling_decision: SamplingDecision,
    /// Any other `key=value` parts, for forward compatibility; one entry per
    /// key, the last value seen kept.
    pub additional_data: Vec<(String, String)>,
}

/// The mathematical value of a [`Header`].
pub struct HeaderV {
    /// The trace identifier text.
    pub trace_id: Seq<char>,
    /// The parent identifier text, when present.
    pub parent_id: Option<Seq<char>>,
    /// The inherited sampling decision.
    pub sampling_decision: SamplingDecision,
    /// The other `key=value` pairs, in first-seen key order.
    pub additional_data: Seq<(Seq<char>, Seq<char>)>,
}

/// The values of a key/value pair list.
pub open spec fn pairs_view(v: Seq<(String, String)>) -> Seq<(Seq<char>, Seq<char>)> {
    v.map_values(|p: (String, String)| (p.0@, p.1@))
}

impl View for Header {
    type V = HeaderV;

    open spec fn view(&self) -> HeaderV {
        HeaderV {
            trace_id: self.trace_id@,
            parent_id: match self.parent_id {
                Some(ref p) => Some(p@),
                None => None,
            },
            sampling_decision: self.sampling_decision,
            additional_data: pairs_view(self.additional_data@),
        }
    }
}

/// A header with no fields set: empty trace identifier, no parent, unknown
/// decision, no additional data.
pub open spec fn empty_header() -> HeaderV {
    HeaderV {
        trace_id: Seq::<char>::empty(),
        parent_id: None,
        sampling_decision: SamplingDecision::Unknown,
        additional_data: Seq::<(Seq<char>, Seq<char>)>::empty(),
    }
}

/// `m` with the value for `k` replaced by `v`, or `(k, v)` appended when `k`
/// is absent.
pub open spec fn spec_upsert(
    m: Seq<(Seq<char>, Seq<char>)>,
    k: Seq<char>,
    v: Seq<char>,
) -> Seq<(Seq<char>, Seq<char>)>
    decreases m.len(),
{
    if m.len() == 0 {
        seq![(k, v)]
    } else if m[0].0 == k {
        seq![(k, v)] + m.drop_first()
    } else {
        seq![m[0]] + spec_upsert(m.drop_first(), k, v)
    }
}

/// When `k` first occurs at `i`, upserting replaces exactly that entry.
proof fn lemma_upsert_found(m: Seq<(Seq<char>, Seq<char>)>, k: Seq<char>, v: Seq<char>, i: int)
    requires
        0 <= i < m.len(),
        m[i].0 == k,
        forall|t: int| 0 <= t < i ==> (#[trigger] m[t]).0 != k,
    ensures
        spec_upsert(m, k, v) == m.update(i, (k, v)),
    decreases m.len(),
{
    if i == 0 {
        assert(spec_upsert(m, k, v) =~= m.update(0, (k, v)));
    } else {
        assert(m.drop_first()[i - 1].0 == k);
        assert forall|t: int| 0 <= t < i - 1 implies (#[trigger] m.drop_first()[t]).0 != k by {
            assert(m[t + 1].0 != k);
        }
        lemma_upsert_found(m.drop_first(), k, v, i - 1);
        assert(spec_upsert(m, k, v) =~= m.update(i, (k, v)));
    }
}

/// When `k` does not occur, upserting appends `(k, v)`.
proof fn lemma_upsert_absent(m: Seq<(Seq<char>, Seq<char>)>, k: Seq<char>, v: Seq<char>)
    requires
        forall|t: int| 0 <= t < m.len() ==> (#[trigger] m[t]).0 != k,
    ensures
        spec_upsert(m, k, v) == m.push((k, v)),
    decreases m.len(),
{
    if m.len() == 0 {
        assert(spec_upsert(m, k, v) =~= m.push((k, v)));
    } else {
        assert forall|t: int| 0 <= t < m.drop_first().len() implies (#[trigger] m.drop_first()[t]).0
            != k by {
            assert(m[t + 1].0 != k);
        }
        lemma_upsert_absent(m.drop_first(), k, v);
        assert(spec_upsert(m, k, v) =~= m.push((k, v)));
    }
}

/// One `;`-delimited part applied to the header built so far: `Root=`,
/// `Parent=` and `Sampled=` set their field, `Self=` is recognized and
/// ignored, any other part with a `=` joins the additional data, and a part
/// without `=` fails the whole parse.
pub open spec fn apply_part(h: HeaderV, p: Seq<char>) -> Option<HeaderV> {
    if starts_with(p, "Root="@) {
        Some(
            HeaderV {
                trace_id: p.skip(5),
                parent_id: h.parent_id,
                sampling_decision: h.sampling_decision,
                additional_data: h.additional_data,
            },
        )
    } else if starts_with(p, "Parent="@) {
        Some(
            HeaderV {
                trace_id: h.trace_id,
                parent_id: Some(p.skip(7)),
                sampling_decision: h.sampling_decision,
                additional_data: h.additional_data,
            },
        )
    } else if starts_with(p, "Sampled="@) {
        Some(
            HeaderV {
                trace_id: h.trace_id,
                parent_id: h.parent_id,
                sampling_decision: decision_of(p),
                additional_data: h.additional_data,
            },
        )
    } else if starts_with(p, "Self="@) {
        Some(h)
    } else if has_eq(p) {
        Some(
            HeaderV {
                trace_id: h.trace_id,
                parent_id: h.parent_id,
                sampling_decision: h.sampling_decision,
                additional_data: spec_upsert(
                    h.additional_data,
                    p.take(first_index(p, '=')),
                    p.skip(first_index(p, '=') + 1),
                ),
            },
        )
    } else {
        None
    }
}

/// The `;`-delimited parts of `s` applied left to right onto `h`.
pub open spec fn fold_parts(h: HeaderV, s: Seq<char>) -> Option<HeaderV>
    decreases s.len(),
    via fold_parts_decreases
{
    let i = first_index(s, ';');
    match apply_part(h, s.take(i)) {
        None => None,
        Some(h2) => if i == s.len() {
            Some(h2)
        } else {
            fold_parts(h2, s.skip(i + 1))
        },
    }
}

#[via_fn]
proof fn fold_parts_decreases(h: HeaderV, s: Seq<char>) {
    lemma_first_index(s, ';');
}

/// What parsing the propagation header text `s` yields: the fields of the
/// understood parts, the other `key=value` pairs, or nothing when some part
/// has no `=`.
pub open spec fn parse_header(s: Seq<char>) -> Option<HeaderV> {
    fold_parts(empty_header(), s)
}

/// The `;`-delimited parts of `s`, in order; splitting `""` gives one empty
/// part.
pub open spec fn header_parts(s: Seq<char>) -> Seq<Seq<char>>
    decreases s.len(),
    via header_parts_decreases
{
    let i = first_index(s, ';');
    if i == s.len() {
        seq![s]
    } else {
        seq![s.take(i)] + header_parts(s.skip(i + 1))
    }
}

#[via_fn]
proof fn header_parts_decreases(s: Seq<char>) {
    lemma_first_index(s, ';');
}

/// A part that begins with one of the understood keys carries a `=`.
proof fn lemma_prefixed_has_eq(p: Seq<char>)
    ensures
        starts_with(p, "Root="@) ==> has_eq(p),
        starts_with(p, "Parent="@) ==> has_eq(p),
        starts_with(p, "Sampled="@) ==> has_eq(p),
        starts_with(p, "Self="@) ==> has_eq(p),
{
    reveal_strlit("Root=");
    reveal_strlit("Parent=");
    reveal_strlit("Sampled=");
    reveal_strlit("Self=");
    if starts_with(p, "Root="@) {
        assert(p.take(5)[4] == '=');
        assert(p[4] == '=');
    }
    if starts_with(p, "Parent="@) {
        assert(p.take(7)[6] == '=');
        assert(p[6] == '=');
    }
    if starts_with(p, "Sampled="@) {
        assert(p.take(8)[7] == '=');
        assert(p[7] == '=');
    }
    if starts_with(p, "Self="@) {
        assert(p.take(5)[4] == '=');
        assert(p[4] == '=');
    }
}

/// One part is consumed by `apply_part` exactly when it carries a `=`.
proof fn lemma_apply_part_some_iff_eq(h: HeaderV, p: Seq<char>)
    ensures
        (apply_part(h, p) is Some) <==> has_eq(p),
{
    lemma_prefixed_has_eq(p);
}

/// Folding fails exactly when some part of `s` has no `=`.
proof fn lemma_fold_fails_iff(h: HeaderV, s: Seq<char>)
    ensures
        (fold_parts(h, s) is None) <==> exists|k: int|
            0 <= k < header_parts(s).len() && !has_eq(#[trigger] header_parts(s)[k]),
    decreases s.len(),
{
    lemma_first_index(s, ';');
    let i = first_index(s, ';');
    lemma_apply_part_some_iff_eq(h, s.take(i));
    if apply_part(h, s.take(i)) is None {
        if i == s.len() {
            assert(header_parts(s)[0] == s && s.take(i) =~= s);
        } else {
            assert(header_parts(s)[0] == s.take(i));
        }
    } else {
        let h2 = apply_part(h, s.take(i))->Some_0;
        if i == s.len() {
            assert(s.take(i) =~= s);
            assert(forall|k: int|
                0 <= k < header_parts(s).len() ==> has_eq(#[trigger] header_parts(s)[k]));
        } else {
            lemma_fold_fails_iff(h2, s.skip(i + 1));
            let rest = header_parts(s.skip(i + 1));
            if fold_parts(h2, s.skip(i + 1)) is None {
                let k = choose|k: int| 0 <= k < rest.len() && !has_eq(#[trigger] rest[k]);
                assert(header_parts(s)[k + 1] == rest[k]);
            } else {
                assert forall|k: int|
                    0 <= k < header_parts(s).len() implies has_eq(
                    #[trigger] header_parts(s)[k],
                ) by {
                    if k > 0 {
                        assert(header_parts(s)[k] == rest[k - 1]);
                    }
                }
            }
        }
    }
}

/// Law: parsing fails exactly when some `;`-delimited part of the input
/// carries no `=`; a header of well-formed parts always parses.
pub proof fn lemma_parse_fails_iff_part_without_eq(s: Seq<char>)
    ensures
        (parse_header(s) is None) <==> exists|k: int|
            0 <= k < header_parts(s).len() && !has_eq(#[trigger] header_parts(s)[k]),
{
    lemma_fold_fails_iff(empty_header(), s);
}

/// Whether `s` contains no `;`, so that it survives part splitting.
pub open spec fn semi_free(s: Seq<char>) -> bool {
    forall|i: int| 0 <= i < s.len() ==> s[i] != ';'
}

/// Folding a text of the shape `piece;rest` applies the piece, then folds the
/// rest.
proof fn lemma_fold_step(h: HeaderV, s: Seq<char>, piece: Seq<char>, rest: Seq<char>)
    requires
        s == piece + seq![';'] + rest,
        semi_free(piece),
    ensures
        fold_parts(h, s) == match apply_part(h, piece) {
            None => None,
            Some(h2) => fold_parts(h2, rest),
        },
{
    assert forall|t: int| 0 <= t < piece.len() implies s[t] != ';' by {
        assert(s[t] == piece[t]);
    }
    assert(s[piece.len() as int] == ';');
    lemma_first_index_is(s, ';', piece.len() as int);
    assert(s.take(piece.len() as int) =~= piece);
    assert(s.skip(piece.len() as int + 1) =~= rest);
}

/// Folding a text with no `;` applies it as the one and only piece.
proof fn lemma_fold_last(h: HeaderV, piece: Seq<char>)
    requires
        semi_free(piece),
    ensures
        fold_parts(h, piece) == apply_part(h, piece),
{
    lemma_first_index_is(piece, ';', piece.len() as int);
    assert(piece.take(piece.len() as int) =~= piece);
}

/// Applying a `Root=` piece sets exactly the trace identifier.
proof fn lemma_apply_root(h: HeaderV, tid: Seq<char>)
    ensures
        apply_part(h, "Root="@ + tid) == Some(HeaderV { trace_id: tid, ..h }),
{
    reveal_strlit("Root=");
    let piece = "Root="@ + tid;
    assert(piece.take(5) =~= "Root="@);
    assert(piece.skip(5) =~= tid);
}

/// Applying a `Parent=` piece sets exactly the parent identifier.
proof fn lemma_apply_parent(h: HeaderV, p: Seq<char>)
    ensures
        apply_part(h, "Parent="@ + p) == Some(HeaderV { parent_id: Some(p), ..h }),
{
    reveal_strlit("Root=");
    reveal_strlit("Parent=");
    let piece = "Parent="@ + p;
    if starts_with(piece, "Root="@) {
        assert(piece.take(5)[0] == piece[0]);
    }
    assert(!starts_with(piece, "Root="@));
    assert(piece.take(7) =~= "Parent="@);
    assert(piece.skip(7) =~= p);
}

/// The `Sampled=` piece a known decision renders to; unknown decisions
/// render to no piece at all.
pub open spec fn sampled_piece(d: SamplingDecision) -> Seq<char> {
    match d {
        SamplingDecision::Sampled => "Sampled=1"@,
        SamplingDecision::NotSampled => "Sampled=0"@,
        SamplingDecision::Requested => "Sampled=?"@,
        SamplingDecision::Unknown => Seq::<char>::empty(),
    }
}

/// Applying the rendered `Sampled=` piece of a known decision recovers
/// exactly that decision.
proof fn lemma_apply_sampled(h: HeaderV, d: SamplingDecision)
    requires
        d != SamplingDecision::Unknown,
    ensures
        apply_part(h, sampled_piece(d)) == Some(HeaderV { sampling_decision: d, ..h }),
{
    reveal_strlit("Root=");
    reveal_strlit("Parent=");
    reveal_strlit("Sampled=");
    reveal_strlit("Sampled=1");
    reveal_strlit("Sampled=0");
    reveal_strlit("Sampled=?");
    let piece = sampled_piece(d);
    if starts_with(piece, "Root="@) {
        assert(piece.take(5)[0] == piece[0]);
    }
    if starts_with(piece, "Parent="@) {
        assert(piece.take(7)[0] == piece[0]);
    }
    assert(piece.take(8) =~= "Sampled="@);
    assert("Sampled=1"@[8] == '1');
    assert("Sampled=0"@[8] == '0');
    assert("Sampled=?"@[8] == '?');
    match d {
        SamplingDecision::Sampled => {
            assert(decision_of(piece) == d);
        },
        SamplingDecision::NotSampled => {
            assert(piece[8] == '0');
            assert(decision_of(piece) == d);
        },
        SamplingDecision::Requested => {
            assert(piece[8] == '?');
            assert(decision_of(piece) == d);
        },
        SamplingDecision::Unknown => {
        },
    }
}

/// A rendered field piece contains no `;` when the value itself has none.
proof fn lemma_semi_free_piece(lit: Seq<char>, v: Seq<char>)
    requires
        semi_free(lit),
        semi_free(v),
    ensures
        semi_free(lit + v),
{
    assert forall|i: int| 0 <= i < (lit + v).len() implies (lit + v)[i] != ';' by {
        if i < lit.len() {
            assert((lit + v)[i] == lit[i]);
        } else {
            assert((lit + v)[i] == v[i - lit.len()]);
        }
    }
}

/// Law (round trip of the understood fields): rendering a header and parsing
/// the result succeeds and recovers the trace identifier, the parent
/// identifier and the sampling decision exactly, whenever the two
/// identifiers contain no `;`. Additional data does not round-trip: the
/// parsed header carries none.
pub proof fn lemma_render_parse_round_trip(h: HeaderV)
    requires
        semi_free(h.trace_id),
        match h.parent_id {
            Some(p) => semi_free(p),
            None => true,
        },
    ensures
        parse_header(rendered_header(h)) matches Some(m) && m.trace_id == h.trace_id
            && m.parent_id == h.parent_id && m.sampling_decision == h.sampling_decision
            && m.additional_data == Seq::<(Seq<char>, Seq<char>)>::empty(),
{
    reveal_strlit("Root=");
    reveal_strlit(";Parent=");
    reveal_strlit("Parent=");
    reveal_strlit(";Sampled=1");
    reveal_strlit(";Sampled=0");
    reveal_strlit(";Sampled=?");
    reveal_strlit("Sampled=1");
    reveal_strlit("Sampled=0");
    reveal_strlit("Sampled=?");
    let e = empty_header();
    let r = rendered_header(h);
    let root = "Root="@ + h.trace_id;
    let h1 = HeaderV { trace_id: h.trace_id, ..e };
    lemma_semi_free_piece("Root="@, h.trace_id);
    lemma_apply_root(e, h.trace_id);
    let d = h.sampling_decision;
    match h.parent_id {
        Some(p) => {
            let parent = "Parent="@ + p;
            let h2 = HeaderV { parent_id: Some(p), ..h1 };
            lemma_semi_free_piece("Parent="@, p);
            lemma_apply_parent(h1, p);
            if d == SamplingDecision::Unknown {
                assert(r =~= root + seq![';'] + parent);
                lemma_fold_step(e, r, root, parent);
                lemma_fold_last(h1, parent);
                assert(parse_header(r) == Some(h2));
            } else {
                assert(r =~= root + seq![';'] + (parent + seq![';'] + sampled_piece(d)));
                lemma_fold_step(e, r, root, parent + seq![';'] + sampled_piece(d));
                lemma_fold_step(h1, parent + seq![';'] + sampled_piece(d), parent, sampled_piece(d));
                lemma_apply_sampled(h2, d);
                lemma_fold_last(h2, sampled_piece(d));
                assert(parse_header(r) == Some(HeaderV { sampling_decision: d, ..h2 }));
            }
        },
        None => {
            if d == SamplingDecision::Unknown {
                assert(r =~= root);
                lemma_fold_last(e, root);
                assert(parse_header(r) == Some(h1));
            } else {
                assert(r =~= root + seq![';'] + sampled_piece(d));
                lemma_fold_step(e, r, root, sampled_piece(d));
                lemma_apply_sampled(h1, d);
                lemma_fold_last(h1, sampled_piece(d));
                assert(parse_header(r) == Some(HeaderV { sampling_decision: d, ..h1 }));
            }
        },
    }
}

/// Whether `s` begins with `p`, character by character.
pub fn str_has_prefix(s: &str, p: &str) -> (r: bool)
    ensures
        r == starts_with(s@, p@),
{
    let sn = s.unicode_len();
    let pn = p.unicode_len();
    if sn < pn {
        return false;
    }
    let mut i: usize = 0;
    while i < pn
        invariant
            0 <= i <= pn,
            pn <= sn,
            sn == s@.len(),
            pn == p@.len(),
            forall|j: int| 0 <= j < i ==> s@[j] == p@[j],
        decreases pn - i,
    {
        if s.get_char(i) != p.get_char(i) {
            proof {
                assert(s@.take(pn as int)[i as int] == s@[i as int]);
            }
            return false;
        }
        i = i + 1;
    }
    proof {
        assert(s@.take(pn as int) =~= p@);
    }
    true
}

impl SamplingDecision {
    /// The decision that one whole `Sampled=...` header part denotes;
    /// anything unrecognized is `Unknown`.
    pub fn from(value: &str) -> (d: SamplingDecision)
        ensures
            d == decision_of(value@),
    {
        proof {
            reveal_strlit("Sampled=");
            reveal_strlit("Sampled=1");
            reveal_strlit("Sampled=0");
            reveal_strlit("Sampled=?");
        }
        let n = value.unicode_len();
        if n == 9 && str_has_prefix(value, "Sampled=") {
            let c = value.get_char(8);
            proof {
                assert forall|j: int| 0 <= j < 8 implies value@[j] == "Sampled="@[j] by {
                    assert(value@.take(8)[j] == value@[j]);
                }
            }
            if c == '1' {
                proof {
                    assert(value@ =~= "Sampled=1"@);
                }
                SamplingDecision::Sampled
            } else if c == '0' {
                proof {
                    assert(value@ =~= "Sampled=0"@);
                }
                SamplingDecision::NotSampled
            } else if c == '?' {
                proof {
                    assert(value@ =~= "Sampled=?"@);
                }
                SamplingDecision::Requested
            } else {
                proof {
                    assert(value@ != "Sampled=1"@ && value@ != "Sampled=0"@ && value@
                        != "Sampled=?"@);
                }
                SamplingDecision::Unknown
            }
        } else {
            proof {
                if value@ == "Sampled=1"@ || value@ == "Sampled=0"@ || value@ == "Sampled=?"@ {
                    assert(value@.len() == 9);
                    assert(value@.take(8) =~= "Sampled="@);
                }
            }
            SamplingDecision::Unknown
        }
    }
}

impl Default for SamplingDecision {
    /// No decision.
    fn default() -> (d: SamplingDecision)
        ensures
            d == SamplingDecision::Unknown,
    {
        SamplingDecision::Unknown
    }
}

/// Replaces the value stored for `key`, or appends the pair when `key` is
/// absent.
fn upsert(m: &mut Vec<(String, String)>, key: String, val: String)
    ensures
        pairs_view(final(m)@) == spec_upsert(pairs_view(old(m)@), key@, val@),
{
    let mut i: usize = 0;
    while i < m.len()
        invariant
            0 <= i <= m@.len(),
            m@ == old(m)@,
            forall|t: int| 0 <= t < i ==> (#[trigger] m@[t]).0@ != key@,
        decreases m@.len() - i,
    {
        if m[i].0 == key {
            let _ = m.remove(i);
            m.insert(i, (key, val));
            proof {
                assert forall|t: int| 0 <= t < i implies (#[trigger] pairs_view(old(m)@)[t]).0
                    != key@ by {
                    assert(pairs_view(old(m)@)[t].0 == old(m)@[t].0@);
                }
                lemma_upsert_found(pairs_view(old(m)@), key@, val@, i as int);
                assert(pairs_view(m@) =~= pairs_view(old(m)@).update(i as int, (key@, val@)));
            }
            return ;
        }
        i = i + 1;
    }
    m.push((key, val));
    proof {
        assert forall|t: int| 0 <= t < pairs_view(old(m)@).len() implies (#[trigger] pairs_view(
            old(m)@,
        )[t]).0 != key@ by {
            assert(pairs_view(old(m)@)[t].0 == old(m)@[t].0@);
        }
        lemma_upsert_absent(pairs_view(old(m)@), key@, val@);
        assert(pairs_view(m@) =~= pairs_view(old(m)@).push((key@, val@)));
    }
}

impl Header {
    /// Parses the propagation header text: parts split on `;`, `Root=`,
    /// `Parent=` and `Sampled=` understood, `Self=` ignored, any other
    /// `key=value` kept as additional data; fails when a part has no `=`.
    pub fn from_str(s: &str) -> (r: Result<Header, Error>)
        ensures
            match r {
                Ok(h) => parse_header(s@) matches Some(m) && h@ == m,
                Err(e) => parse_header(s@) is None && e == Error::HeaderParse,
            },
    {
        let n = s.unicode_len();
        let mut h = Header {
            trace_id: String::new(),
            parent_id: None,
            sampling_decision: SamplingDecision::Unknown,
            additional_data: Vec::new(),
        };
        proof {
            assert(h@.trace_id =~= empty_header().trace_id);
            assert(h@.additional_data =~= empty_header().additional_data);
            assert(h@ == empty_header());
        }
        let mut pos: usize = 0;
        proof {
            assert(s@.skip(0) =~= s@);
        }
        loop
            invariant
                pos <= n,
                n == s@.len(),
                fold_parts(h@, s@.skip(pos as int)) == parse_header(s@),
            decreases n - pos,
        {
            let ghost tail = s@.skip(pos as int);
            let mut j: usize = pos;
            while j < n && s.get_char(j) != ';'
                invariant
                    pos <= j <= n,
                    n == s@.len(),
                    forall|t: int| pos <= t < j ==> s@[t] != ';',
                decreases n - j,
            {
                j = j + 1;
            }
            proof {
                assert forall|t: int| 0 <= t < j - pos implies tail[t] != ';' by {
                    assert(tail[t] == s@[pos + t]);
                }
                lemma_first_index_is(tail, ';', j - pos);
            }
            let part = s.substring_char(pos, j);
            proof {
                assert(part@ =~= tail.take(j - pos));
            }
            let plen = j - pos;
            let ghost h0 = h@;
            if str_has_prefix(part, "Root=") {
                proof {
                    reveal_strlit("Root=");
                }
                h.trace_id = String::from_str(part.substring_char(5, plen));
                proof {
                    assert(h@.trace_id =~= part@.skip(5));
                    assert(apply_part(h0, part@) == Some(h@));
                }
            } else if str_has_prefix(part, "Parent=") {
                proof {
                    reveal_strlit("Parent=");
                }
                h.parent_id = Some(String::from_str(part.substring_char(7, plen)));
                proof {
                    assert(h@.parent_id->Some_0 =~= part@.skip(7));
                    assert(apply_part(h0, part@) == Some(h@));
                }
            } else if str_has_prefix(part, "Sampled=") {
                h.sampling_decision = SamplingDecision::from(part);
                proof {
                    assert(apply_part(h0, part@) == Some(h@));
                }
            } else if str_has_prefix(part, "Self=") {
                proof {
                    assert(apply_part(h0, part@) == Some(h@));
                }
            } else {
                let mut k: usize = 0;
                while k < plen && part.get_char(k) != '='
                    invariant
                        0 <= k <= plen,
                        plen == part@.len(),
                        forall|t: int| 0 <= t < k ==> part@[t] != '=',
                    decreases plen - k,
                {
                    k = k + 1;
                }
                proof {
                    lemma_first_index_is(part@, '=', k as int);
                }
                if k == plen {
                    proof {
                        assert(!has_eq(part@));
                        assert(apply_part(h0, part@) is None);
                    }
                    return Err(Error::HeaderParse);
                }
                let key = String::from_str(part.substring_char(0, k));
                let val = String::from_str(part.substring_char(k + 1, plen));
                proof {
                    assert(key@ =~= part@.take(k as int));
                    assert(val@ =~= part@.skip(k + 1));
                    assert(part@[k as int] == '=');
                    assert(has_eq(part@));
                }
                upsert(&mut h.additional_data, key, val);
                proof {
                    assert(apply_part(h0, part@) == Some(h@));
                }
            }
            if j == n {
                proof {
                    assert(part@ =~= tail);
                    assert(first_index(tail, ';') == tail.len());
                    assert(fold_parts(h0, tail) == Some(h@));
                }
                return Ok(h);
            }
            proof {
                assert(first_index(tail, ';') == j - pos);
                assert(j - pos < tail.len());
                assert(tail.skip(j - pos + 1) =~= s@.skip(j + 1));
                assert(fold_parts(h0, tail) == fold_parts(h@, s@.skip(j + 1)));
            }
            pos = j + 1;
        }
    }
}

impl Default for Header {
    /// A header with no fields set.
    fn default() -> (h: Header)
        ensures
            h@ == empty_header(),
    {
        let h = Header {
            trace_id: String::new(),
            parent_id: None,
            sampling_decision: SamplingDecision::Unknown,
            additional_data: Vec::new(),
        };
        proof {
            assert(h@.trace_id =~= empty_header().trace_id);
            assert(h@.additional_data =~= empty_header().additional_data);
        }
        h
    }
}

/// The `;Sampled=` part that a decision renders to; unknown decisions render
/// to nothing.
pub open spec fn decision_suffix(d: SamplingDecision) -> Seq<char> {
    match d {
        SamplingDecision::Sampled => ";Sampled=1"@,
        SamplingDecision::NotSampled => ";Sampled=0"@,
        SamplingDecision::Requested => ";Sampled=?"@,
        SamplingDecision::Unknown => Seq::<char>::empty(),
    }
}

/// The canonical text of the understood header fields: `Root=`, then
/// `;Parent=` when a parent is present, then `;Sampled=` when a decision was
/// communicated. Additional data does not round-trip.
pub open spec fn rendered_header(h: HeaderV) -> Seq<char> {
    "Root="@ + h.trace_id + (match h.parent_id {
        Some(p) => ";Parent="@ + p,
        None => Seq::<char>::empty(),
    }) + decision_suffix(h.sampling_decision)
}

impl Header {
    /// Renders the understood fields back to propagation-header text.
    pub fn render(&self) -> (s: String)
        ensures
            s@ == rendered_header(self@),
    {
        let mut out = String::from_str("Root=");
        out.append(self.trace_id.as_str());
        if let Some(p) = &self.parent_id {
            out.append(";Parent=");
            out.append(p.as_str());
        }
        match self.sampling_decision {
            SamplingDecision::Sampled => out.append(";Sampled=1"),
            SamplingDecision::NotSampled => out.append(";Sampled=0"),
            SamplingDecision::Requested => out.append(";Sampled=?"),
            SamplingDecision::Unknown => (),
        }
        assert(out@ =~= rendered_header(self@));
        out
    }
}

} // verus!
