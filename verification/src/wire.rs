//! The format of the packets on the wire, and what reading one gives back.

use vstd::prelude::*;

use crate::downlink;
use crate::ground;
use crate::text;
use crate::types::SensorReading;

verus! {

/// The value of a member of an object.
pub enum WireValue {
    /// A number or a truth value.
    Bare(Seq<char>),
    /// A text, which is sent in quotes and otherwise as it is: it holds nothing
    /// that would have to be escaped.
    Quoted(Seq<char>),
}

/// A member of an object.
pub struct Member {
    pub name: Seq<char>,
    pub value: WireValue,
}

impl WireValue {
    /// The value as it is sent.
    pub open spec fn sent(self) -> Seq<char> {
        match self {
            WireValue::Bare(s) => s,
            WireValue::Quoted(s) => seq!['"'] + s + seq!['"'],
        }
    }

    /// The value without its quotes.
    pub open spec fn inner(self) -> Seq<char> {
        match self {
            WireValue::Bare(s) => s,
            WireValue::Quoted(s) => s,
        }
    }
}

impl Member {
    /// The member as it is sent.
    pub open spec fn sent(self) -> Seq<char> {
        ground::key_pattern(self.name) + self.value.sent()
    }

    /// Whether neither name nor value holds a quote, and the name is one.
    pub open spec fn plain(self) -> bool {
        is_name(self.name) && no_quote(self.value.inner())
    }
}

/// Whether `s` holds no quote.
pub open spec fn no_quote(s: Seq<char>) -> bool {
    forall|i: int| 0 <= i < s.len() ==> #[trigger] s[i] != '"'
}

/// Whether `s` can be the name of a member.
pub open spec fn is_name(s: Seq<char>) -> bool {
    &&& s.len() > 0
    &&& no_quote(s)
    &&& s[0] != ':'
    &&& s[0] != ','
    &&& s[0] != '}'
}

/// What follows the member at position `i`.
pub open spec fn members_behind(ms: Seq<Member>, i: int) -> Seq<char>
    recommends
        0 <= i < ms.len(),
    decreases ms.len() - i, 0int,
{
    if i + 1 < ms.len() {
        seq![','] + members_from(ms, i + 1)
    } else {
        seq!['}']
    }
}

/// The members from position `i` on, up to the end of the object.
pub open spec fn members_from(ms: Seq<Member>, i: int) -> Seq<char>
    recommends
        0 <= i < ms.len(),
    decreases ms.len() - i, 1int,
{
    ms[i].sent() + members_behind(ms, i)
}

/// A flat object: its members between braces, with commas between them and no
/// white space.
pub open spec fn object(ms: Seq<Member>) -> Seq<char> {
    seq!['{'] + members_from(ms, 0)
}

/// The pattern of a key stands nowhere in a member, but at the start of one of
/// that name.
proof fn lemma_pattern_in_member(m: Member, rest: Seq<char>, key: Seq<char>, j: int)
    requires
        m.plain(),
        is_name(key),
        rest.len() > 0,
        rest[0] == ',' || rest[0] == '}',
        0 <= j <= m.sent().len(),
        text::occurs_at(m.sent() + rest, ground::key_pattern(key), j),
    ensures
        j == 0,
        m.name == key,
{
    let t = m.sent() + rest;
    let p = ground::key_pattern(key);
    let w = t.subrange(j, j + p.len());
    let n = m.name.len() as int;
    let k = key.len() as int;
    let v = m.value.inner();
    assert(p[0] == '"' && p[k + 1] == '"' && p[k + 2] == ':');
    assert forall|i: int| 0 <= i < p.len() implies t[j + i] == #[trigger] p[i] by {
        assert(w[i] == p[i]);
    }
    assert(t[j] == p[0]);
    assert(t[j + 1] == p[1]);
    assert(p[1] == key[0]);
    assert(t[0] == '"' && t[n + 1] == '"' && t[n + 2] == ':');
    assert forall|i: int| 0 <= i < n implies t[1 + i] == #[trigger] m.name[i] by {}
    if j == 0 {
        if n < k {
            assert(t[j + (n + 1)] == p[n + 1]);
            assert(p[n + 1] == key[n]);
        } else if k < n {
            assert(t[j + (k + 1)] == p[k + 1]);
            assert(t[1 + k] == m.name[k]);
        } else {
            assert forall|i: int| 0 <= i < n implies #[trigger] m.name[i] == key[i] by {
                assert(t[j + (1 + i)] == p[1 + i]);
                assert(p[1 + i] == key[i]);
            }
            assert(m.name =~= key);
        }
    } else if j <= n {
        assert(t[1 + (j - 1)] == m.name[j - 1]);
    } else if j == n + 1 {
    } else if j == n + 2 {
    } else {
        match m.value {
            WireValue::Bare(s) => {
                if j < m.sent().len() {
                    assert(t[j] == s[j - n - 3]);
                } else {
                    assert(t[j] == rest[0]);
                }
            },
            WireValue::Quoted(s) => {
                let q = s.len() as int;
                assert(t[n + 3] == '"' && t[n + 4 + q] == '"');
                assert forall|i: int| 0 <= i < q implies t[n + 4 + i] == #[trigger] s[i] by {}
                assert(m.sent().len() == n + 5 + q);
                assert(t[n + 5 + q] == rest[0]);
                if j == n + 3 {
                    if q < k {
                        assert(t[j + (q + 1)] == p[q + 1]);
                        assert(p[q + 1] == key[q]);
                    } else if k < q {
                        assert(t[j + (k + 1)] == p[k + 1]);
                        assert(t[n + 4 + k] == s[k]);
                    } else {
                        assert(t[j + (k + 2)] == p[k + 2]);
                    }
                } else if j < n + 4 + q {
                    assert(t[n + 4 + (j - n - 4)] == s[j - n - 4]);
                }
            },
        }
    }
}

/// Where the members from `i` on hold the first one called `key`, and what
/// follows its pattern.
proof fn lemma_find_from(ms: Seq<Member>, i: int, f: int, key: Seq<char>) -> (at: int)
    requires
        0 <= i <= f < ms.len(),
        forall|g: int| 0 <= g < ms.len() ==> (#[trigger] ms[g]).plain(),
        is_name(key),
        ms[f].name == key,
        forall|g: int| i <= g < f ==> (#[trigger] ms[g]).name != key,
    ensures
        text::first_occurrence(members_from(ms, i), ground::key_pattern(key), at),
        members_from(ms, i).skip(at + ground::key_pattern(key).len()) == ms[f].value.sent()
            + members_behind(ms, f),
    decreases f - i,
{
    let p = ground::key_pattern(key);
    let head = ms[i].sent();
    let rest = members_behind(ms, i);
    let t = members_from(ms, i);
    assert(ms[i].plain());
    if i == f {
        assert(t.subrange(0, p.len() as int) =~= p);
        assert(text::occurs_at(t, p, 0));
        assert(t.skip(p.len() as int) =~= ms[f].value.sent() + members_behind(ms, f));
        0
    } else {
        let inner = lemma_find_from(ms, i + 1, f, key);
        let next = members_from(ms, i + 1);
        let at = head.len() + 1 + inner;
        assert(t =~= head + seq![','] + next);
        assert(t.subrange(at, at + p.len()) =~= next.subrange(inner, inner + p.len()));
        assert(text::occurs_at(t, p, at));
        assert forall|j: int| 0 <= j < at implies !#[trigger] text::occurs_at(t, p, j) by {
            if text::occurs_at(t, p, j) {
                if j <= head.len() {
                    lemma_pattern_in_member(ms[i], rest, key, j);
                } else {
                    let b = j - head.len() - 1;
                    assert(next.subrange(b, b + p.len()) =~= t.subrange(j, j + p.len()));
                    assert(text::occurs_at(next, p, b));
                }
            }
        }
        assert(t.skip(at + p.len()) =~= next.skip(inner + p.len()));
        at
    }
}

/// What follows the colon of the first member called `key`.
proof fn lemma_behind(ms: Seq<Member>, f: int, key: Seq<char>)
    requires
        0 <= f < ms.len(),
        forall|g: int| 0 <= g < ms.len() ==> (#[trigger] ms[g]).plain(),
        is_name(key),
        ms[f].name == key,
        forall|g: int| 0 <= g < f ==> (#[trigger] ms[g]).name != key,
    ensures
        ground::behind(object(ms), ground::key_pattern(key)) == Some(
            ms[f].value.sent() + members_behind(ms, f),
        ),
        ms[f].value matches WireValue::Quoted(s) ==> ground::behind(
            object(ms),
            ground::quoted_key_pattern(key),
        ) == Some(s + seq!['"'] + members_behind(ms, f)),
{
    let p = ground::key_pattern(key);
    let body = members_from(ms, 0);
    let t = object(ms);
    let inner = lemma_find_from(ms, 0, f, key);
    let at = inner + 1;
    assert(t.subrange(at, at + p.len()) =~= body.subrange(inner, inner + p.len()));
    assert(text::occurs_at(t, p, at));
    assert forall|j: int| 0 <= j < at implies !#[trigger] text::occurs_at(t, p, j) by {
        if text::occurs_at(t, p, j) {
            if j == 0 {
                assert(t.subrange(0, p.len() as int)[0] == p[0]);
            } else {
                let b = j - 1;
                assert(body.subrange(b, b + p.len()) =~= t.subrange(j, j + p.len()));
                assert(text::occurs_at(body, p, b));
            }
        }
    }
    text::lemma_find(t, p, at);
    assert(t.skip(at + p.len()) =~= body.skip(inner + p.len()));
    if let WireValue::Quoted(s) = ms[f].value {
        let q = ground::quoted_key_pattern(key);
        let rest = ms[f].value.sent() + members_behind(ms, f);
        assert(t.skip(at + p.len()) == rest);
        assert(rest[0] == '"');
        assert(t[at + p.len()] == t.skip(at + p.len())[0]);
        assert(t.subrange(at, at + q.len()) =~= q) by {
            assert(t.subrange(at, at + p.len()) == p);
            assert forall|i: int| 0 <= i < q.len() implies t.subrange(at, at + q.len())[i]
                == #[trigger] q[i] by {
                if i < p.len() {
                    assert(t.subrange(at, at + p.len())[i] == p[i]);
                }
            }
        }
        assert forall|j: int| 0 <= j < at implies !#[trigger] text::occurs_at(t, q, j) by {
            if text::occurs_at(t, q, j) {
                assert(t.subrange(j, j + p.len()) =~= p) by {
                    assert(t.subrange(j, j + q.len()).take(p.len() as int) =~= q.take(
                        p.len() as int,
                    ));
                    assert(q.take(p.len() as int) =~= p);
                    assert(t.subrange(j, j + q.len()).take(p.len() as int) =~= t.subrange(
                        j,
                        j + p.len(),
                    ));
                }
                assert(text::occurs_at(t, p, j));
            }
        }
        text::lemma_find(t, q, at);
        assert(t.skip(at + q.len()) =~= rest.skip(1));
        assert(rest.skip(1) =~= s + seq!['"'] + members_behind(ms, f));
    }
}

/// Whether the member at position `f` is the first one called `key`, and all
/// members are plain.
pub open spec fn first_called(ms: Seq<Member>, f: int, key: Seq<char>) -> bool {
    &&& 0 <= f < ms.len()
    &&& forall|g: int| 0 <= g < ms.len() ==> (#[trigger] ms[g]).plain()
    &&& is_name(key)
    &&& ms[f].name == key
    &&& forall|g: int| 0 <= g < f ==> (#[trigger] ms[g]).name != key
}

/// Whether `s` is a value whose text survives trimming: it is not empty, does
/// not start or end with white space, and holds nothing that ends a value.
pub open spec fn is_number_text(s: Seq<char>) -> bool {
    &&& s.len() > 0
    &&& !text::is_space(s[0])
    &&& !text::is_space(s.last())
    &&& forall|i: int| 0 <= i < s.len() ==> (#[trigger] s[i]) != ',' && s[i] != '}' && s[i] != '"'
}

/// A text that was sent is read back.
pub proof fn law_text_read_back(ms: Seq<Member>, f: int, key: Seq<char>, s: Seq<char>)
    requires
        first_called(ms, f, key),
        ms[f].value == WireValue::Quoted(s),
    ensures
        ground::str_field(object(ms), key) == Some(s),
{
    lemma_behind(ms, f, key);
    assert(ms[f].plain());
    let rest = s + seq!['"'] + members_behind(ms, f);
    let q = seq!['"'];
    let n = s.len() as int;
    assert(rest.subrange(n, n + q.len()) =~= q);
    assert forall|j: int| 0 <= j < n implies !#[trigger] text::occurs_at(rest, q, j) by {
        assert(rest.subrange(j, j + 1)[0] == s[j]);
        assert(q[0] == '"');
    }
    text::lemma_find(rest, q, n);
    assert(rest.take(n) =~= s);
}

/// White space is only trimmed where there is some.
proof fn lemma_no_trim(s: Seq<char>, rest: Seq<char>)
    requires
        s.len() > 0,
        !text::is_space(s[0]),
    ensures
        text::trim_start(s + rest) == s + rest,
{
    text::lemma_run_len(s + rest, |c: char| text::is_space(c), 0);
    assert((s + rest).skip(0) =~= s + rest);
}

/// A whole number that was sent is read back.
pub proof fn law_u64_read_back(ms: Seq<Member>, f: int, key: Seq<char>, n: u64)
    requires
        first_called(ms, f, key),
        ms[f].value == WireValue::Bare(text::dec(n as nat)),
    ensures
        ground::u64_field(object(ms), key) == Some(n),
{
    lemma_behind(ms, f, key);
    let d = text::dec(n as nat);
    let tail = members_behind(ms, f);
    let rest = d + tail;
    text::law_decimal_reads_back(n as nat);
    assert(text::is_digit(d[0]));
    lemma_no_trim(d, tail);
    assert forall|i: int| 0 <= i < d.len() implies text::is_digit(#[trigger] rest[i]) by {
        assert(rest[i] == d[i]);
    }
    assert(rest[d.len() as int] == tail[0]);
    text::lemma_run_len(rest, |c: char| text::is_digit(c), d.len());
    assert(rest.take(d.len() as int) =~= d);
}

/// A number that was sent is read back as the text it was sent as.
pub proof fn law_number_read_back(ms: Seq<Member>, f: int, key: Seq<char>, s: Seq<char>)
    requires
        first_called(ms, f, key),
        ms[f].value == WireValue::Bare(s),
        is_number_text(s),
    ensures
        ground::number_field(object(ms), key) == Some(s),
{
    lemma_behind(ms, f, key);
    let tail = members_behind(ms, f);
    let rest = s + tail;
    lemma_no_trim(s, tail);
    let p = |c: char| c != ',' && c != '}';
    assert forall|i: int| 0 <= i < s.len() implies p(#[trigger] rest[i]) by {
        assert(rest[i] == s[i]);
    }
    assert(rest[s.len() as int] == tail[0]);
    text::lemma_run_len(rest, p, s.len());
    assert(rest.take(s.len() as int) =~= s);
    lemma_no_trim(s, Seq::empty());
    assert(s + Seq::<char>::empty() =~= s);
}

/// The truth value `b` as it is sent.
pub open spec fn truth_text(b: bool) -> Seq<char> {
    if b {
        "true"@
    } else {
        "false"@
    }
}

/// A truth value that was sent is read back.
pub proof fn law_bool_read_back(ms: Seq<Member>, f: int, key: Seq<char>, b: bool)
    requires
        first_called(ms, f, key),
        ms[f].value == WireValue::Bare(truth_text(b)),
    ensures
        ground::bool_field(object(ms), key) == Some(b),
{
    reveal_strlit("true");
    reveal_strlit("false");
    lemma_behind(ms, f, key);
    let s = truth_text(b);
    let tail = members_behind(ms, f);
    let rest = s + tail;
    lemma_no_trim(s, tail);
    assert(rest.subrange(0, s.len() as int) =~= s);
    if !b {
        assert("true"@[0] == 't');
        assert(rest[0] == 'f');
        if text::occurs_at(rest, "true"@, 0) {
            assert(rest.subrange(0, 4)[0] == rest[0]);
        }
    }
}

/// A telemetry packet on the wire. The three measured numbers are sent as the
/// given texts.
pub open spec fn telemetry_members(
    p: downlink::TelemetryPacket,
    value: Seq<char>,
    drift: Seq<char>,
    latency: Seq<char>,
) -> Seq<Member> {
    seq![
        Member { name: "kind"@, value: WireValue::Quoted(p.kind@) },
        Member { name: "seq"@, value: WireValue::Bare(text::dec(p.seq as nat)) },
        Member { name: "timestamp_ms"@, value: WireValue::Bare(text::dec(p.timestamp_ms as nat)) },
        Member { name: "sensor"@, value: WireValue::Quoted(p.sensor@) },
        Member { name: "cycle"@, value: WireValue::Bare(text::dec(p.cycle as nat)) },
        Member { name: "value"@, value: WireValue::Bare(value) },
        Member { name: "drift_us"@, value: WireValue::Bare(drift) },
        Member { name: "latency_us"@, value: WireValue::Bare(latency) },
        Member { name: "status"@, value: WireValue::Quoted(p.status@) },
    ]
}

/// An alert on the wire, with the given detail.
pub open spec fn alert_members(p: downlink::AlertPacket, detail: Seq<char>) -> Seq<Member> {
    seq![
        Member { name: "kind"@, value: WireValue::Quoted(p.kind@) },
        Member { name: "timestamp_ms"@, value: WireValue::Bare(text::dec(p.timestamp_ms as nat)) },
        Member { name: "alert_type"@, value: WireValue::Quoted(p.alert_type@) },
        Member { name: "sensor"@, value: WireValue::Quoted(p.sensor@) },
        Member { name: "detail"@, value: WireValue::Quoted(detail) },
    ]
}

/// A heartbeat on the wire. The fill level is sent as the given text.
pub open spec fn status_members(p: downlink::StatusPacket, fill: Seq<char>) -> Seq<Member> {
    seq![
        Member { name: "kind"@, value: WireValue::Quoted(p.kind@) },
        Member { name: "timestamp_ms"@, value: WireValue::Bare(text::dec(p.timestamp_ms as nat)) },
        Member { name: "buf_fill_pct"@, value: WireValue::Bare(fill) },
        Member { name: "packets_sent"@, value: WireValue::Bare(text::dec(p.packets_sent as nat)) },
        Member { name: "degraded_mode"@, value: WireValue::Bare(truth_text(p.degraded_mode)) },
        Member { name: "uptime_s"@, value: WireValue::Bare(text::dec(p.uptime_s as nat)) },
    ]
}

/// Digits hold no quote.
proof fn lemma_dec_plain(n: nat)
    ensures
        no_quote(text::dec(n)),
{
    text::law_decimal_reads_back(n);
    assert forall|i: int| 0 <= i < text::dec(n).len() implies #[trigger] text::dec(n)[i] != '"' by {
        assert(text::is_digit(text::dec(n)[i]));
    }
}

/// Every member of a telemetry packet is plain, and no two have the same name.
proof fn lemma_telemetry_members(
    p: downlink::TelemetryPacket,
    value: Seq<char>,
    drift: Seq<char>,
    latency: Seq<char>,
)
    requires
        no_quote(p.kind@),
        no_quote(p.sensor@),
        no_quote(p.status@),
        no_quote(value),
        no_quote(drift),
        no_quote(latency),
    ensures
        forall|f: int|
            0 <= f < 9 ==> first_called(
                telemetry_members(p, value, drift, latency),
                f,
                (#[trigger] telemetry_members(p, value, drift, latency)[f]).name,
            ),
{
    reveal_strlit("kind");
    reveal_strlit("seq");
    reveal_strlit("timestamp_ms");
    reveal_strlit("sensor");
    reveal_strlit("cycle");
    reveal_strlit("value");
    reveal_strlit("drift_us");
    reveal_strlit("latency_us");
    reveal_strlit("status");
    lemma_dec_plain(p.seq as nat);
    lemma_dec_plain(p.timestamp_ms as nat);
    lemma_dec_plain(p.cycle as nat);
    let ms = telemetry_members(p, value, drift, latency);
    assert("kind"@.len() == 4 && "seq"@.len() == 3 && "timestamp_ms"@.len() == 12);
    assert("sensor"@.len() == 6 && "cycle"@.len() == 5 && "value"@.len() == 5);
    assert("drift_us"@.len() == 8 && "latency_us"@.len() == 10 && "status"@.len() == 6);
    assert("cycle"@[0] == 'c' && "value"@[0] == 'v');
    assert("sensor"@[1] == 'e' && "status"@[1] == 't');
}

/// Every member of an alert is plain, and no two have the same name.
proof fn lemma_alert_members(p: downlink::AlertPacket, detail: Seq<char>)
    requires
        no_quote(p.kind@),
        no_quote(p.alert_type@),
        no_quote(p.sensor@),
        no_quote(detail),
    ensures
        forall|f: int|
            0 <= f < 5 ==> first_called(
                alert_members(p, detail),
                f,
                (#[trigger] alert_members(p, detail)[f]).name,
            ),
{
    reveal_strlit("kind");
    reveal_strlit("timestamp_ms");
    reveal_strlit("alert_type");
    reveal_strlit("sensor");
    reveal_strlit("detail");
    lemma_dec_plain(p.timestamp_ms as nat);
    let ms = alert_members(p, detail);
    assert("sensor"@[0] == 's' && "detail"@[0] == 'd');
}

/// Every member of a heartbeat is plain, and no two have the same name.
proof fn lemma_status_members(p: downlink::StatusPacket, fill: Seq<char>)
    requires
        no_quote(p.kind@),
        no_quote(fill),
    ensures
        forall|f: int|
            0 <= f < 6 ==> first_called(
                status_members(p, fill),
                f,
                (#[trigger] status_members(p, fill)[f]).name,
            ),
{
    reveal_strlit("kind");
    reveal_strlit("timestamp_ms");
    reveal_strlit("buf_fill_pct");
    reveal_strlit("packets_sent");
    reveal_strlit("degraded_mode");
    reveal_strlit("uptime_s");
    reveal_strlit("true");
    reveal_strlit("false");
    lemma_dec_plain(p.timestamp_ms as nat);
    lemma_dec_plain(p.packets_sent as nat);
    lemma_dec_plain(p.uptime_s as nat);
    let ms = status_members(p, fill);
    assert("timestamp_ms"@[0] == 't' && "buf_fill_pct"@[0] == 'b' && "packets_sent"@[0] == 'p');
}

/// The ground reads back what the satellite sent: a telemetry packet is read as one
/// with the same contents, where its texts hold no quote, and whatever text its
/// measured numbers are sent as.
pub proof fn law_any_telemetry_read_back(
    p: downlink::TelemetryPacket,
    value: Seq<char>,
    drift: Seq<char>,
    latency: Seq<char>,
    got: ground::OcsPacket,
)
    requires
        p.kind@ == "TELEMETRY"@,
        no_quote(p.sensor@),
        no_quote(p.status@),
        is_number_text(value),
        is_number_text(drift),
        is_number_text(latency),
        got.reads(object(telemetry_members(p, value, drift, latency))),
    ensures
        got matches ground::OcsPacket::Telemetry(g) && {
            &&& g.seq == p.seq
            &&& g.timestamp_ms == p.timestamp_ms
            &&& g.sensor@ == p.sensor@
            &&& g.cycle == p.cycle
            &&& ground::optional_text(g.value) == Some(value)
            &&& ground::optional_text(g.drift_us) == Some(drift)
            &&& ground::optional_text(g.latency_us) == Some(latency)
            &&& g.status@ == p.status@
        },
{
    lemma_kinds_differ();
    let ms = telemetry_members(p, value, drift, latency);
    lemma_telemetry_members(p, value, drift, latency);
    assert(ms[0].name == "kind"@ && ms[1].name == "seq"@ && ms[2].name == "timestamp_ms"@);
    assert(ms[3].name == "sensor"@ && ms[4].name == "cycle"@ && ms[5].name == "value"@);
    assert(ms[6].name == "drift_us"@ && ms[7].name == "latency_us"@ && ms[8].name == "status"@);
    law_text_read_back(ms, 0, "kind"@, p.kind@);
    law_u64_read_back(ms, 1, "seq"@, p.seq);
    law_u64_read_back(ms, 2, "timestamp_ms"@, p.timestamp_ms);
    law_text_read_back(ms, 3, "sensor"@, p.sensor@);
    law_u64_read_back(ms, 4, "cycle"@, p.cycle);
    law_number_read_back(ms, 5, "value"@, value);
    law_number_read_back(ms, 6, "drift_us"@, drift);
    law_number_read_back(ms, 7, "latency_us"@, latency);
    law_text_read_back(ms, 8, "status"@, p.status@);
}

/// The ground reads back what the satellite sent: a packet that carries a reading
/// is read as telemetry with the same contents, whatever text its measured
/// numbers are sent as.
pub proof fn law_telemetry_read_back(
    p: downlink::TelemetryPacket,
    reading: SensorReading,
    seq: u64,
    now_ms: u64,
    latency_us: u64,
    degraded: bool,
    value: Seq<char>,
    drift: Seq<char>,
    latency: Seq<char>,
    got: ground::OcsPacket,
)
    requires
        p.carries(
            reading,
            seq,
            now_ms,
            latency_us,
            downlink::status_of(degraded, reading),
        ),
        is_number_text(value),
        is_number_text(drift),
        is_number_text(latency),
        got.reads(object(telemetry_members(p, value, drift, latency))),
    ensures
        got matches ground::OcsPacket::Telemetry(g) && {
            &&& g.seq == seq
            &&& g.timestamp_ms == now_ms
            &&& g.sensor@ == reading.sensor.name()
            &&& g.cycle == reading.cycle
            &&& ground::optional_text(g.value) == Some(value)
            &&& ground::optional_text(g.drift_us) == Some(drift)
            &&& ground::optional_text(g.latency_us) == Some(latency)
            &&& g.status@ == downlink::status_of(degraded, reading)
        },
{
    reveal_strlit("THERMAL");
    reveal_strlit("POWER");
    reveal_strlit("ATTITUDE");
    reveal_strlit("OK");
    reveal_strlit("JITTER_WARN");
    reveal_strlit("DEGRADED");
    law_any_telemetry_read_back(p, value, drift, latency, got);
}

/// The names of the packet kinds differ.
proof fn lemma_kinds_differ()
    ensures
        "TELEMETRY"@ != "ALERT"@,
        "TELEMETRY"@ != "STATUS"@,
        "ALERT"@ != "STATUS"@,
        no_quote("TELEMETRY"@),
        no_quote("ALERT"@),
        no_quote("STATUS"@),
{
    reveal_strlit("TELEMETRY");
    reveal_strlit("ALERT");
    reveal_strlit("STATUS");
    assert("TELEMETRY"@.len() == 9 && "ALERT"@.len() == 5 && "STATUS"@.len() == 6);
}

/// The ground reads back what the satellite sent: an alert is read as one with
/// the same contents, where its texts hold no quote.
pub proof fn law_alert_read_back(
    p: downlink::AlertPacket,
    detail: Seq<char>,
    got: ground::OcsPacket,
)
    requires
        p.kind@ == "ALERT"@,
        no_quote(p.alert_type@),
        no_quote(p.sensor@),
        no_quote(detail),
        got.reads(object(alert_members(p, detail))),
    ensures
        got matches ground::OcsPacket::Alert(g) && {
            &&& g.timestamp_ms == p.timestamp_ms
            &&& g.alert_type@ == p.alert_type@
            &&& g.sensor@ == p.sensor@
            &&& g.detail@ == detail
        },
{
    lemma_kinds_differ();
    let ms = alert_members(p, detail);
    lemma_alert_members(p, detail);
    assert(ms[0].name == "kind"@ && ms[1].name == "timestamp_ms"@ && ms[2].name == "alert_type"@);
    assert(ms[3].name == "sensor"@ && ms[4].name == "detail"@);
    law_text_read_back(ms, 0, "kind"@, p.kind@);
    law_u64_read_back(ms, 1, "timestamp_ms"@, p.timestamp_ms);
    law_text_read_back(ms, 2, "alert_type"@, p.alert_type@);
    law_text_read_back(ms, 3, "sensor"@, p.sensor@);
    law_text_read_back(ms, 4, "detail"@, detail);
}

/// The ground reads back what the satellite sent: a heartbeat is read as one with
/// the same contents, whatever text its fill level is sent as.
pub proof fn law_status_read_back(
    p: downlink::StatusPacket,
    fill: Seq<char>,
    got: ground::OcsPacket,
)
    requires
        p.kind@ == "STATUS"@,
        is_number_text(fill),
        got.reads(object(status_members(p, fill))),
    ensures
        got matches ground::OcsPacket::Status(g) && {
            &&& g.timestamp_ms == p.timestamp_ms
            &&& ground::optional_text(g.buf_fill_pct) == Some(fill)
            &&& g.packets_sent == p.packets_sent
            &&& g.degraded_mode == p.degraded_mode
            &&& g.uptime_s == p.uptime_s
        },
{
    lemma_kinds_differ();
    let ms = status_members(p, fill);
    lemma_status_members(p, fill);
    assert(ms[0].name == "kind"@ && ms[1].name == "timestamp_ms"@ && ms[2].name
        == "buf_fill_pct"@);
    assert(ms[3].name == "packets_sent"@ && ms[4].name == "degraded_mode"@ && ms[5].name
        == "uptime_s"@);
    law_text_read_back(ms, 0, "kind"@, p.kind@);
    law_u64_read_back(ms, 1, "timestamp_ms"@, p.timestamp_ms);
    law_number_read_back(ms, 2, "buf_fill_pct"@, fill);
    law_u64_read_back(ms, 3, "packets_sent"@, p.packets_sent);
    law_bool_read_back(ms, 4, "degraded_mode"@, p.degraded_mode);
    law_u64_read_back(ms, 5, "uptime_s"@, p.uptime_s);
}

} // verus!
