use vstd::prelude::*;
use crate::clock::{is_rfc3339, timestamp_now};
use crate::error::FormatError;
use crate::event::{field_atom, EventData, Field, FieldValue, SpanData};
use crate::json::{
    decimal, entries_view, line_text, members_view, push_decimal, render_line, AtomModel, Entry,
    JsonValue, Member, Scalar, ValueModel,
};
use crate::severity::{severity_name, severity_of, Level, LogSeverity};
use crate::trace::{
    clone_opt, format_trace_reference, opt_view, resolve_trace, resolved_trace, trace_reference,
    trace_view, TraceContext, TraceModel, TraceStrategy,
};

verus! {

/// Formats events as JSON records. It holds only configuration, and keeps no
/// state from one event to the next.
#[derive(Clone, Debug, PartialEq)]
pub struct EventFormatter {
    /// Whether to write the source location of events that carry a file.
    pub include_source_location: bool,
    /// The cloud project that trace references are built for.
    pub project_id: Option<String>,
    /// How trace correlation is found.
    pub trace_strategy: TraceStrategy,
}

pub open spec fn source_location_key() -> Seq<char> {
    "logging.googleapis.com/sourceLocation"@
}

pub open spec fn trace_key() -> Seq<char> {
    "logging.googleapis.com/trace"@
}

pub open spec fn span_id_key() -> Seq<char> {
    "logging.googleapis.com/spanId"@
}

pub open spec fn sampled_key() -> Seq<char> {
    "logging.googleapis.com/trace_sampled"@
}

pub open spec fn text(s: Seq<char>) -> ValueModel {
    ValueModel::Atom(AtomModel::Text(s))
}

/// The source location object: the file, and the line as a decimal string
/// where it is known.
pub open spec fn source_location_object(file: Seq<char>, line: Option<u32>) -> ValueModel {
    ValueModel::Object(
        seq![("file"@, AtomModel::Text(file))] + match line {
            Some(l) => seq![("line"@, AtomModel::Text(decimal(l as nat)))],
            None => seq![],
        },
    )
}

pub open spec fn field_members(fs: Seq<Field>) -> Seq<(Seq<char>, AtomModel)> {
    fs.map_values(|f: Field| (f.name@, field_atom(f.value)))
}

/// A span as an object: its name, then its fields in the order recorded.
pub open spec fn span_object(s: SpanData) -> ValueModel {
    ValueModel::Object(seq![("name"@, AtomModel::Text(s.name@))] + field_members(s.fields@))
}

/// Every field under its own name, in the order recorded.
pub open spec fn field_entries(fs: Seq<Field>) -> Seq<(Seq<char>, ValueModel)> {
    fs.map_values(|f: Field| (f.name@, ValueModel::Atom(field_atom(f.value))))
}

pub open spec fn head_part(time: Seq<char>, ev: EventData) -> Seq<(Seq<char>, ValueModel)> {
    seq![("time"@, text(time)), ("target"@, text(ev.target@))]
}

pub open spec fn location_part(f: EventFormatter, ev: EventData) -> Seq<(Seq<char>, ValueModel)> {
    if f.include_source_location && ev.file is Some {
        seq![(source_location_key(), source_location_object(ev.file->0@, ev.line))]
    } else {
        seq![]
    }
}

pub open spec fn span_part(spans: Seq<SpanData>) -> Seq<(Seq<char>, ValueModel)> {
    if spans.len() > 0 {
        seq![("span"@, span_object(spans[0]))]
    } else {
        seq![]
    }
}

/// The trace reference where a project is configured, the span id where one
/// is known, and the sampled flag where it is set; nothing without a trace.
pub open spec fn trace_entries(project: Option<Seq<char>>, tc: Option<TraceModel>) -> Seq<
    (Seq<char>, ValueModel),
> {
    match tc {
        None => seq![],
        Some(t) => (match project {
            Some(p) => seq![(trace_key(), text(trace_reference(p, t.trace_id)))],
            None => seq![],
        }) + (match t.span_id {
            Some(s) => seq![(span_id_key(), text(s))],
            None => seq![],
        }) + (if t.sampled {
            seq![(sampled_key(), ValueModel::Atom(AtomModel::Bool(true)))]
        } else {
            seq![]
        }),
    }
}

pub open spec fn trace_part(f: EventFormatter, spans: Seq<SpanData>) -> Seq<
    (Seq<char>, ValueModel),
> {
    trace_entries(opt_view(f.project_id), resolved_trace(f.trace_strategy, spans))
}

pub open spec fn severity_part(ev: EventData) -> Seq<(Seq<char>, ValueModel)> {
    seq![("severity"@, text(severity_name(severity_of(ev.level))))]
}

/// The record for an event at a given time, with the spans in scope listed
/// innermost first: time, target, source location, span, trace fields,
/// severity, then the event's own fields.
pub open spec fn record_entries(
    f: EventFormatter,
    time: Seq<char>,
    ev: EventData,
    spans: Seq<SpanData>,
) -> Seq<(Seq<char>, ValueModel)> {
    head_part(time, ev) + location_part(f, ev) + span_part(spans) + trace_part(f, spans)
        + severity_part(ev) + field_entries(ev.fields@)
}

proof fn lemma_push_entry(es: Seq<Entry>, e: Entry)
    ensures
        entries_view(es.push(e)) == entries_view(es).push(e@),
{
    assert(entries_view(es.push(e)) =~= entries_view(es).push(e@));
}

fn push_entry(out: &mut Vec<Entry>, e: Entry)
    ensures
        entries_view(final(out)@) == entries_view(old(out)@).push(e@),
{
    proof {
        lemma_push_entry(out@, e);
    }
    out.push(e);
}

fn text_entry(key: &str, value: String) -> (e: Entry)
    ensures
        e@ == (key@, text(value@)),
{
    Entry { key: String::from_str(key), value: JsonValue::Scalar(Scalar::Str(value)) }
}

fn field_scalar(v: &FieldValue) -> (r: Scalar)
    ensures
        r@ == field_atom(*v),
{
    match v {
        FieldValue::I64(n) => Scalar::I64(*n),
        FieldValue::U64(n) => Scalar::U64(*n),
        FieldValue::Bool(b) => Scalar::Bool(*b),
        FieldValue::Str(s) => Scalar::Str(s.clone()),
        FieldValue::Debug(s) => Scalar::Str(s.clone()),
    }
}

/// The decimal digits of `n`.
pub fn decimal_string(n: u64) -> (r: String)
    ensures
        r@ == decimal(n as nat),
{
    let mut s = String::new();
    push_decimal(&mut s, n);
    assert(s@ =~= decimal(n as nat));
    s
}

fn source_location_value(file: &String, line: Option<u32>) -> (r: JsonValue)
    ensures
        r@ == source_location_object(file@, line),
{
    let mut ms: Vec<Member> = Vec::new();
    ms.push(Member { key: String::from_str("file"), value: Scalar::Str(file.clone()) });
    match line {
        Some(l) => {
            ms.push(
                Member { key: String::from_str("line"), value: Scalar::Str(decimal_string(l as u64)) },
            );
        },
        None => {},
    }
    assert(members_view(ms@) =~= match source_location_object(file@, line) {
        ValueModel::Object(m) => m,
        _ => seq![],
    });
    JsonValue::Object(ms)
}

/// A span as a JSON object: its name, then its fields.
pub fn span_value(s: &SpanData) -> (r: JsonValue)
    ensures
        r@ == span_object(*s),
{
    let mut ms: Vec<Member> = Vec::new();
    ms.push(Member { key: String::from_str("name"), value: Scalar::Str(s.name.clone()) });
    let mut i: usize = 0;
    while i < s.fields.len()
        invariant
            i <= s.fields.len(),
            members_view(ms@) == seq![("name"@, AtomModel::Text(s.name@))] + field_members(
                s.fields@,
            ).take(i as int),
        decreases s.fields.len() - i,
    {
        let m = Member { key: s.fields[i].name.clone(), value: field_scalar(&s.fields[i].value) };
        let ghost before = ms@;
        ms.push(m);
        assert(members_view(ms@) =~= members_view(before).push(m@));
        assert(field_members(s.fields@).take(i + 1) =~= field_members(s.fields@).take(i as int).push(
            m@,
        ));
        i = i + 1;
    }
    assert(field_members(s.fields@).take(i as int) =~= field_members(s.fields@));
    JsonValue::Object(ms)
}

fn push_trace_entries(out: &mut Vec<Entry>, project: &Option<String>, tc: &Option<TraceContext>)
    ensures
        entries_view(final(out)@) == entries_view(old(out)@) + trace_entries(
            opt_view(*project),
            trace_view(*tc),
        ),
{
    let ghost start = entries_view(out@);
    match tc {
        None => {
            assert(entries_view(out@) =~= start + trace_entries(opt_view(*project), trace_view(*tc)));
        },
        Some(t) => {
            let ghost p1 = match opt_view(*project) {
                Some(p) => seq![(trace_key(), text(trace_reference(p, t.trace_id@)))],
                None => seq![],
            };
            match project {
                Some(p) => {
                    let r = format_trace_reference(p.as_str(), t.trace_id.as_str());
                    push_entry(out, text_entry("logging.googleapis.com/trace", r));
                },
                None => {},
            }
            assert(entries_view(out@) =~= start + p1);
            let ghost p2 = match opt_view(t.span_id) {
                Some(s) => seq![(span_id_key(), text(s))],
                None => seq![],
            };
            match &t.span_id {
                Some(s) => {
                    push_entry(out, text_entry("logging.googleapis.com/spanId", s.clone()));
                },
                None => {},
            }
            assert(entries_view(out@) =~= start + p1 + p2);
            if t.sampled {
                push_entry(
                    out,
                    Entry {
                        key: String::from_str("logging.googleapis.com/trace_sampled"),
                        value: JsonValue::Scalar(Scalar::Bool(true)),
                    },
                );
            }
            assert(entries_view(out@) =~= start + trace_entries(
                opt_view(*project),
                trace_view(*tc),
            ));
        },
    }
}

fn push_field_entries(out: &mut Vec<Entry>, fs: &Vec<Field>)
    ensures
        entries_view(final(out)@) == entries_view(old(out)@) + field_entries(fs@),
{
    let ghost start = entries_view(out@);
    let mut i: usize = 0;
    while i < fs.len()
        invariant
            i <= fs.len(),
            entries_view(out@) == start + field_entries(fs@).take(i as int),
        decreases fs.len() - i,
    {
        let e = Entry {
            key: fs[i].name.clone(),
            value: JsonValue::Scalar(field_scalar(&fs[i].value)),
        };
        push_entry(out, e);
        assert(field_entries(fs@).take(i + 1) =~= field_entries(fs@).take(i as int).push(e@));
        i = i + 1;
    }
    assert(field_entries(fs@).take(i as int) =~= field_entries(fs@));
}

/// Whether some entry of a record is written under key `k`.
pub open spec fn has_key(es: Seq<(Seq<char>, ValueModel)>, k: Seq<char>) -> bool {
    exists|i: int| 0 <= i < es.len() && (#[trigger] es[i]).0 == k
}

/// Whether some field of an event is named `k`.
pub open spec fn has_field_named(fs: Seq<Field>, k: Seq<char>) -> bool {
    exists|i: int| 0 <= i < fs.len() && (#[trigger] fs[i]).name@ == k
}

proof fn lemma_has_key_concat(a: Seq<(Seq<char>, ValueModel)>, b: Seq<(Seq<char>, ValueModel)>, k: Seq<char>)
    ensures
        has_key(a + b, k) == (has_key(a, k) || has_key(b, k)),
{
    if has_key(a + b, k) {
        let i = choose|i: int| 0 <= i < (a + b).len() && (#[trigger] (a + b)[i]).0 == k;
        if i < a.len() {
            assert(a[i] == (a + b)[i]);
        } else {
            assert(b[i - a.len()] == (a + b)[i]);
        }
    }
    if has_key(a, k) {
        let i = choose|i: int| 0 <= i < a.len() && (#[trigger] a[i]).0 == k;
        assert((a + b)[i] == a[i]);
    }
    if has_key(b, k) {
        let i = choose|i: int| 0 <= i < b.len() && (#[trigger] b[i]).0 == k;
        assert((a + b)[i + a.len()] == b[i]);
    }
}

proof fn lemma_has_key_fields(fs: Seq<Field>, k: Seq<char>)
    ensures
        has_key(field_entries(fs), k) == has_field_named(fs, k),
{
    if has_key(field_entries(fs), k) {
        let i = choose|i: int| 0 <= i < field_entries(fs).len() && (#[trigger] field_entries(fs)[i]).0 == k;
        assert(fs[i].name@ == k);
    }
    if has_field_named(fs, k) {
        let i = choose|i: int| 0 <= i < fs.len() && (#[trigger] fs[i]).name@ == k;
        assert(field_entries(fs)[i].0 == k);
    }
}

proof fn lemma_record_keys(f: EventFormatter, time: Seq<char>, ev: EventData, spans: Seq<SpanData>, k: Seq<char>)
    ensures
        has_key(record_entries(f, time, ev, spans), k) == (has_key(head_part(time, ev), k)
            || has_key(location_part(f, ev), k) || has_key(span_part(spans), k)
            || has_key(trace_part(f, spans), k) || has_key(severity_part(ev), k)
            || has_field_named(ev.fields@, k)),
{
    let a = head_part(time, ev);
    let b = location_part(f, ev);
    let c = span_part(spans);
    let d = trace_part(f, spans);
    let e = severity_part(ev);
    let g = field_entries(ev.fields@);
    lemma_has_key_concat(a, b, k);
    lemma_has_key_concat(a + b, c, k);
    lemma_has_key_concat(a + b + c, d, k);
    lemma_has_key_concat(a + b + c + d, e, k);
    lemma_has_key_concat(a + b + c + d + e, g, k);
    lemma_has_key_fields(ev.fields@, k);
}

proof fn lemma_fixed_keys_distinct()
    ensures
        "time"@ != source_location_key(),
        "target"@ != source_location_key(),
        "span"@ != source_location_key(),
        "severity"@ != source_location_key(),
        trace_key() != source_location_key(),
        span_id_key() != source_location_key(),
        sampled_key() != source_location_key(),
        "time"@ != "span"@,
        "target"@ != "span"@,
        "severity"@ != "span"@,
        "time"@ != trace_key() && "target"@ != trace_key() && "severity"@ != trace_key(),
        "time"@ != span_id_key() && "target"@ != span_id_key() && "severity"@ != span_id_key(),
        "time"@ != sampled_key() && "target"@ != sampled_key() && "severity"@ != sampled_key(),
        source_location_key() != "span"@,
{
    reveal_strlit("time");
    reveal_strlit("target");
    reveal_strlit("span");
    reveal_strlit("severity");
    reveal_strlit("logging.googleapis.com/sourceLocation");
    reveal_strlit("logging.googleapis.com/trace");
    reveal_strlit("logging.googleapis.com/spanId");
    reveal_strlit("logging.googleapis.com/trace_sampled");
    assert("time"@.len() == 4);
    assert("target"@.len() == 6);
    assert("span"@.len() == 4);
    assert("severity"@.len() == 8);
    assert(source_location_key().len() == 37);
    assert(trace_key().len() == 28);
    assert(span_id_key().len() == 29);
    assert(sampled_key().len() == 36);
    assert("time"@[0] != "span"@[0]);
}

/// The severity of every record follows the fixed table (TRACE and DEBUG give
/// DEBUG, INFO gives INFO, WARN gives WARNING, ERROR gives ERROR), and stands
/// just before the event's own fields.
pub proof fn lemma_severity_table(f: EventFormatter, time: Seq<char>, ev: EventData, spans: Seq<SpanData>)
    ensures
        ({
            let rec = record_entries(f, time, ev, spans);
            rec[rec.len() - ev.fields@.len() - 1] == ("severity"@, text(
                match ev.level {
                    Level::Trace => "DEBUG"@,
                    Level::Debug => "DEBUG"@,
                    Level::Info => "INFO"@,
                    Level::Warn => "WARNING"@,
                    Level::Error => "ERROR"@,
                },
            ))
        }),
{
    let pre = head_part(time, ev) + location_part(f, ev) + span_part(spans) + trace_part(f, spans);
    let rec = record_entries(f, time, ev, spans);
    assert(rec == pre + severity_part(ev) + field_entries(ev.fields@));
    assert(rec[pre.len() as int] == severity_part(ev)[0]);
}

/// The record holds a source location if and only if the formatter includes
/// source locations and the event carries a file (where no field of the
/// event is itself named like the source location key).
pub proof fn lemma_source_location_presence(f: EventFormatter, time: Seq<char>, ev: EventData, spans: Seq<SpanData>)
    requires
        !has_field_named(ev.fields@, source_location_key()),
    ensures
        has_key(record_entries(f, time, ev, spans), source_location_key()) == (f.include_source_location
            && ev.file is Some),
{
    let k = source_location_key();
    lemma_record_keys(f, time, ev, spans, k);
    lemma_fixed_keys_distinct();
    let h = head_part(time, ev);
    assert(!has_key(h, k)) by {
        if has_key(h, k) {
            let i = choose|i: int| 0 <= i < h.len() && (#[trigger] h[i]).0 == k;
        }
    }
    let c = span_part(spans);
    assert(!has_key(c, k)) by {
        if has_key(c, k) {
            let i = choose|i: int| 0 <= i < c.len() && (#[trigger] c[i]).0 == k;
        }
    }
    let d = trace_part(f, spans);
    assert(!has_key(d, k)) by {
        if has_key(d, k) {
            let i = choose|i: int| 0 <= i < d.len() && (#[trigger] d[i]).0 == k;
        }
    }
    let e = severity_part(ev);
    assert(!has_key(e, k)) by {
        if has_key(e, k) {
            let i = choose|i: int| 0 <= i < e.len() && (#[trigger] e[i]).0 == k;
        }
    }
    let b = location_part(f, ev);
    if f.include_source_location && ev.file is Some {
        assert(b[0].0 == k);
    }
}

/// Without a span in scope, a record holds no span and no trace, span id or
/// sampled entry (where no field of the event is itself named like one of
/// them).
pub proof fn lemma_no_span_no_trace(f: EventFormatter, time: Seq<char>, ev: EventData, spans: Seq<SpanData>)
    requires
        spans.len() == 0,
        !has_field_named(ev.fields@, "span"@),
        !has_field_named(ev.fields@, trace_key()),
        !has_field_named(ev.fields@, span_id_key()),
        !has_field_named(ev.fields@, sampled_key()),
    ensures
        !has_key(record_entries(f, time, ev, spans), "span"@),
        !has_key(record_entries(f, time, ev, spans), trace_key()),
        !has_key(record_entries(f, time, ev, spans), span_id_key()),
        !has_key(record_entries(f, time, ev, spans), sampled_key()),
{
    lemma_fixed_keys_distinct();
    assert(trace_part(f, spans) == Seq::<(Seq<char>, ValueModel)>::empty());
    assert(span_part(spans) == Seq::<(Seq<char>, ValueModel)>::empty());
    let h = head_part(time, ev);
    let b = location_part(f, ev);
    let e = severity_part(ev);
    let ks = seq!["span"@, trace_key(), span_id_key(), sampled_key()];
    assert forall|j: int| 0 <= j < 4 implies !has_key(record_entries(f, time, ev, spans), #[trigger] ks[j]) by {
        let k = ks[j];
        lemma_record_keys(f, time, ev, spans, k);
        if has_key(h, k) {
            let i = choose|i: int| 0 <= i < h.len() && (#[trigger] h[i]).0 == k;
        }
        if has_key(b, k) {
            let i = choose|i: int| 0 <= i < b.len() && (#[trigger] b[i]).0 == k;
        }
        if has_key(e, k) {
            let i = choose|i: int| 0 <= i < e.len() && (#[trigger] e[i]).0 == k;
        }
        if has_key(Seq::<(Seq<char>, ValueModel)>::empty(), k) {
            let i = choose|i: int| 0 <= i < 0 && (#[trigger] Seq::<(Seq<char>, ValueModel)>::empty()[i]).0 == k;
        }
    }
    assert(ks[0] == "span"@);
    assert(ks[1] == trace_key());
    assert(ks[2] == span_id_key());
    assert(ks[3] == sampled_key());
}

/// Every field of the event is written, in the order recorded, under its own
/// name with its own JSON type: integers as numbers, booleans as booleans,
/// strings and debug text as strings. The fields close the record.
pub proof fn lemma_fields_written(f: EventFormatter, time: Seq<char>, ev: EventData, spans: Seq<SpanData>, i: int)
    requires
        0 <= i < ev.fields@.len(),
    ensures
        ({
            let rec = record_entries(f, time, ev, spans);
            let fld = ev.fields@[i];
            &&& rec[rec.len() - ev.fields@.len() + i] == (fld.name@, ValueModel::Atom(field_atom(fld.value)))
            &&& has_key(rec, fld.name@)
            &&& match fld.value {
                FieldValue::I64(n) => field_atom(fld.value) == AtomModel::Int(n as int),
                FieldValue::U64(n) => field_atom(fld.value) == AtomModel::Int(n as int),
                FieldValue::Bool(b) => field_atom(fld.value) == AtomModel::Bool(b),
                FieldValue::Str(s) => field_atom(fld.value) == AtomModel::Text(s@),
                FieldValue::Debug(s) => field_atom(fld.value) == AtomModel::Text(s@),
            }
        }),
{
    let pre = head_part(time, ev) + location_part(f, ev) + span_part(spans) + trace_part(f, spans)
        + severity_part(ev);
    let rec = record_entries(f, time, ev, spans);
    assert(rec == pre + field_entries(ev.fields@));
    let k: int = rec.len() - ev.fields@.len() + i;
    assert(rec[k] == field_entries(ev.fields@)[i]);
}

/// The event's message field is written under the key "message", with its
/// text, among the event's fields.
pub proof fn lemma_message_key(f: EventFormatter, time: Seq<char>, ev: EventData, spans: Seq<SpanData>, i: int)
    requires
        0 <= i < ev.fields@.len(),
        ev.fields@[i].name@ == "message"@,
    ensures
        ({
            let rec = record_entries(f, time, ev, spans);
            &&& rec[rec.len() - ev.fields@.len() + i].0 == "message"@
            &&& rec[rec.len() - ev.fields@.len() + i].1 == ValueModel::Atom(field_atom(ev.fields@[i].value))
        }),
{
    lemma_fields_written(f, time, ev, spans, i);
}

impl EventFormatter {
    pub fn new(include_source_location: bool, project_id: Option<String>, trace_strategy: TraceStrategy) -> (r: EventFormatter)
        ensures
            r.include_source_location == include_source_location,
            r.project_id == project_id,
            r.trace_strategy == trace_strategy,
    {
        EventFormatter { include_source_location, project_id, trace_strategy }
    }

    /// The entries of the record for `event` at `time`, with `spans` the
    /// spans in scope, innermost first.
    pub fn build_record(&self, time: String, event: &EventData, spans: &Vec<SpanData>) -> (r: Vec<Entry>)
        ensures
            entries_view(r@) == record_entries(*self, time@, *event, spans@),
    {
        let ghost tv = time@;
        let mut out: Vec<Entry> = Vec::new();
        push_entry(&mut out, text_entry("time", time));
        push_entry(&mut out, text_entry("target", event.target.clone()));
        assert(entries_view(out@) =~= head_part(tv, *event));
        if self.include_source_location {
            match &event.file {
                Some(file) => {
                    push_entry(
                        &mut out,
                        Entry {
                            key: String::from_str("logging.googleapis.com/sourceLocation"),
                            value: source_location_value(file, event.line),
                        },
                    );
                },
                None => {},
            }
        }
        assert(entries_view(out@) =~= head_part(tv, *event) + location_part(*self, *event));
        if spans.len() > 0 {
            push_entry(&mut out, Entry { key: String::from_str("span"), value: span_value(&spans[0]) });
        }
        assert(entries_view(out@) =~= head_part(tv, *event) + location_part(*self, *event)
            + span_part(spans@));
        let tc = resolve_trace(self.trace_strategy, spans);
        push_trace_entries(&mut out, &self.project_id, &tc);
        let severity = LogSeverity::from_level(event.level);
        push_entry(&mut out, text_entry("severity", String::from_str(severity.as_str())));
        push_field_entries(&mut out, &event.fields);
        assert(entries_view(out@) =~= record_entries(*self, tv, *event, spans@));
        out
    }

    /// The record for `event` at `time` as one line of JSON text.
    pub fn format_event_at(&self, time: String, event: &EventData, spans: &Vec<SpanData>) -> (line: String)
        ensures
            line@ == line_text(record_entries(*self, time@, *event, spans@)),
    {
        let entries = self.build_record(time, event, spans);
        render_line(&entries)
    }

    /// The record for `event` at the current time as one line of JSON text.
    /// It fails only where the current time cannot be formatted.
    pub fn format_event(&self, event: &EventData, spans: &Vec<SpanData>) -> (r: Result<String, FormatError>)
        ensures
            r matches Ok(line) ==> exists|t: Seq<char>|
                is_rfc3339(t) && line@ == #[trigger] line_text(record_entries(*self, t, *event, spans@)),
            r is Err ==> r == Err::<String, FormatError>(FormatError::Time),
    {
        let time = match timestamp_now() {
            Ok(t) => t,
            Err(e) => {
                return Err(e);
            },
        };
        let ghost tv = time@;
        let line = self.format_event_at(time, event, spans);
        assert(is_rfc3339(tv) && line@ == line_text(record_entries(*self, tv, *event, spans@)));
        Ok(line)
    }

    /// Includes source locations or leaves them out.
    pub fn with_source_location(self, enabled: bool) -> (r: EventFormatter)
        ensures
            r.include_source_location == enabled,
            r.project_id == self.project_id,
            r.trace_strategy == self.trace_strategy,
    {
        EventFormatter { include_source_location: enabled, ..self }
    }

    /// Sets the cloud project that trace references are built for.
    pub fn with_project_id(self, project_id: String) -> (r: EventFormatter)
        ensures
            r.include_source_location == self.include_source_location,
            r.project_id == Some(project_id),
            r.trace_strategy == self.trace_strategy,
    {
        EventFormatter { project_id: Some(project_id), ..self }
    }

    /// Sets how trace correlation is found.
    pub fn with_trace_strategy(self, trace_strategy: TraceStrategy) -> (r: EventFormatter)
        ensures
            r.include_source_location == self.include_source_location,
            r.project_id == self.project_id,
            r.trace_strategy == trace_strategy,
    {
        EventFormatter { trace_strategy, ..self }
    }
}

impl Default for EventFormatter {
    /// Source locations included, no project, trace ids found by scanning
    /// span fields.
    fn default() -> (r: EventFormatter)
        ensures
            r.include_source_location,
            r.project_id is None,
            r.trace_strategy == TraceStrategy::FieldScan,
    {
        EventFormatter {
            include_source_location: true,
            project_id: None,
            trace_strategy: TraceStrategy::FieldScan,
        }
    }
}

} // verus!
