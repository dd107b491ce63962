use vstd::prelude::*;
use crate::event::{field_atom, Field, FieldValue, SpanData};
use crate::json::{atom_text, scalar_text, Scalar};

verus! {

/// The parent span context reported by an attached tracing context.
#[derive(Clone, Debug, PartialEq)]
pub struct ParentContext {
    pub trace_id: String,
    pub sampled: bool,
}

/// A distributed-tracing context attached to a span: the ids its builder
/// assigned, and the active parent span, if any.
#[derive(Clone, Debug, PartialEq)]
pub struct AttachedContext {
    pub trace_id: Option<String>,
    pub span_id: Option<String>,
    pub parent: Option<ParentContext>,
}

/// How trace correlation is found.
#[derive(Clone, Copy, Debug, PartialEq, Eq, Structural)]
pub enum TraceStrategy {
    /// Read the context attached to the innermost span.
    AttachedContext,
    /// Look for a `trace_id` field on the spans, innermost first.
    FieldScan,
}

/// Resolved trace correlation.
#[derive(Clone, Debug, PartialEq)]
pub struct TraceContext {
    pub trace_id: String,
    pub span_id: Option<String>,
    pub sampled: bool,
}

pub struct TraceModel {
    pub trace_id: Seq<char>,
    pub span_id: Option<Seq<char>>,
    pub sampled: bool,
}

impl View for TraceContext {
    type V = TraceModel;

    open spec fn view(&self) -> TraceModel {
        TraceModel { trace_id: self.trace_id@, span_id: opt_view(self.span_id), sampled: self.sampled }
    }
}

pub open spec fn opt_view(o: Option<String>) -> Option<Seq<char>> {
    match o {
        Some(s) => Some(s@),
        None => None,
    }
}

pub fn clone_opt(o: &Option<String>) -> (r: Option<String>)
    ensures
        r == *o,
{
    match o {
        Some(s) => Some(s.clone()),
        None => None,
    }
}

pub open spec fn is_first_colon(v: Seq<char>, i: int) -> bool {
    &&& 0 <= i < v.len()
    &&& v[i] == ':'
    &&& forall|j: int| 0 <= j < i ==> v[j] != ':'
}

pub open spec fn is_quoted(r: Seq<char>) -> bool {
    r.len() >= 2 && r[0] == '"' && r[r.len() - 1] == '"'
}

/// A `trace_id` value may hold a JSON-quoted string after a field name
/// (`field:"abc"`): then it is the text between the quotes that follows the
/// first colon. Otherwise the value is taken as it is.
pub open spec fn unquoted_trace_id(v: Seq<char>) -> Seq<char> {
    if exists|i: int| is_first_colon(v, i) {
        let i = choose|i: int| is_first_colon(v, i);
        let rest = v.subrange(i + 1, v.len() as int);
        if is_quoted(rest) {
            rest.subrange(1, rest.len() - 1)
        } else {
            v
        }
    } else {
        v
    }
}

proof fn lemma_first_colon_unique(v: Seq<char>, i: int)
    requires
        is_first_colon(v, i),
    ensures
        (choose|k: int| is_first_colon(v, k)) == i,
{
    let k: int = choose|k: int| is_first_colon(v, k);
    assert(is_first_colon(v, k));
    if k < i {
        assert(v[k] != ':');
    }
    if i < k {
        assert(v[i] != ':');
    }
}

/// Unquotes a recorded `trace_id` value.
pub fn unquote_trace_id(value: &str) -> (r: String)
    ensures
        r@ == unquoted_trace_id(value@),
{
    let n: usize = value.unicode_len();
    let mut i: usize = 0;
    while i < n && value.get_char(i) != ':'
        invariant
            i <= n,
            n == value@.len(),
            forall|j: int| 0 <= j < i ==> value@[j] != ':',
        decreases n - i,
    {
        i = i + 1;
    }
    if i == n {
        assert(!exists|k: int| is_first_colon(value@, k));
        return String::from_str(value);
    }
    proof {
        assert(is_first_colon(value@, i as int));
        lemma_first_colon_unique(value@, i as int);
    }
    let rest = value.substring_char(i + 1, n);
    let len: usize = n - i - 1;
    if len >= 2 && rest.get_char(0) == '"' && rest.get_char(len - 1) == '"' {
        let inner = rest.substring_char(1, len - 1);
        assert(is_quoted(rest@));
        String::from_str(inner)
    } else {
        String::from_str(value)
    }
}

/// The text of a field value as a trace id: strings and debug text as they
/// are, numbers and booleans as their JSON text.
pub open spec fn field_text(v: FieldValue) -> Seq<char> {
    match v {
        FieldValue::Str(s) => s@,
        FieldValue::Debug(s) => s@,
        _ => atom_text(field_atom(v)),
    }
}

/// The text of the first `trace_id` field.
pub open spec fn trace_field_text(fs: Seq<Field>) -> Option<Seq<char>>
    decreases fs.len(),
{
    if fs.len() == 0 {
        None
    } else if fs[0].name@ == "trace_id"@ {
        Some(field_text(fs[0].value))
    } else {
        trace_field_text(fs.drop_first())
    }
}

/// The trace id found by scanning the spans, innermost first.
pub open spec fn scanned_trace_id(spans: Seq<SpanData>) -> Option<Seq<char>>
    decreases spans.len(),
{
    if spans.len() == 0 {
        None
    } else {
        match trace_field_text(spans[0].fields@) {
            Some(t) => Some(unquoted_trace_id(t)),
            None => scanned_trace_id(spans.drop_first()),
        }
    }
}

/// Correlation from an attached context: the active parent's trace id and
/// sampled flag where there is a parent, else the builder's trace id, not
/// sampled; the span id is the builder's.
pub open spec fn attached_trace(a: AttachedContext) -> Option<TraceModel> {
    let tid = match a.parent {
        Some(p) => Some(p.trace_id@),
        None => opt_view(a.trace_id),
    };
    let sampled = match a.parent {
        Some(p) => p.sampled,
        None => false,
    };
    match tid {
        Some(t) => Some(TraceModel { trace_id: t, span_id: opt_view(a.span_id), sampled }),
        None => None,
    }
}

/// The trace correlation for the spans in scope, innermost first.
pub open spec fn resolved_trace(strategy: TraceStrategy, spans: Seq<SpanData>) -> Option<
    TraceModel,
> {
    match strategy {
        TraceStrategy::AttachedContext => if spans.len() > 0 && spans[0].attached is Some {
            attached_trace(spans[0].attached->0)
        } else {
            None
        },
        TraceStrategy::FieldScan => match scanned_trace_id(spans) {
            Some(t) => Some(TraceModel { trace_id: t, span_id: None, sampled: false }),
            None => None,
        },
    }
}

pub open spec fn trace_view(o: Option<TraceContext>) -> Option<TraceModel> {
    match o {
        Some(t) => Some(t@),
        None => None,
    }
}

fn field_value_text(v: &FieldValue) -> (r: String)
    ensures
        r@ == field_text(*v),
{
    match v {
        FieldValue::Str(s) => s.clone(),
        FieldValue::Debug(s) => s.clone(),
        FieldValue::I64(n) => scalar_text(&Scalar::I64(*n)),
        FieldValue::U64(n) => scalar_text(&Scalar::U64(*n)),
        FieldValue::Bool(b) => scalar_text(&Scalar::Bool(*b)),
    }
}

/// Keeps the value of a `trace_id` field as the fields of a span are
/// visited.
pub struct TraceIdVisitor {
    pub trace_id: Option<String>,
}

impl TraceIdVisitor {
    pub fn new() -> (r: TraceIdVisitor)
        ensures
            r.trace_id is None,
    {
        TraceIdVisitor { trace_id: None }
    }

    /// Records a string field: the value of a `trace_id` field is unquoted
    /// and kept, in place of any earlier one; other fields are ignored.
    pub fn record_str(&mut self, name: &str, value: &str)
        ensures
            name@ == "trace_id"@ ==> opt_view(final(self).trace_id) == Some(unquoted_trace_id(value@)),
            name@ != "trace_id"@ ==> final(self).trace_id == old(self).trace_id,
    {
        if String::from_str(name) == String::from_str("trace_id") {
            self.trace_id = Some(unquote_trace_id(value));
        }
    }
}

/// The unquoted value of the first `trace_id` field of a span.
pub fn trace_id_in_fields(fs: &Vec<Field>) -> (r: Option<String>)
    ensures
        opt_view(r) == match trace_field_text(fs@) {
            Some(t) => Some(unquoted_trace_id(t)),
            None => None,
        },
{
    let mut visitor = TraceIdVisitor::new();
    let mut i: usize = 0;
    assert(fs@.subrange(0, fs@.len() as int) =~= fs@);
    while i < fs.len() && visitor.trace_id.is_none()
        invariant
            i <= fs.len(),
            match visitor.trace_id {
                None => trace_field_text(fs@) == trace_field_text(
                    fs@.subrange(i as int, fs@.len() as int),
                ),
                Some(v) => trace_field_text(fs@) is Some && v@ == unquoted_trace_id(
                    trace_field_text(fs@)->0,
                ),
            },
        decreases fs.len() - i,
    {
        let ghost rest = fs@.subrange(i as int, fs@.len() as int);
        assert(rest.drop_first() =~= fs@.subrange(i + 1, fs@.len() as int));
        assert(rest[0] == fs@[i as int]);
        let t = field_value_text(&fs[i].value);
        visitor.record_str(fs[i].name.as_str(), t.as_str());
        i = i + 1;
    }
    if visitor.trace_id.is_none() {
        assert(fs@.subrange(i as int, fs@.len() as int).len() == 0);
    }
    visitor.trace_id
}

/// The trace id found on the spans, innermost first, unquoted.
pub fn scan_trace_id(spans: &Vec<SpanData>) -> (r: Option<String>)
    ensures
        opt_view(r) == scanned_trace_id(spans@),
{
    let mut i: usize = 0;
    assert(spans@.subrange(0, spans@.len() as int) =~= spans@);
    while i < spans.len()
        invariant
            i <= spans.len(),
            scanned_trace_id(spans@) == scanned_trace_id(
                spans@.subrange(i as int, spans@.len() as int),
            ),
        decreases spans.len() - i,
    {
        let ghost rest = spans@.subrange(i as int, spans@.len() as int);
        assert(rest.drop_first() =~= spans@.subrange(i + 1, spans@.len() as int));
        assert(rest[0] == spans@[i as int]);
        match trace_id_in_fields(&spans[i].fields) {
            Some(t) => {
                return Some(t);
            },
            None => {},
        }
        i = i + 1;
    }
    assert(spans@.subrange(i as int, spans@.len() as int).len() == 0);
    None
}

/// The correlation read from an attached context.
pub fn attached_trace_context(a: &AttachedContext) -> (r: Option<TraceContext>)
    ensures
        trace_view(r) == attached_trace(*a),
{
    let (tid, sampled) = match &a.parent {
        Some(p) => (Some(p.trace_id.clone()), p.sampled),
        None => (clone_opt(&a.trace_id), false),
    };
    match tid {
        Some(t) => Some(TraceContext { trace_id: t, span_id: clone_opt(&a.span_id), sampled }),
        None => None,
    }
}

/// The trace correlation for the spans in scope, innermost first.
pub fn resolve_trace(strategy: TraceStrategy, spans: &Vec<SpanData>) -> (r: Option<TraceContext>)
    ensures
        trace_view(r) == resolved_trace(strategy, spans@),
{
    match strategy {
        TraceStrategy::AttachedContext => {
            if spans.len() > 0 {
                match &spans[0].attached {
                    Some(a) => attached_trace_context(a),
                    None => None,
                }
            } else {
                None
            }
        },
        TraceStrategy::FieldScan => match scan_trace_id(spans) {
            Some(t) => Some(TraceContext { trace_id: t, span_id: None, sampled: false }),
            None => None,
        },
    }
}

/// The provider's reference to a trace of a project.
pub open spec fn trace_reference(project: Seq<char>, trace: Seq<char>) -> Seq<char> {
    "projects/"@ + project + "/traces/"@ + trace
}

/// Builds `projects/{project}/traces/{trace}`.
pub fn format_trace_reference(project: &str, trace: &str) -> (r: String)
    ensures
        r@ == trace_reference(project@, trace@),
{
    let mut r = String::from_str("projects/");
    r.append(project);
    r.append("/traces/");
    r.append(trace);
    r
}

} // verus!
