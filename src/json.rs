use vstd::prelude::*;

verus! {

/// A JSON scalar, as a mathematical value.
pub enum AtomModel {
    Null,
    Bool(bool),
    Int(int),
    Text(Seq<char>),
}

/// A value written under a key of a record: a scalar, or a flat object.
pub enum ValueModel {
    Atom(AtomModel),
    Object(Seq<(Seq<char>, AtomModel)>),
}

/// A JSON scalar.
#[derive(Clone, Debug, PartialEq)]
pub enum Scalar {
    Null,
    Bool(bool),
    I64(i64),
    U64(u64),
    Str(String),
}

impl View for Scalar {
    type V = AtomModel;

    open spec fn view(&self) -> AtomModel {
        match self {
            Scalar::Null => AtomModel::Null,
            Scalar::Bool(b) => AtomModel::Bool(*b),
            Scalar::I64(n) => AtomModel::Int(*n as int),
            Scalar::U64(n) => AtomModel::Int(*n as int),
            Scalar::Str(s) => AtomModel::Text(s@),
        }
    }
}

/// One key and scalar of a flat object.
#[derive(Clone, Debug, PartialEq)]
pub struct Member {
    pub key: String,
    pub value: Scalar,
}

impl View for Member {
    type V = (Seq<char>, AtomModel);

    open spec fn view(&self) -> (Seq<char>, AtomModel) {
        (self.key@, self.value@)
    }
}

pub open spec fn members_view(ms: Seq<Member>) -> Seq<(Seq<char>, AtomModel)> {
    ms.map_values(|m: Member| m@)
}

/// A value written under a key of a record.
#[derive(Clone, Debug, PartialEq)]
pub enum JsonValue {
    Scalar(Scalar),
    Object(Vec<Member>),
}

impl View for JsonValue {
    type V = ValueModel;

    open spec fn view(&self) -> ValueModel {
        match self {
            JsonValue::Scalar(a) => ValueModel::Atom(a@),
            JsonValue::Object(ms) => ValueModel::Object(members_view(ms@)),
        }
    }
}

/// One key and value of a record, in the order written.
#[derive(Clone, Debug, PartialEq)]
pub struct Entry {
    pub key: String,
    pub value: JsonValue,
}

impl View for Entry {
    type V = (Seq<char>, ValueModel);

    open spec fn view(&self) -> (Seq<char>, ValueModel) {
        (self.key@, self.value@)
    }
}

pub open spec fn entries_view(es: Seq<Entry>) -> Seq<(Seq<char>, ValueModel)> {
    es.map_values(|e: Entry| e@)
}

pub open spec fn hex_digit(n: nat) -> char {
    seq!['0', '1', '2', '3', '4', '5', '6', '7', '8', '9', 'a', 'b', 'c', 'd', 'e', 'f'][n as int]
}

/// How one character stands inside a JSON string literal: quote, backslash
/// and control characters are escaped, all others stand as they are.
pub open spec fn escape_char(c: char) -> Seq<char> {
    if c == '"' {
        seq!['\\', '"']
    } else if c == '\\' {
        seq!['\\', '\\']
    } else if c == '\u{8}' {
        seq!['\\', 'b']
    } else if c == '\t' {
        seq!['\\', 't']
    } else if c == '\n' {
        seq!['\\', 'n']
    } else if c == '\u{c}' {
        seq!['\\', 'f']
    } else if c == '\r' {
        seq!['\\', 'r']
    } else if (c as u32) < 0x20 {
        seq!['\\', 'u', '0', '0', hex_digit((c as u32 / 16) as nat), hex_digit((c as u32 % 16) as nat)]
    } else {
        seq![c]
    }
}

pub open spec fn escaped(s: Seq<char>) -> Seq<char>
    decreases s.len(),
{
    if s.len() == 0 {
        seq![]
    } else {
        escaped(s.drop_last()) + escape_char(s.last())
    }
}

/// The JSON string literal for `s`.
pub open spec fn quoted(s: Seq<char>) -> Seq<char> {
    seq!['"'] + escaped(s) + seq!['"']
}

pub open spec fn decimal(n: nat) -> Seq<char>
    decreases n,
{
    if n < 10 {
        seq![hex_digit(n)]
    } else {
        decimal(n / 10) + seq![hex_digit(n % 10)]
    }
}

/// The JSON number for an integer.
pub open spec fn int_text(n: int) -> Seq<char> {
    if n < 0 {
        seq!['-'] + decimal((-n) as nat)
    } else {
        decimal(n as nat)
    }
}

pub open spec fn atom_text(a: AtomModel) -> Seq<char> {
    match a {
        AtomModel::Null => "null"@,
        AtomModel::Bool(b) => if b {
            "true"@
        } else {
            "false"@
        },
        AtomModel::Int(n) => int_text(n),
        AtomModel::Text(s) => quoted(s),
    }
}

pub open spec fn member_text(m: (Seq<char>, AtomModel)) -> Seq<char> {
    quoted(m.0) + seq![':'] + atom_text(m.1)
}

/// The members of an object, comma separated.
pub open spec fn members_text(ms: Seq<(Seq<char>, AtomModel)>) -> Seq<char>
    decreases ms.len(),
{
    if ms.len() == 0 {
        seq![]
    } else if ms.len() == 1 {
        member_text(ms[0])
    } else {
        members_text(ms.drop_last()) + seq![','] + member_text(ms.last())
    }
}

pub open spec fn value_text(v: ValueModel) -> Seq<char> {
    match v {
        ValueModel::Atom(a) => atom_text(a),
        ValueModel::Object(ms) => seq!['{'] + members_text(ms) + seq!['}'],
    }
}

pub open spec fn entry_text(e: (Seq<char>, ValueModel)) -> Seq<char> {
    quoted(e.0) + seq![':'] + value_text(e.1)
}

/// The entries of a record, comma separated.
pub open spec fn entries_text(es: Seq<(Seq<char>, ValueModel)>) -> Seq<char>
    decreases es.len(),
{
    if es.len() == 0 {
        seq![]
    } else if es.len() == 1 {
        entry_text(es[0])
    } else {
        entries_text(es.drop_last()) + seq![','] + entry_text(es.last())
    }
}

/// A record as one line of JSON text, newline terminated.
pub open spec fn line_text(es: Seq<(Seq<char>, ValueModel)>) -> Seq<char> {
    seq!['{'] + entries_text(es) + seq!['}', '\n']
}

#[verifier::external_type_specification]
#[verifier::external_body]
pub struct ExJsonError(serde_json::Error);

/// Relies on serde_json::to_string on a `str`: it gives the string literal
/// with serde_json's escapes (the `ESCAPE` table and `write_char_escape` with
/// lower-case hex digits). It writes into a `Vec<u8>`, whose writes do not
/// fail, so it always succeeds.
#[verifier::external_body]
fn json_quote(s: &str) -> (r: Result<String, serde_json::Error>)
    ensures
        r is Ok,
        r matches Ok(q) ==> q@ == quoted(s@),
{
    serde_json::to_string(s)
}

/// Relies on String::push: appends one character.
#[verifier::external_body]
fn push_char(s: &mut String, c: char)
    ensures
        final(s)@ == old(s)@.push(c),
{
    s.push(c)
}

fn digit(d: u64) -> (c: char)
    requires
        d < 10,
    ensures
        c == hex_digit(d as nat),
{
    match d {
        0 => '0',
        1 => '1',
        2 => '2',
        3 => '3',
        4 => '4',
        5 => '5',
        6 => '6',
        7 => '7',
        8 => '8',
        _ => '9',
    }
}

/// Appends the decimal digits of `n`.
pub fn push_decimal(out: &mut String, n: u64)
    ensures
        final(out)@ == old(out)@ + decimal(n as nat),
    decreases n,
{
    if n >= 10 {
        push_decimal(out, n / 10);
        push_char(out, digit(n % 10));
        assert(final(out)@ =~= old(out)@ + decimal(n as nat));
    } else {
        push_char(out, digit(n));
        assert(final(out)@ =~= old(out)@ + decimal(n as nat));
    }
}

/// Appends the JSON string literal for `s`.
pub fn push_quoted(out: &mut String, s: &str)
    ensures
        final(out)@ == old(out)@ + quoted(s@),
{
    match json_quote(s) {
        Ok(q) => out.append(q.as_str()),
        Err(_) => {},
    }
}

/// Appends the JSON text of a scalar.
pub fn push_scalar(out: &mut String, a: &Scalar)
    ensures
        final(out)@ == old(out)@ + atom_text(a@),
{
    match a {
        Scalar::Null => out.append("null"),
        Scalar::Bool(b) => {
            if *b {
                out.append("true");
            } else {
                out.append("false");
            }
        },
        Scalar::I64(n) => {
            if *n < 0 {
                push_char(out, '-');
                let m: u64 = ((-(*n + 1)) as u64) + 1;
                push_decimal(out, m);
                assert(final(out)@ =~= old(out)@ + atom_text(a@));
            } else {
                push_decimal(out, *n as u64);
            }
        },
        Scalar::U64(n) => push_decimal(out, *n),
        Scalar::Str(s) => push_quoted(out, s.as_str()),
    }
}

/// The JSON text of a scalar.
pub fn scalar_text(a: &Scalar) -> (r: String)
    ensures
        r@ == atom_text(a@),
{
    let mut r = String::new();
    push_scalar(&mut r, a);
    assert(r@ =~= atom_text(a@));
    r
}

/// Appends a flat JSON object.
pub fn push_object(out: &mut String, ms: &Vec<Member>)
    ensures
        final(out)@ == old(out)@ + value_text(ValueModel::Object(members_view(ms@))),
{
    let ghost start = out@;
    push_char(out, '{');
    let mut i: usize = 0;
    while i < ms.len()
        invariant
            i <= ms.len(),
            out@ == start + seq!['{'] + members_text(members_view(ms@).take(i as int)),
        decreases ms.len() - i,
    {
        if i > 0 {
            push_char(out, ',');
        }
        push_quoted(out, ms[i].key.as_str());
        push_char(out, ':');
        push_scalar(out, &ms[i].value);
        proof {
            let mv = members_view(ms@);
            assert(mv.take(i + 1).drop_last() =~= mv.take(i as int));
            assert(mv.take(i + 1).last() == ms@[i as int]@);
            if i == 0 {
                assert(mv.take(1) =~= seq![mv[0]]);
            }
        }
        i = i + 1;
        assert(out@ =~= start + seq!['{'] + members_text(members_view(ms@).take(i as int)));
    }
    push_char(out, '}');
    assert(members_view(ms@).take(ms.len() as int) =~= members_view(ms@));
    assert(final(out)@ =~= old(out)@ + value_text(ValueModel::Object(members_view(ms@))));
}

/// Appends the JSON text of a value.
pub fn push_value(out: &mut String, v: &JsonValue)
    ensures
        final(out)@ == old(out)@ + value_text(v@),
{
    match v {
        JsonValue::Scalar(a) => push_scalar(out, a),
        JsonValue::Object(ms) => push_object(out, ms),
    }
}

/// The record as one newline-terminated line of JSON text. Keys are written
/// once each, in the order of `es`; nothing is merged or reordered.
pub fn render_line(es: &Vec<Entry>) -> (line: String)
    ensures
        line@ == line_text(entries_view(es@)),
{
    let mut out = String::new();
    push_char(&mut out, '{');
    let mut i: usize = 0;
    while i < es.len()
        invariant
            i <= es.len(),
            out@ == seq!['{'] + entries_text(entries_view(es@).take(i as int)),
        decreases es.len() - i,
    {
        if i > 0 {
            push_char(&mut out, ',');
        }
        push_quoted(&mut out, es[i].key.as_str());
        push_char(&mut out, ':');
        push_value(&mut out, &es[i].value);
        proof {
            let ev = entries_view(es@);
            assert(ev.take(i + 1).drop_last() =~= ev.take(i as int));
            assert(ev.take(i + 1).last() == es@[i as int]@);
            if i == 0 {
                assert(ev.take(1) =~= seq![ev[0]]);
            }
        }
        i = i + 1;
        assert(out@ =~= seq!['{'] + entries_text(entries_view(es@).take(i as int)));
    }
    push_char(&mut out, '}');
    push_char(&mut out, '\n');
    assert(entries_view(es@).take(es.len() as int) =~= entries_view(es@));
    assert(out@ =~= line_text(entries_view(es@)));
    out
}

} // verus!
