//! Structured field values and the key/value sets attached to log records.

use crate::text::{fmt_i64, push_char, spec_dec_int, spec_digit};
use vstd::prelude::*;
use vstd::string::{StrSliceExecFns, StringExecFns};

verus! {

/// A structured value attached to a log record: a scalar, or a nested
/// array / object rendered through the compact structured serialization.
#[derive(Debug)]
pub enum FieldValue {
    Str(String),
    Int(i64),
    Bool(bool),
    Null,
    Arr(Vec<FieldValue>),
    Obj(Vec<(String, FieldValue)>),
}

/// The mathematical model of a [`FieldValue`]: the same tree over character
/// sequences and unbounded integers.
pub enum FieldModel {
    Str(Seq<char>),
    Int(int),
    Bool(bool),
    Null,
    Arr(Seq<FieldModel>),
    Obj(Seq<(Seq<char>, FieldModel)>),
}

/// The model of a value.
pub open spec fn field_model(v: FieldValue) -> FieldModel
    decreases v,
{
    match v {
        FieldValue::Str(s) => FieldModel::Str(s@),
        FieldValue::Int(n) => FieldModel::Int(n as int),
        FieldValue::Bool(b) => FieldModel::Bool(b),
        FieldValue::Null => FieldModel::Null,
        FieldValue::Arr(vs) => FieldModel::Arr(models_of(vs@)),
        FieldValue::Obj(ms) => FieldModel::Obj(entry_models_of(ms@)),
    }
}

/// The models of a sequence of values.
pub open spec fn models_of(vs: Seq<FieldValue>) -> Seq<FieldModel>
    decreases vs,
{
    if vs.len() == 0 {
        Seq::empty()
    } else {
        models_of(vs.drop_last()).push(field_model(vs.last()))
    }
}

/// The models of a sequence of key/value entries.
pub open spec fn entry_models_of(ms: Seq<(String, FieldValue)>) -> Seq<
    (Seq<char>, FieldModel),
>
    decreases ms,
{
    if ms.len() == 0 {
        Seq::empty()
    } else {
        entry_models_of(ms.drop_last()).push((ms.last().0@, field_model(ms.last().1)))
    }
}

impl View for FieldValue {
    type V = FieldModel;

    open spec fn view(&self) -> FieldModel {
        field_model(*self)
    }
}

pub proof fn lemma_models_of(vs: Seq<FieldValue>)
    ensures
        models_of(vs).len() == vs.len(),
        forall|i: int| 0 <= i < vs.len() ==> models_of(vs)[i] == field_model(vs[i]),
    decreases vs.len(),
{
    if vs.len() > 0 {
        lemma_models_of(vs.drop_last());
        assert forall|i: int| 0 <= i < vs.len() implies models_of(vs)[i] == field_model(
            vs[i],
        ) by {
            if i < vs.len() - 1 {
                assert(vs.drop_last()[i] == vs[i]);
            }
        }
    }
}

pub proof fn lemma_entry_models_of(ms: Seq<(String, FieldValue)>)
    ensures
        entry_models_of(ms).len() == ms.len(),
        forall|i: int| 0 <= i < ms.len() ==> entry_models_of(ms)[i] == (
            ms[i].0@,
            field_model(ms[i].1),
        ),
    decreases ms.len(),
{
    if ms.len() > 0 {
        lemma_entry_models_of(ms.drop_last());
        assert forall|i: int| 0 <= i < ms.len() implies entry_models_of(ms)[i] == (
            ms[i].0@,
            field_model(ms[i].1),
        ) by {
            if i < ms.len() - 1 {
                assert(ms.drop_last()[i] == ms[i]);
            }
        }
    }
}

/// The index of the first entry with key `k`, or `-1` when no entry has it.
pub open spec fn spec_key_index(s: Seq<(Seq<char>, FieldModel)>, k: Seq<char>) -> int
    decreases s.len(),
{
    if s.len() == 0 {
        -1
    } else if s[0].0 == k {
        0
    } else {
        let r = spec_key_index(s.drop_first(), k);
        if r < 0 {
            -1
        } else {
            r + 1
        }
    }
}

/// Inserting overwrites the first entry with the same key in place, and
/// otherwise appends a new entry at the end.
pub open spec fn spec_insert(
    s: Seq<(Seq<char>, FieldModel)>,
    k: Seq<char>,
    v: FieldModel,
) -> Seq<(Seq<char>, FieldModel)> {
    let i = spec_key_index(s, k);
    if i >= 0 {
        s.update(i, (k, v))
    } else {
        s.push((k, v))
    }
}

/// Overlaying `call` onto `base`: every call entry is inserted in turn, so on
/// a key collision the call-scoped value wins.
pub open spec fn spec_merge(
    base: Seq<(Seq<char>, FieldModel)>,
    call: Seq<(Seq<char>, FieldModel)>,
) -> Seq<(Seq<char>, FieldModel)>
    decreases call.len(),
{
    if call.len() == 0 {
        base
    } else {
        spec_insert(spec_merge(base, call.drop_last()), call.last().0, call.last().1)
    }
}

pub proof fn lemma_spec_key_index(s: Seq<(Seq<char>, FieldModel)>, k: Seq<char>)
    ensures
        -1 <= spec_key_index(s, k) < s.len(),
        spec_key_index(s, k) >= 0 ==> s[spec_key_index(s, k)].0 == k,
        spec_key_index(s, k) >= 0 ==> forall|j: int|
            0 <= j < spec_key_index(s, k) ==> s[j].0 != k,
        spec_key_index(s, k) == -1 ==> forall|j: int| 0 <= j < s.len() ==> s[j].0 != k,
    decreases s.len(),
{
    if s.len() > 0 && s[0].0 != k {
        lemma_spec_key_index(s.drop_first(), k);
        if spec_key_index(s.drop_first(), k) >= 0 {
            assert forall|j: int| 0 <= j < spec_key_index(s, k) implies s[j].0 != k by {
                if j > 0 {
                    assert(s.drop_first()[j - 1] == s[j]);
                }
            }
        } else {
            assert forall|j: int| 0 <= j < s.len() implies s[j].0 != k by {
                if j > 0 {
                    assert(s.drop_first()[j - 1] == s[j]);
                }
            }
        }
    }
}

/// The character for one hexadecimal digit, lower case.
pub open spec fn spec_hex_digit(d: int) -> char {
    if d % 16 < 10 {
        spec_digit(d % 16)
    } else {
        (((d % 16) + 87) as u8) as char
    }
}

/// How one character is written inside a serialized string: quote, backslash
/// and control characters are escaped, every other character stands as it is.
pub open spec fn spec_escape_char(c: char) -> Seq<char> {
    if c == '"' {
        seq!['\\', '"']
    } else if c == '\\' {
        seq!['\\', '\\']
    } else if c == '\n' {
        seq!['\\', 'n']
    } else if c == '\r' {
        seq!['\\', 'r']
    } else if c == '\t' {
        seq!['\\', 't']
    } else if c == '\u{8}' {
        seq!['\\', 'b']
    } else if c == '\u{c}' {
        seq!['\\', 'f']
    } else if (c as u32) < 32 {
        seq!['\\', 'u', '0', '0', spec_hex_digit((c as u32 / 16) as int), spec_hex_digit(
            (c as u32 % 16) as int,
        )]
    } else {
        seq![c]
    }
}

/// A whole string escaped for the serialized form.
pub open spec fn spec_escape(s: Seq<char>) -> Seq<char>
    decreases s.len(),
{
    if s.len() == 0 {
        Seq::empty()
    } else {
        spec_escape(s.drop_last()) + spec_escape_char(s.last())
    }
}

/// The compact structured serialization of a value.
pub open spec fn spec_json_value(v: FieldModel) -> Seq<char>
    decreases v,
{
    match v {
        FieldModel::Str(s) => seq!['"'] + spec_escape(s) + seq!['"'],
        FieldModel::Int(n) => spec_dec_int(n),
        FieldModel::Bool(b) => if b {
            "true"@
        } else {
            "false"@
        },
        FieldModel::Null => "null"@,
        FieldModel::Arr(vs) => seq!['['] + spec_json_elems(vs) + seq![']'],
        FieldModel::Obj(ms) => seq!['{'] + spec_json_members(ms) + seq!['}'],
    }
}

/// Array elements, comma-separated.
pub open spec fn spec_json_elems(vs: Seq<FieldModel>) -> Seq<char>
    decreases vs,
{
    if vs.len() == 0 {
        Seq::empty()
    } else if vs.len() == 1 {
        spec_json_value(vs[0])
    } else {
        spec_json_elems(vs.drop_last()) + seq![','] + spec_json_value(vs.last())
    }
}

/// Object members, comma-separated, each a quoted key and a value.
pub open spec fn spec_json_members(ms: Seq<(Seq<char>, FieldModel)>) -> Seq<char>
    decreases ms,
{
    if ms.len() == 0 {
        Seq::empty()
    } else {
        let one = seq!['"'] + spec_escape(ms.last().0) + seq!['"', ':'] + spec_json_value(
            ms.last().1,
        );
        if ms.len() == 1 {
            one
        } else {
            spec_json_members(ms.drop_last()) + seq![','] + one
        }
    }
}

/// The plain text form of a value inside a rendered line: scalars stand as
/// themselves, nested arrays and objects go through the serialization.
pub open spec fn spec_plain_value(v: FieldModel) -> Seq<char> {
    match v {
        FieldModel::Str(s) => s,
        FieldModel::Int(n) => spec_dec_int(n),
        FieldModel::Bool(b) => if b {
            "true"@
        } else {
            "false"@
        },
        FieldModel::Null => "null"@,
        FieldModel::Arr(_) => spec_json_value(v),
        FieldModel::Obj(_) => spec_json_value(v),
    }
}

/// The rendered field set: space-joined `key=value` pairs in entry order.
pub open spec fn spec_fields_text(s: Seq<(Seq<char>, FieldModel)>) -> Seq<char>
    decreases s.len(),
{
    if s.len() == 0 {
        Seq::empty()
    } else {
        let one = s.last().0 + seq!['='] + spec_plain_value(s.last().1);
        if s.len() == 1 {
            one
        } else {
            spec_fields_text(s.drop_last()) + seq![' '] + one
        }
    }
}

fn hex_digit(d: u32) -> (c: char)
    requires
        d < 16,
    ensures
        c == spec_hex_digit(d as int),
{
    if d < 10 {
        ((d + 48) as u8) as char
    } else {
        ((d + 87) as u8) as char
    }
}

/// Appends the escaped form of one character.
fn escape_char_into(c: char, out: &mut String)
    ensures
        final(out)@ == old(out)@ + spec_escape_char(c),
{
    if c == '"' {
        push_char(out, '\\');
        push_char(out, '"');
    } else if c == '\\' {
        push_char(out, '\\');
        push_char(out, '\\');
    } else if c == '\n' {
        push_char(out, '\\');
        push_char(out, 'n');
    } else if c == '\r' {
        push_char(out, '\\');
        push_char(out, 'r');
    } else if c == '\t' {
        push_char(out, '\\');
        push_char(out, 't');
    } else if c == '\u{8}' {
        push_char(out, '\\');
        push_char(out, 'b');
    } else if c == '\u{c}' {
        push_char(out, '\\');
        push_char(out, 'f');
    } else if (c as u32) < 32 {
        push_char(out, '\\');
        push_char(out, 'u');
        push_char(out, '0');
        push_char(out, '0');
        push_char(out, hex_digit((c as u32) / 16));
        push_char(out, hex_digit((c as u32) % 16));
    } else {
        push_char(out, c);
    }
    proof {
        assert(out@ =~= old(out)@ + spec_escape_char(c));
    }
}

/// Appends the escaped form of a whole string.
fn escape_into(s: &str, out: &mut String)
    ensures
        final(out)@ == old(out)@ + spec_escape(s@),
{
    let n = s.unicode_len();
    let mut i: usize = 0;
    while i < n
        invariant
            n == s@.len(),
            i <= n,
            out@ == old(out)@ + spec_escape(s@.take(i as int)),
        decreases n - i,
    {
        escape_char_into(s.get_char(i), out);
        proof {
            assert(s@.take(i as int + 1).drop_last() =~= s@.take(i as int));
            assert(out@ =~= old(out)@ + spec_escape(s@.take(i as int + 1)));
        }
        i = i + 1;
    }
    proof {
        assert(s@.take(n as int) =~= s@);
    }
}

/// Appends the serialized form of a value.
#[verifier::loop_isolation(false)]
#[verifier::rlimit(60)]
fn render_json_into(v: &FieldValue, out: &mut String)
    ensures
        final(out)@ == old(out)@ + spec_json_value(v@),
    decreases *v,
{
    match v {
        FieldValue::Str(s) => {
            push_char(out, '"');
            escape_into(s.as_str(), out);
            push_char(out, '"');
            proof {
                assert(out@ =~= old(out)@ + spec_json_value(v@));
            }
        },
        FieldValue::Int(n) => {
            let t = fmt_i64(*n);
            out.append(t.as_str());
        },
        FieldValue::Bool(b) => {
            if *b {
                out.append("true");
            } else {
                out.append("false");
            }
        },
        FieldValue::Null => {
            out.append("null");
        },
        FieldValue::Arr(vs) => {
            push_char(out, '[');
            let ghost models = models_of(vs@);
            proof {
                lemma_models_of(vs@);
                assert(out@ =~= old(out)@ + seq!['['] + spec_json_elems(models.take(0)));
            }
            let n = vs.len();
            let mut i: usize = 0;
            while i < n
                invariant
                    n == vs@.len(),
                    models == models_of(vs@),
                    models.len() == n,
                    forall|j: int| 0 <= j < n ==> models[j] == field_model(vs@[j]),
                    i <= n,
                    out@ == old(out)@ + seq!['['] + spec_json_elems(models.take(i as int)),
                decreases n - i,
            {
                if i > 0 {
                    push_char(out, ',');
                }
                render_json_into(&vs[i], out);
                proof {
                    assert(models.take(i as int + 1).drop_last() =~= models.take(i as int));
                    assert(models.take(i as int + 1).last() == models[i as int]);
                    if i == 0 {
                        assert(models.take(1)[0] == models[0]);
                    }
                    assert(out@ =~= old(out)@ + seq!['['] + spec_json_elems(
                        models.take(i as int + 1),
                    ));
                }
                i = i + 1;
            }
            push_char(out, ']');
            proof {
                assert(models.take(n as int) =~= models);
                assert(out@ =~= old(out)@ + spec_json_value(v@));
            }
        },
        FieldValue::Obj(ms) => {
            push_char(out, '{');
            let ghost models = entry_models_of(ms@);
            proof {
                lemma_entry_models_of(ms@);
                assert(out@ =~= old(out)@ + seq!['{'] + spec_json_members(models.take(0)));
            }
            let n = ms.len();
            let mut i: usize = 0;
            while i < n
                invariant
                    n == ms@.len(),
                    models == entry_models_of(ms@),
                    models.len() == n,
                    forall|j: int| 0 <= j < n ==> models[j] == (
                        ms@[j].0@,
                        field_model(ms@[j].1),
                    ),
                    i <= n,
                    out@ == old(out)@ + seq!['{'] + spec_json_members(models.take(i as int)),
                decreases n - i,
            {
                if i > 0 {
                    push_char(out, ',');
                }
                push_char(out, '"');
                escape_into(ms[i].0.as_str(), out);
                push_char(out, '"');
                push_char(out, ':');
                render_json_into(&ms[i].1, out);
                proof {
                    assert(models.take(i as int + 1).drop_last() =~= models.take(i as int));
                    assert(models.take(i as int + 1).last() == models[i as int]);
                    if i == 0 {
                        assert(models.take(1)[0] == models[0]);
                    }
                    assert(out@ =~= old(out)@ + seq!['{'] + spec_json_members(
                        models.take(i as int + 1),
                    ));
                }
                i = i + 1;
            }
            push_char(out, '}');
            proof {
                assert(models.take(n as int) =~= models);
                assert(out@ =~= old(out)@ + spec_json_value(v@));
            }
        },
    }
}

/// The plain text form of a value, as it appears after `key=`.
pub fn render_plain_value(v: &FieldValue) -> (s: String)
    ensures
        s@ == spec_plain_value(v@),
{
    match v {
        FieldValue::Str(s) => s.clone(),
        FieldValue::Int(n) => fmt_i64(*n),
        FieldValue::Bool(b) => {
            if *b {
                String::from_str("true")
            } else {
                String::from_str("false")
            }
        },
        FieldValue::Null => String::from_str("null"),
        FieldValue::Arr(_) => {
            let mut out = String::new();
            render_json_into(v, &mut out);
            out
        },
        FieldValue::Obj(_) => {
            let mut out = String::new();
            render_json_into(v, &mut out);
            out
        },
    }
}

/// A set of named fields: unique keys, insertion order kept.
#[derive(Debug)]
pub struct FieldSet {
    entries: Vec<(String, FieldValue)>,
}

impl View for FieldSet {
    type V = Seq<(Seq<char>, FieldModel)>;

    closed spec fn view(&self) -> Seq<(Seq<char>, FieldModel)> {
        entry_models_of(self.entries@)
    }
}

impl FieldSet {
    /// All keys are distinct.
    pub open spec fn wf(self) -> bool {
        forall|i: int, j: int| 0 <= i < j < self@.len() ==> self@[i].0 != self@[j].0
    }

    pub fn new() -> (r: FieldSet)
        ensures
            r@ == Seq::<(Seq<char>, FieldModel)>::empty(),
            r.wf(),
    {
        FieldSet { entries: Vec::new() }
    }

    pub fn is_empty(&self) -> (b: bool)
        ensures
            b == (self@.len() == 0),
    {
        proof {
            lemma_entry_models_of(self.entries@);
        }
        self.entries.len() == 0
    }

    /// The index of the first entry whose key is `key`, if any.
    fn find_key(&self, key: &String) -> (r: Option<usize>)
        ensures
            match r {
                Some(i) => i < self@.len() && self@[i as int].0 == key@ && forall|j: int|
                    0 <= j < i ==> self@[j].0 != key@,
                None => forall|j: int| 0 <= j < self@.len() ==> self@[j].0 != key@,
            },
    {
        proof {
            lemma_entry_models_of(self.entries@);
        }
        let n = self.entries.len();
        let mut i: usize = 0;
        while i < n
            invariant
                n == self.entries@.len(),
                self@.len() == n,
                i <= n,
                forall|j: int| 0 <= j < i ==> self@[j].0 != key@,
                forall|j: int| 0 <= j < n ==> self@[j] == (
                    self.entries@[j].0@,
                    field_model(self.entries@[j].1),
                ),
            decreases n - i,
        {
            if self.entries[i].0 == *key {
                return Some(i);
            }
            i = i + 1;
        }
        None
    }

    /// Adds or replaces one field; on a key collision the new value replaces
    /// the old one in place.
    pub fn insert(&mut self, key: String, value: FieldValue)
        requires
            old(self).wf(),
        ensures
            final(self)@ == spec_insert(old(self)@, key@, value@),
            final(self).wf(),
    {
        proof {
            lemma_entry_models_of(self.entries@);
            lemma_spec_key_index(self@, key@);
        }
        match self.find_key(&key) {
            Some(i) => {
                let ghost old_entries = self.entries@;
                self.entries[i] = (key, value);
                proof {
                    lemma_entry_models_of(self.entries@);
                    assert(self.entries@ == old_entries.update(i as int, self.entries@[i as int]));
                    assert(final(self)@ =~= spec_insert(old(self)@, key@, value@));
                }
            },
            None => {
                let ghost old_entries = self.entries@;
                self.entries.push((key, value));
                proof {
                    lemma_entry_models_of(old_entries);
                    lemma_entry_models_of(self.entries@);
                    assert(forall|j: int|
                        0 <= j < old_entries.len() ==> self.entries@[j] == old_entries[j]);
                    assert(final(self)@ =~= spec_insert(old(self)@, key@, value@));
                }
            },
        }
    }
}

impl Clone for FieldValue {
    /// A structurally identical value: the clone has the same model.
    fn clone(&self) -> (r: FieldValue)
        ensures
            r@ == self@,
    {
        clone_value(self)
    }
}

#[verifier::loop_isolation(false)]
fn clone_value(v: &FieldValue) -> (r: FieldValue)
    ensures
        r@ == v@,
    decreases *v,
{
    match v {
        FieldValue::Str(s) => FieldValue::Str(s.clone()),
        FieldValue::Int(n) => FieldValue::Int(*n),
        FieldValue::Bool(b) => FieldValue::Bool(*b),
        FieldValue::Null => FieldValue::Null,
        FieldValue::Arr(vs) => {
            let mut out: Vec<FieldValue> = Vec::new();
            let n = vs.len();
            let mut i: usize = 0;
            while i < n
                invariant
                    i <= n,
                    out@.len() == i,
                    forall|j: int| 0 <= j < i ==> field_model(out@[j]) == field_model(vs@[j]),
                decreases n - i,
            {
                out.push(clone_value(&vs[i]));
                i = i + 1;
            }
            proof {
                lemma_models_of(out@);
                lemma_models_of(vs@);
                assert(models_of(out@) =~= models_of(vs@));
            }
            FieldValue::Arr(out)
        },
        FieldValue::Obj(ms) => {
            let mut out: Vec<(String, FieldValue)> = Vec::new();
            let n = ms.len();
            let mut i: usize = 0;
            while i < n
                invariant
                    i <= n,
                    out@.len() == i,
                    forall|j: int| 0 <= j < i ==> out@[j].0@ == ms@[j].0@ && field_model(
                        out@[j].1,
                    ) == field_model(ms@[j].1),
                decreases n - i,
            {
                let k = ms[i].0.clone();
                let w = clone_value(&ms[i].1);
                out.push((k, w));
                i = i + 1;
            }
            proof {
                lemma_entry_models_of(out@);
                lemma_entry_models_of(ms@);
                assert(entry_models_of(out@) =~= entry_models_of(ms@));
            }
            FieldValue::Obj(out)
        },
    }
}

impl Clone for FieldSet {
    /// A field set with the same entries: the clone has the same model.
    fn clone(&self) -> (r: FieldSet)
        ensures
            r@ == self@,
    {
        let mut out: Vec<(String, FieldValue)> = Vec::new();
        let n = self.entries.len();
        let mut i: usize = 0;
        while i < n
            invariant
                n == self.entries@.len(),
                i <= n,
                out@.len() == i,
                forall|j: int| 0 <= j < i ==> out@[j].0@ == self.entries@[j].0@ && field_model(
                    out@[j].1,
                ) == field_model(self.entries@[j].1),
            decreases n - i,
        {
            let k = self.entries[i].0.clone();
            let w = self.entries[i].1.clone();
            out.push((k, w));
            i = i + 1;
        }
        proof {
            lemma_entry_models_of(out@);
            lemma_entry_models_of(self.entries@);
            assert(entry_models_of(out@) =~= entry_models_of(self.entries@));
        }
        FieldSet { entries: out }
    }
}

impl FieldSet {
    /// Overlays `call` onto a copy of this set: on a key collision the
    /// call-scoped value wins; neither input is changed.
    pub fn merge(&self, call: &FieldSet) -> (r: FieldSet)
        requires
            self.wf(),
        ensures
            r@ == spec_merge(self@, call@),
            r.wf(),
    {
        let mut r = self.clone();
        proof {
            lemma_entry_models_of(call.entries@);
            assert(call@.take(0) =~= Seq::<(Seq<char>, FieldModel)>::empty());
        }
        let n = call.entries.len();
        let mut i: usize = 0;
        while i < n
            invariant
                n == call.entries@.len(),
                call@.len() == n,
                i <= n,
                r@ == spec_merge(self@, call@.take(i as int)),
                r.wf(),
                forall|j: int| 0 <= j < n ==> call@[j] == (
                    call.entries@[j].0@,
                    field_model(call.entries@[j].1),
                ),
            decreases n - i,
        {
            let k = call.entries[i].0.clone();
            let w = call.entries[i].1.clone();
            r.insert(k, w);
            proof {
                assert(call@.take(i as int + 1).drop_last() =~= call@.take(i as int));
                assert(call@.take(i as int + 1).last() == call@[i as int]);
            }
            i = i + 1;
        }
        proof {
            assert(call@.take(n as int) =~= call@);
        }
        r
    }

    /// Renders the whole set as one serialized object.
    pub fn render_json_object(&self) -> (s: String)
        ensures
            s@ == seq!['{'] + spec_json_members(self@) + seq!['}'],
    {
        let mut out = String::new();
        push_char(&mut out, '{');
        proof {
            lemma_entry_models_of(self.entries@);
            assert(out@ =~= seq!['{'] + spec_json_members(self@.take(0)));
        }
        let n = self.entries.len();
        let mut i: usize = 0;
        while i < n
            invariant
                n == self.entries@.len(),
                self@.len() == n,
                i <= n,
                out@ == seq!['{'] + spec_json_members(self@.take(i as int)),
                forall|j: int| 0 <= j < n ==> self@[j] == (
                    self.entries@[j].0@,
                    field_model(self.entries@[j].1),
                ),
            decreases n - i,
        {
            if i > 0 {
                push_char(&mut out, ',');
            }
            push_char(&mut out, '"');
            escape_into(self.entries[i].0.as_str(), &mut out);
            push_char(&mut out, '"');
            push_char(&mut out, ':');
            render_json_into(&self.entries[i].1, &mut out);
            proof {
                assert(self@.take(i as int + 1).drop_last() =~= self@.take(i as int));
                assert(self@.take(i as int + 1).last() == self@[i as int]);
                if i == 0 {
                    assert(self@.take(1)[0] == self@[0]);
                }
                assert(out@ =~= seq!['{'] + spec_json_members(self@.take(i as int + 1)));
            }
            i = i + 1;
        }
        push_char(&mut out, '}');
        proof {
            assert(self@.take(n as int) =~= self@);
            assert(out@ =~= seq!['{'] + spec_json_members(self@) + seq!['}']);
        }
        out
    }

    /// Renders the whole set as space-joined `key=value` pairs.
    pub fn render_pairs(&self) -> (s: String)
        ensures
            s@ == spec_fields_text(self@),
    {
        let mut out = String::new();
        proof {
            lemma_entry_models_of(self.entries@);
            assert(out@ =~= spec_fields_text(self@.take(0)));
        }
        let n = self.entries.len();
        let mut i: usize = 0;
        while i < n
            invariant
                n == self.entries@.len(),
                self@.len() == n,
                i <= n,
                out@ == spec_fields_text(self@.take(i as int)),
                forall|j: int| 0 <= j < n ==> self@[j] == (
                    self.entries@[j].0@,
                    field_model(self.entries@[j].1),
                ),
            decreases n - i,
        {
            if i > 0 {
                push_char(&mut out, ' ');
            }
            out.append(self.entries[i].0.as_str());
            push_char(&mut out, '=');
            let vtext = render_plain_value(&self.entries[i].1);
            out.append(vtext.as_str());
            proof {
                assert(self@.take(i as int + 1).drop_last() =~= self@.take(i as int));
                assert(self@.take(i as int + 1).last() == self@[i as int]);
                if i == 0 {
                    assert(self@.take(1)[0] == self@[0]);
                }
                assert(out@ =~= spec_fields_text(self@.take(i as int + 1)));
            }
            i = i + 1;
        }
        proof {
            assert(self@.take(n as int) =~= self@);
        }
        out
    }
}

} // verus!
