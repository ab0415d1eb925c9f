//! The logger façade: configuration, the level filter, field merging and the
//! dispatch to the configured formatter.

use crate::fields::{spec_insert, spec_merge, FieldModel, FieldSet, FieldValue};
use crate::formatter::{
    is_default_flexible, is_default_pretty, spec_flexible_format, spec_json_format,
    spec_pretty_format, FlexibleFormatter, Formatter, JsonFormatter, PrettyFormatter,
};
use crate::level::Level;
use crate::text::push_char;
use crate::timestamp::Timestamp;
use vstd::prelude::*;
use vstd::string::StringExecFns;

verus! {

/// The formatter a logger is configured with.
pub enum FormatterChoice {
    Json(JsonFormatter),
    Pretty(PrettyFormatter),
    Flexible(FlexibleFormatter),
}

/// What the configured formatter renders for one record.
pub open spec fn spec_format_with(
    f: FormatterChoice,
    level: Level,
    msg: Seq<char>,
    fields: Seq<(Seq<char>, FieldModel)>,
    ts: Timestamp,
    name: Seq<char>,
) -> Seq<char> {
    match f {
        FormatterChoice::Json(_) => spec_json_format(level, msg, fields, ts, name),
        FormatterChoice::Pretty(p) => spec_pretty_format(p, level, msg, fields, ts, name),
        FormatterChoice::Flexible(fl) => spec_flexible_format(fl, level, msg, fields, ts, name),
    }
}

/// The main façade: a name, a minimum level, a formatter and base fields,
/// all fixed at configuration time through the builder methods.  A record is
/// rendered only when its level is at or above the minimum; its fields are
/// the base fields with the call-scoped fields overlaid.
pub struct Logger {
    pub name: String,
    pub level: Level,
    pub formatter: FormatterChoice,
    pub base_fields: FieldSet,
}

impl Logger {
    /// The base fields have distinct keys.
    pub open spec fn wf(self) -> bool {
        self.base_fields.wf()
    }

    /// Whether a record at `level` passes this logger's filter.
    pub open spec fn spec_should_log(self, level: Level) -> bool {
        level.spec_value() >= self.level.spec_value()
    }

    pub fn new(name: &str) -> (r: Logger)
        ensures
            r.name@ == name@,
            r.level == Level::Info,
            r.formatter is Json,
            r.base_fields@ == Seq::<(Seq<char>, FieldModel)>::empty(),
            r.wf(),
    {
        Logger {
            name: String::from_str(name),
            level: Level::Info,
            formatter: FormatterChoice::Json(JsonFormatter),
            base_fields: FieldSet::new(),
        }
    }

    pub fn with_level(self, level: Level) -> (r: Logger)
        ensures
            r.level == level,
            r.name@ == self.name@,
            r.formatter == self.formatter,
            r.base_fields == self.base_fields,
    {
        let mut s = self;
        s.level = level;
        s
    }

    pub fn with_formatter(self, formatter: FormatterChoice) -> (r: Logger)
        ensures
            r.formatter == formatter,
            r.name@ == self.name@,
            r.level == self.level,
            r.base_fields == self.base_fields,
    {
        let mut s = self;
        s.formatter = formatter;
        s
    }

    /// Binds one base field, inherited by every record this logger emits.
    pub fn with_field(self, key: &str, value: FieldValue) -> (r: Logger)
        requires
            self.wf(),
        ensures
            r.base_fields@ == spec_insert(self.base_fields@, key@, value@),
            r.name@ == self.name@,
            r.level == self.level,
            r.formatter == self.formatter,
            r.wf(),
    {
        let mut s = self;
        s.base_fields.insert(String::from_str(key), value);
        s
    }

    /// A logger named `app` with the human-readable formatter.
    pub fn pretty() -> (r: Logger)
        ensures
            r.name@ == "app"@,
            r.level == Level::Info,
            r.formatter matches FormatterChoice::Pretty(p) && is_default_pretty(p),
            r.base_fields@ == Seq::<(Seq<char>, FieldModel)>::empty(),
            r.wf(),
    {
        Self::new("app").with_formatter(FormatterChoice::Pretty(PrettyFormatter::new()))
    }

    /// A child logger: its name is `parent.suffix` (or just the suffix when
    /// the parent name is empty), its base fields are copied from the parent,
    /// and its formatter resets to the default.
    pub fn child(&self, name: &str) -> (r: Logger)
        requires
            self.wf(),
        ensures
            r.base_fields@ == self.base_fields@,
            r.name@ == if self.name@.len() == 0 {
                name@
            } else {
                self.name@ + seq!['.'] + name@
            },
            r.level == self.level,
            r.formatter is Json,
            r.wf(),
    {
        let child_name = if self.name.as_str().is_empty() {
            String::from_str(name)
        } else {
            let mut n = self.name.clone();
            push_char(&mut n, '.');
            let n = n.concat(name);
            proof {
                assert(n@ =~= self.name@ + seq!['.'] + name@);
            }
            n
        };
        Logger {
            name: child_name,
            level: self.level,
            formatter: FormatterChoice::Json(JsonFormatter),
            base_fields: self.base_fields.clone(),
        }
    }

    /// Whether a record at `level` would be emitted.
    pub fn should_log(&self, level: Level) -> (b: bool)
        ensures
            b == self.spec_should_log(level),
    {
        level.value() >= self.level.value()
    }

    /// Renders one record at the given instant: `None` exactly when the
    /// record's level lies below the minimum, otherwise the line the
    /// configured formatter produces from the merged fields.
    pub fn format_record(
        &self,
        level: Level,
        msg: &str,
        call_fields: Option<&FieldSet>,
        timestamp: &Timestamp,
    ) -> (r: Option<String>)
        requires
            self.wf(),
            match call_fields {
                Some(f) => f.wf(),
                None => true,
            },
        ensures
            r is Some <==> self.spec_should_log(level),
            match r {
                Some(s) => s@ == spec_format_with(
                    self.formatter,
                    level,
                    msg@,
                    spec_call_fields(self.base_fields@, call_fields),
                    *timestamp,
                    self.name@,
                ),
                None => true,
            },
    {
        if !self.should_log(level) {
            return None;
        }
        let merged = match call_fields {
            Some(f) => self.base_fields.merge(f),
            None => self.base_fields.clone(),
        };
        let line = match &self.formatter {
            FormatterChoice::Json(j) => j.format(level, msg, &merged, timestamp, self.name.as_str()),
            FormatterChoice::Pretty(p) => p.format(
                level,
                msg,
                &merged,
                timestamp,
                self.name.as_str(),
            ),
            FormatterChoice::Flexible(fl) => fl.format(
                level,
                msg,
                &merged,
                timestamp,
                self.name.as_str(),
            ),
        };
        Some(line)
    }

    /// Renders one record at the current instant: the level filter and the
    /// rendered line are as in [`Logger::format_record`], for some well-formed
    /// timestamp.
    pub fn format_record_now(&self, level: Level, msg: &str, call_fields: Option<&FieldSet>) -> (r:
        Option<String>)
        requires
            self.wf(),
            match call_fields {
                Some(f) => f.wf(),
                None => true,
            },
        ensures
            r is Some <==> self.spec_should_log(level),
            match r {
                Some(s) => exists|ts: Timestamp|
                    ts.wf() && s@ == spec_format_with(
                        self.formatter,
                        level,
                        msg@,
                        spec_call_fields(self.base_fields@, call_fields),
                        ts,
                        self.name@,
                    ),
                None => true,
            },
    {
        let ts = Timestamp::now();
        self.format_record(level, msg, call_fields, &ts)
    }
}

/// The fields of one record: the base fields alone, or the call fields
/// overlaid onto them.
pub open spec fn spec_call_fields(
    base: Seq<(Seq<char>, FieldModel)>,
    call_fields: Option<&FieldSet>,
) -> Seq<(Seq<char>, FieldModel)> {
    match call_fields {
        Some(f) => spec_merge(base, f@),
        None => base,
    }
}

/// Collects the call-scoped fields of one log call.
pub struct LogBuilder {
    pub fields: FieldSet,
}

impl LogBuilder {
    pub fn new() -> (r: LogBuilder)
        ensures
            r.fields@ == Seq::<(Seq<char>, FieldModel)>::empty(),
            r.fields.wf(),
    {
        LogBuilder { fields: FieldSet::new() }
    }

    /// Adds one field of any value shape.
    pub fn field(&mut self, key: &str, value: FieldValue)
        requires
            old(self).fields.wf(),
        ensures
            final(self).fields@ == spec_insert(old(self).fields@, key@, value@),
            final(self).fields.wf(),
    {
        self.fields.insert(String::from_str(key), value);
    }

    /// Adds one string field.
    pub fn string(&mut self, key: &str, value: &str)
        requires
            old(self).fields.wf(),
        ensures
            final(self).fields@ == spec_insert(
                old(self).fields@,
                key@,
                FieldModel::Str(value@),
            ),
            final(self).fields.wf(),
    {
        self.fields.insert(String::from_str(key), FieldValue::Str(String::from_str(value)));
    }

    /// Adds one integer field.
    pub fn number(&mut self, key: &str, value: i64)
        requires
            old(self).fields.wf(),
        ensures
            final(self).fields@ == spec_insert(
                old(self).fields@,
                key@,
                FieldModel::Int(value as int),
            ),
            final(self).fields.wf(),
    {
        self.fields.insert(String::from_str(key), FieldValue::Int(value));
    }

    /// Adds one boolean field.
    pub fn bool(&mut self, key: &str, value: bool)
        requires
            old(self).fields.wf(),
        ensures
            final(self).fields@ == spec_insert(
                old(self).fields@,
                key@,
                FieldModel::Bool(value),
            ),
            final(self).fields.wf(),
    {
        self.fields.insert(String::from_str(key), FieldValue::Bool(value));
    }
}

/// For two levels `lo < hi`, a logger whose minimum level is `hi` drops a
/// call at `lo` and emits a call at `hi` or at any level above it.  Together
/// with [`Logger::format_record`], whose result is `Some` exactly when the
/// filter passes, this pins the filter behaviour.
pub proof fn lemma_level_filter(logger: Logger, lo: Level, hi: Level)
    requires
        lo.spec_value() < hi.spec_value(),
        logger.level == hi,
    ensures
        !logger.spec_should_log(lo),
        logger.spec_should_log(hi),
        forall|l3: Level| l3.spec_value() >= hi.spec_value() ==> logger.spec_should_log(l3),
{
}

/// A logger with the given name and the default configuration.
pub fn create_logger(name: &str) -> (r: Logger)
    ensures
        r.name@ == name@,
        r.level == Level::Info,
        r.formatter is Json,
        r.base_fields@ == Seq::<(Seq<char>, FieldModel)>::empty(),
        r.wf(),
{
    Logger::new(name)
}

} // verus!
