//! Formatters: the position-based flexible template engine, the structured
//! single-line formatter and the fixed human-readable formatter.

use crate::fields::{lemma_spec_key_index, spec_fields_text, spec_json_members, spec_merge, FieldModel, FieldSet, FieldValue};
use crate::level::Level;
use crate::text::push_char;
use crate::timestamp::{spec_format_time, spec_rfc3339, Timestamp};
use vstd::prelude::*;
use vstd::string::StringExecFns;

verus! {

/// Converts a log record into its final textual form.  Implement the single
/// `format` method to integrate with existing log pipelines or bespoke
/// tooling.
pub trait Formatter {
    fn format(
        &self,
        level: Level,
        msg: &str,
        fields: &FieldSet,
        timestamp: &Timestamp,
        name: &str,
    ) -> String;
}

/// Where a component stands in the rendered line.
#[derive(Debug, Clone, Copy, PartialEq, Eq, Structural, Hash)]
pub enum ComponentPosition {
    /// Component appears before everything else
    Start,
    /// Component appears after timestamp
    AfterTime,
    /// Component appears after logger name
    AfterName,
    /// Component appears after level
    AfterLevel,
    /// Component appears after message
    AfterMessage,
    /// Component appears at the end
    End,
}

/// What a component renders.
#[derive(Debug)]
pub enum ComponentType {
    Timestamp,
    LoggerName,
    Level,
    Message,
    Fields,
    CustomText(String),
}

/// The model of a [`ComponentType`].
pub enum KindModel {
    Timestamp,
    LoggerName,
    Level,
    Message,
    Fields,
    CustomText(Seq<char>),
}

impl View for ComponentType {
    type V = KindModel;

    open spec fn view(&self) -> KindModel {
        match self {
            ComponentType::Timestamp => KindModel::Timestamp,
            ComponentType::LoggerName => KindModel::LoggerName,
            ComponentType::Level => KindModel::Level,
            ComponentType::Message => KindModel::Message,
            ComponentType::Fields => KindModel::Fields,
            ComponentType::CustomText(t) => KindModel::CustomText(t@),
        }
    }
}

/// One renderable unit of a template, with its position and decoration.
#[derive(Debug)]
pub struct TemplateComponent {
    /// The type of component
    pub component_type: ComponentType,
    /// Position in the output
    pub position: ComponentPosition,
    /// Optional color escape for this component
    pub color: Option<String>,
    /// Optional prefix (e.g., "[" for timestamp)
    pub prefix: Option<String>,
    /// Optional suffix (e.g., "]" for timestamp)
    pub suffix: Option<String>,
}

/// The model of an optional string.
pub open spec fn opt_model(o: Option<String>) -> Option<Seq<char>> {
    match o {
        Some(s) => Some(s@),
        None => None,
    }
}

/// The model of a [`TemplateComponent`].
pub struct ComponentModel {
    pub kind: KindModel,
    pub position: ComponentPosition,
    pub color: Option<Seq<char>>,
    pub prefix: Option<Seq<char>>,
    pub suffix: Option<Seq<char>>,
}

impl View for TemplateComponent {
    type V = ComponentModel;

    open spec fn view(&self) -> ComponentModel {
        ComponentModel {
            kind: self.component_type@,
            position: self.position,
            color: opt_model(self.color),
            prefix: opt_model(self.prefix),
            suffix: opt_model(self.suffix),
        }
    }
}

/// The models of a sequence of components.
pub open spec fn components_model(cs: Seq<TemplateComponent>) -> Seq<ComponentModel> {
    cs.map_values(|c: TemplateComponent| c@)
}

/// The pre-computed scalar strings of one record, against which a template is
/// rendered.
pub struct RenderContext {
    /// The formatted timestamp.
    pub time: Seq<char>,
    /// The logger name.
    pub name: Seq<char>,
    /// The canonical level string.
    pub level: Seq<char>,
    /// The message.
    pub msg: Seq<char>,
    /// The record's field set.
    pub fields: Seq<(Seq<char>, FieldModel)>,
    /// The shared reset escape.
    pub reset: Seq<char>,
}

/// An absent optional piece renders as nothing.
pub open spec fn spec_opt_text(o: Option<Seq<char>>) -> Seq<char> {
    match o {
        Some(s) => s,
        None => Seq::empty(),
    }
}

/// The content a component kind resolves to, or `None` when the component is
/// skipped entirely (a `Fields` component of a record without fields).
pub open spec fn spec_content(kind: KindModel, ctx: RenderContext) -> Option<Seq<char>> {
    match kind {
        KindModel::Timestamp => Some(ctx.time),
        KindModel::LoggerName => Some(ctx.name),
        KindModel::Level => Some(ctx.level),
        KindModel::Message => Some(ctx.msg),
        KindModel::Fields => if ctx.fields.len() > 0 {
            Some(spec_fields_text(ctx.fields))
        } else {
            None
        },
        KindModel::CustomText(t) => Some(t),
    }
}

/// What one component with resolved content emits: prefix, color escape,
/// content, the shared reset escape (only for a colored component and a
/// non-empty reset), suffix.
pub open spec fn spec_emitted(c: ComponentModel, content: Seq<char>, reset: Seq<char>) -> Seq<
    char,
> {
    spec_opt_text(c.prefix) + spec_opt_text(c.color) + content + (if c.color is Some
        && reset.len() > 0 {
        reset
    } else {
        Seq::empty()
    }) + spec_opt_text(c.suffix)
}

/// What one component renders: nothing when skipped.
pub open spec fn spec_render_component(c: ComponentModel, ctx: RenderContext) -> Seq<char> {
    match spec_content(c.kind, ctx) {
        None => Seq::empty(),
        Some(content) => spec_emitted(c, content, ctx.reset),
    }
}

/// What the components of one position bucket render, in insertion order.
pub open spec fn spec_render_bucket(
    cs: Seq<ComponentModel>,
    pos: ComponentPosition,
    ctx: RenderContext,
) -> Seq<char>
    decreases cs.len(),
{
    if cs.len() == 0 {
        Seq::empty()
    } else {
        spec_render_bucket(cs.drop_last(), pos, ctx) + (if cs.last().position == pos {
            spec_render_component(cs.last(), ctx)
        } else {
            Seq::empty()
        })
    }
}

/// The fixed order in which the six positions are visited.
pub open spec fn spec_position_at(k: int) -> ComponentPosition {
    if k == 0 {
        ComponentPosition::Start
    } else if k == 1 {
        ComponentPosition::AfterTime
    } else if k == 2 {
        ComponentPosition::AfterName
    } else if k == 3 {
        ComponentPosition::AfterLevel
    } else if k == 4 {
        ComponentPosition::AfterMessage
    } else {
        ComponentPosition::End
    }
}

/// What the first `k` position buckets render, concatenated.
pub open spec fn spec_render_upto(cs: Seq<ComponentModel>, ctx: RenderContext, k: int) -> Seq<
    char,
>
    decreases k,
{
    if k <= 0 {
        Seq::empty()
    } else {
        spec_render_upto(cs, ctx, k - 1) + spec_render_bucket(cs, spec_position_at(k - 1), ctx)
    }
}

/// The whole rendered line: the six buckets in position order.
pub open spec fn spec_render_all(cs: Seq<ComponentModel>, ctx: RenderContext) -> Seq<char> {
    spec_render_upto(cs, ctx, 6)
}

fn position_at(k: usize) -> (p: ComponentPosition)
    requires
        k < 6,
    ensures
        p == spec_position_at(k as int),
{
    match k {
        0 => ComponentPosition::Start,
        1 => ComponentPosition::AfterTime,
        2 => ComponentPosition::AfterName,
        3 => ComponentPosition::AfterLevel,
        4 => ComponentPosition::AfterMessage,
        _ => ComponentPosition::End,
    }
}

/// Appends what one unskipped component emits.
fn emit_component(comp: &TemplateComponent, content: &str, reset: &str, out: &mut String)
    ensures
        final(out)@ == old(out)@ + spec_emitted(comp@, content@, reset@),
{
    if let Some(p) = &comp.prefix {
        out.append(p.as_str());
    }
    if let Some(cl) = &comp.color {
        out.append(cl.as_str());
    }
    out.append(content);
    if comp.color.is_some() && !reset.is_empty() {
        out.append(reset);
    }
    if let Some(sf) = &comp.suffix {
        out.append(sf.as_str());
    }
    proof {
        assert(out@ =~= old(out)@ + spec_emitted(comp@, content@, reset@));
    }
}

/// Serialises a record to one machine-parseable structured line, with the
/// reserved keys `level`, `time`, `name` and `msg`, and every caller field
/// flattened at the top level; a caller field with a reserved name silently
/// overwrites the reserved entry.
pub struct JsonFormatter;

/// The four reserved entries of a structured line.
pub open spec fn spec_reserved_entries(
    level: Level,
    msg: Seq<char>,
    ts: Timestamp,
    name: Seq<char>,
) -> Seq<(Seq<char>, FieldModel)> {
    seq![
        ("level"@, FieldModel::Int(level.spec_value() as int)),
        ("time"@, FieldModel::Str(spec_rfc3339(ts))),
        ("name"@, FieldModel::Str(name)),
        ("msg"@, FieldModel::Str(msg)),
    ]
}

/// What the structured-line formatter renders for one record.
pub open spec fn spec_json_format(
    level: Level,
    msg: Seq<char>,
    fields: Seq<(Seq<char>, FieldModel)>,
    ts: Timestamp,
    name: Seq<char>,
) -> Seq<char> {
    seq!['{'] + spec_json_members(spec_merge(spec_reserved_entries(level, msg, ts, name), fields))
        + seq!['}']
}

impl Formatter for JsonFormatter {
    /// Builds the four reserved entries, overlays the caller fields onto
    /// them, and serialises the whole object.
    fn format(
        &self,
        level: Level,
        msg: &str,
        fields: &FieldSet,
        timestamp: &Timestamp,
        name: &str,
    ) -> (r: String)
        ensures
            r@ == spec_json_format(level, msg@, fields@, *timestamp, name@),
    {
        proof {
            reveal_strlit("level");
            reveal_strlit("time");
            reveal_strlit("name");
            reveal_strlit("msg");
        }
        let mut m = FieldSet::new();
        m.insert(String::from_str("level"), FieldValue::Int(level.value() as i64));
        proof {
            lemma_spec_key_index(Seq::<(Seq<char>, FieldModel)>::empty(), "level"@);
            assert(m@ =~= seq![("level"@, FieldModel::Int(level.spec_value() as int))]);
        }
        let ghost m1 = m@;
        m.insert(String::from_str("time"), FieldValue::Str(timestamp.rfc3339()));
        proof {
            lemma_spec_key_index(m1, "time"@);
            assert("time"@.len() != "level"@.len());
            assert(m@ =~= m1.push(("time"@, FieldModel::Str(spec_rfc3339(*timestamp)))));
        }
        let ghost m2 = m@;
        m.insert(String::from_str("name"), FieldValue::Str(String::from_str(name)));
        proof {
            lemma_spec_key_index(m2, "name"@);
            assert("name"@ != "level"@);
            assert("name"@[0] != "time"@[0]);
            assert(m@ =~= m2.push(("name"@, FieldModel::Str(name@))));
        }
        let ghost m3 = m@;
        m.insert(String::from_str("msg"), FieldValue::Str(String::from_str(msg)));
        proof {
            lemma_spec_key_index(m3, "msg"@);
            assert("msg"@.len() != "level"@.len());
            assert("msg"@.len() != "time"@.len());
            assert("msg"@.len() != "name"@.len());
            assert(m@ =~= spec_reserved_entries(level, msg@, *timestamp, name@));
        }
        let merged = m.merge(fields);
        merged.render_json_object()
    }
}

/// The colors of the human-readable formatter: one optional color escape per
/// severity.
#[derive(Debug)]
pub struct LevelColors {
    pub trace: Option<String>,
    pub debug: Option<String>,
    pub info: Option<String>,
    pub warn: Option<String>,
    pub error: Option<String>,
    pub fatal: Option<String>,
}

/// The color configured for one severity.
pub open spec fn spec_color_of(c: LevelColors, l: Level) -> Option<Seq<char>> {
    match l {
        Level::Trace => opt_model(c.trace),
        Level::Debug => opt_model(c.debug),
        Level::Info => opt_model(c.info),
        Level::Warn => opt_model(c.warn),
        Level::Error => opt_model(c.error),
        Level::Fatal => opt_model(c.fatal),
    }
}

impl LevelColors {
    fn set(&mut self, level: Level, color: String)
        ensures
            spec_color_of(*final(self), level) == Some(color@),
            forall|l2: Level| l2 != level ==> spec_color_of(*final(self), l2) == spec_color_of(
                *old(self),
                l2,
            ),
    {
        match level {
            Level::Trace => self.trace = Some(color),
            Level::Debug => self.debug = Some(color),
            Level::Info => self.info = Some(color),
            Level::Warn => self.warn = Some(color),
            Level::Error => self.error = Some(color),
            Level::Fatal => self.fatal = Some(color),
        }
    }

    fn get(&self, level: Level) -> (r: &Option<String>)
        ensures
            opt_model(*r) == spec_color_of(*self, level),
    {
        match level {
            Level::Trace => &self.trace,
            Level::Debug => &self.debug,
            Level::Info => &self.info,
            Level::Warn => &self.warn,
            Level::Error => &self.error,
            Level::Fatal => &self.fatal,
        }
    }
}

/// Human-friendly single-line layout: `[time] (name) LEVEL: message
/// key=value ...`, with the level wrapped in its configured color escape
/// followed by the reset escape; a severity without a color emits no escape
/// bytes at all.
pub struct PrettyFormatter {
    pub time_format: String,
    pub colors: LevelColors,
    pub reset_color: String,
}

/// The conventional six-color default palette.
pub open spec fn is_default_palette(c: LevelColors) -> bool {
    &&& opt_model(c.trace) == Some("\x1b[90m"@)
    &&& opt_model(c.debug) == Some("\x1b[36m"@)
    &&& opt_model(c.info) == Some("\x1b[32m"@)
    &&& opt_model(c.warn) == Some("\x1b[33m"@)
    &&& opt_model(c.error) == Some("\x1b[31m"@)
    &&& opt_model(c.fatal) == Some("\x1b[35m"@)
}

/// A freshly configured human-readable formatter.
pub open spec fn is_default_pretty(f: PrettyFormatter) -> bool {
    &&& is_default_palette(f.colors)
    &&& f.time_format@ == "%H:%M:%S"@
    &&& f.reset_color@ == "\x1b[0m"@
}

impl Default for PrettyFormatter {
    fn default() -> (r: PrettyFormatter)
        ensures
            is_default_pretty(r),
    {
        PrettyFormatter {
            time_format: String::from_str("%H:%M:%S"),
            colors: LevelColors {
                trace: Some(String::from_str("\x1b[90m")),
                debug: Some(String::from_str("\x1b[36m")),
                info: Some(String::from_str("\x1b[32m")),
                warn: Some(String::from_str("\x1b[33m")),
                error: Some(String::from_str("\x1b[31m")),
                fatal: Some(String::from_str("\x1b[35m")),
            },
            reset_color: String::from_str("\x1b[0m"),
        }
    }
}

/// What the human-readable formatter renders for one record.
pub open spec fn spec_pretty_format(
    f: PrettyFormatter,
    level: Level,
    msg: Seq<char>,
    fields: Seq<(Seq<char>, FieldModel)>,
    ts: Timestamp,
    name: Seq<char>,
) -> Seq<char> {
    seq!['['] + spec_format_time(f.time_format@, ts) + seq![']', ' ', '('] + name + seq![
        ')',
        ' ',
    ] + (match spec_color_of(f.colors, level) {
        Some(c) => c + level.spec_str() + f.reset_color@,
        None => level.spec_str(),
    }) + seq![':', ' '] + msg + (if fields.len() > 0 {
        seq![' '] + spec_fields_text(fields)
    } else {
        Seq::empty()
    })
}

impl PrettyFormatter {
    pub fn new() -> (r: PrettyFormatter)
        ensures
            is_default_pretty(r),
    {
        Self::default()
    }

    pub fn with_time_format(self, format: &str) -> (r: PrettyFormatter)
        ensures
            r.time_format@ == format@,
            r.colors == self.colors,
            r.reset_color@ == self.reset_color@,
    {
        let mut s = self;
        s.time_format = String::from_str(format);
        s
    }

    pub fn with_color(self, level: Level, color: &str) -> (r: PrettyFormatter)
        ensures
            spec_color_of(r.colors, level) == Some(color@),
            forall|l2: Level| l2 != level ==> spec_color_of(r.colors, l2) == spec_color_of(
                self.colors,
                l2,
            ),
            r.time_format@ == self.time_format@,
            r.reset_color@ == self.reset_color@,
    {
        let mut s = self;
        s.colors.set(level, String::from_str(color));
        s
    }

    pub fn with_no_colors(self) -> (r: PrettyFormatter)
        ensures
            forall|l2: Level| spec_color_of(r.colors, l2) == Option::<Seq<char>>::None,
            r.reset_color@ == Seq::<char>::empty(),
            r.time_format@ == self.time_format@,
    {
        let mut s = self;
        s.colors = LevelColors {
            trace: None,
            debug: None,
            info: None,
            warn: None,
            error: None,
            fatal: None,
        };
        s.reset_color = String::new();
        s
    }
}

impl Formatter for PrettyFormatter {
    /// Renders the fixed human-readable layout.
    fn format(
        &self,
        level: Level,
        msg: &str,
        fields: &FieldSet,
        timestamp: &Timestamp,
        name: &str,
    ) -> (r: String)
        ensures
            r@ == spec_pretty_format(*self, level, msg@, fields@, *timestamp, name@),
    {
        let time_str = timestamp.format(self.time_format.as_str());
        let level_str = level.as_str();
        let mut out = String::new();
        push_char(&mut out, '[');
        out.append(time_str.as_str());
        push_char(&mut out, ']');
        push_char(&mut out, ' ');
        push_char(&mut out, '(');
        out.append(name);
        push_char(&mut out, ')');
        push_char(&mut out, ' ');
        match self.colors.get(level) {
            Some(c) => {
                out.append(c.as_str());
                out.append(level_str);
                out.append(self.reset_color.as_str());
            },
            None => {
                out.append(level_str);
            },
        }
        push_char(&mut out, ':');
        push_char(&mut out, ' ');
        out.append(msg);
        if !fields.is_empty() {
            push_char(&mut out, ' ');
            let fields_str = fields.render_pairs();
            out.append(fields_str.as_str());
        }
        proof {
            assert(out@ =~= spec_pretty_format(*self, level, msg@, fields@, *timestamp, name@));
        }
        out
    }
}

impl Clone for ComponentType {
    /// A structurally identical kind: the clone has the same model.
    fn clone(&self) -> (r: ComponentType)
        ensures
            r@ == self@,
    {
        match self {
            ComponentType::Timestamp => ComponentType::Timestamp,
            ComponentType::LoggerName => ComponentType::LoggerName,
            ComponentType::Level => ComponentType::Level,
            ComponentType::Message => ComponentType::Message,
            ComponentType::Fields => ComponentType::Fields,
            ComponentType::CustomText(t) => ComponentType::CustomText(t.clone()),
        }
    }
}

fn clone_opt(o: &Option<String>) -> (r: Option<String>)
    ensures
        opt_model(r) == opt_model(*o),
{
    match o {
        Some(s) => Some(s.clone()),
        None => None,
    }
}

impl Clone for TemplateComponent {
    /// A structurally identical component: the clone has the same model.
    fn clone(&self) -> (r: TemplateComponent)
        ensures
            r@ == self@,
    {
        TemplateComponent {
            component_type: self.component_type.clone(),
            position: self.position,
            color: clone_opt(&self.color),
            prefix: clone_opt(&self.prefix),
            suffix: clone_opt(&self.suffix),
        }
    }
}

/// A highly flexible formatter that renders a record under a caller-assembled
/// template: every component has a kind, a position, and optional color,
/// prefix and suffix; components sharing a position keep insertion order.
pub struct FlexibleFormatter {
    pub time_format: String,
    pub reset_color: String,
    pub components: Vec<TemplateComponent>,
}

/// The six components of the default template: `[time] (name) LEVEL: message
/// fields`.
pub open spec fn spec_default_template() -> Seq<ComponentModel> {
    seq![
        ComponentModel {
            kind: KindModel::Timestamp,
            position: ComponentPosition::Start,
            color: None,
            prefix: Some("["@),
            suffix: Some("]"@),
        },
        ComponentModel {
            kind: KindModel::LoggerName,
            position: ComponentPosition::AfterTime,
            color: None,
            prefix: Some(" ("@),
            suffix: Some(")"@),
        },
        ComponentModel {
            kind: KindModel::Level,
            position: ComponentPosition::AfterName,
            color: None,
            prefix: Some(" "@),
            suffix: None,
        },
        ComponentModel {
            kind: KindModel::CustomText(":"@),
            position: ComponentPosition::AfterLevel,
            color: None,
            prefix: None,
            suffix: None,
        },
        ComponentModel {
            kind: KindModel::Message,
            position: ComponentPosition::AfterLevel,
            color: None,
            prefix: Some(" "@),
            suffix: None,
        },
        ComponentModel {
            kind: KindModel::Fields,
            position: ComponentPosition::End,
            color: None,
            prefix: Some(" "@),
            suffix: None,
        },
    ]
}

/// A freshly configured flexible formatter: the default template, the
/// default time format, and the conventional reset escape.
pub open spec fn is_default_flexible(f: FlexibleFormatter) -> bool {
    &&& components_model(f.components@) == spec_default_template()
    &&& f.time_format@ == "%H:%M:%S"@
    &&& f.reset_color@ == "\x1b[0m"@
}

impl Default for FlexibleFormatter {
    fn default() -> (r: FlexibleFormatter)
        ensures
            is_default_flexible(r),
    {
        let mut components: Vec<TemplateComponent> = Vec::new();
        components.push(
            TemplateComponent {
                component_type: ComponentType::Timestamp,
                position: ComponentPosition::Start,
                color: None,
                prefix: Some(String::from_str("[")),
                suffix: Some(String::from_str("]")),
            },
        );
        components.push(
            TemplateComponent {
                component_type: ComponentType::LoggerName,
                position: ComponentPosition::AfterTime,
                color: None,
                prefix: Some(String::from_str(" (")),
                suffix: Some(String::from_str(")")),
            },
        );
        components.push(
            TemplateComponent {
                component_type: ComponentType::Level,
                position: ComponentPosition::AfterName,
                color: None,
                prefix: Some(String::from_str(" ")),
                suffix: None,
            },
        );
        components.push(
            TemplateComponent {
                component_type: ComponentType::CustomText(String::from_str(":")),
                position: ComponentPosition::AfterLevel,
                color: None,
                prefix: None,
                suffix: None,
            },
        );
        components.push(
            TemplateComponent {
                component_type: ComponentType::Message,
                position: ComponentPosition::AfterLevel,
                color: None,
                prefix: Some(String::from_str(" ")),
                suffix: None,
            },
        );
        components.push(
            TemplateComponent {
                component_type: ComponentType::Fields,
                position: ComponentPosition::End,
                color: None,
                prefix: Some(String::from_str(" ")),
                suffix: None,
            },
        );
        let r = FlexibleFormatter {
            time_format: String::from_str("%H:%M:%S"),
            reset_color: String::from_str("\x1b[0m"),
            components,
        };
        proof {
            assert(components_model(r.components@) =~= spec_default_template());
        }
        r
    }
}

impl FlexibleFormatter {
    pub fn new() -> (r: FlexibleFormatter)
        ensures
            is_default_flexible(r),
    {
        Self::default()
    }

    /// Set the timestamp format
    pub fn with_time_format(self, format: &str) -> (r: FlexibleFormatter)
        ensures
            r.time_format@ == format@,
            r.reset_color@ == self.reset_color@,
            r.components@ == self.components@,
    {
        let mut s = self;
        s.time_format = String::from_str(format);
        s
    }

    /// Clear all components (start with an empty template)
    pub fn clear_components(self) -> (r: FlexibleFormatter)
        ensures
            r.components@ == Seq::<TemplateComponent>::empty(),
            r.time_format@ == self.time_format@,
            r.reset_color@ == self.reset_color@,
    {
        let mut s = self;
        s.components.clear();
        s
    }

    /// Add a component to the template
    pub fn add_component(
        self,
        component_type: ComponentType,
        position: ComponentPosition,
        color: Option<String>,
        prefix: Option<String>,
        suffix: Option<String>,
    ) -> (r: FlexibleFormatter)
        ensures
            components_model(r.components@) == components_model(self.components@).push(
                ComponentModel {
                    kind: component_type@,
                    position: position,
                    color: opt_model(color),
                    prefix: opt_model(prefix),
                    suffix: opt_model(suffix),
                },
            ),
            r.time_format@ == self.time_format@,
            r.reset_color@ == self.reset_color@,
    {
        let mut s = self;
        s.components.push(
            TemplateComponent { component_type, position, color, prefix, suffix },
        );
        proof {
            assert(components_model(s.components@) =~= components_model(self.components@).push(
                s.components@.last()@,
            ));
        }
        s
    }

    /// Add a timestamp component
    pub fn add_timestamp(
        self,
        position: ComponentPosition,
        color: Option<String>,
        prefix: Option<String>,
        suffix: Option<String>,
    ) -> (r: FlexibleFormatter)
        ensures
            components_model(r.components@) == components_model(self.components@).push(
                ComponentModel {
                    kind: KindModel::Timestamp,
                    position: position,
                    color: opt_model(color),
                    prefix: opt_model(prefix),
                    suffix: opt_model(suffix),
                },
            ),
            r.time_format@ == self.time_format@,
            r.reset_color@ == self.reset_color@,
    {
        self.add_component(ComponentType::Timestamp, position, color, prefix, suffix)
    }

    /// Add a logger name component
    pub fn add_logger_name(
        self,
        position: ComponentPosition,
        color: Option<String>,
        prefix: Option<String>,
        suffix: Option<String>,
    ) -> (r: FlexibleFormatter)
        ensures
            components_model(r.components@) == components_model(self.components@).push(
                ComponentModel {
                    kind: KindModel::LoggerName,
                    position: position,
                    color: opt_model(color),
                    prefix: opt_model(prefix),
                    suffix: opt_model(suffix),
                },
            ),
            r.time_format@ == self.time_format@,
            r.reset_color@ == self.reset_color@,
    {
        self.add_component(ComponentType::LoggerName, position, color, prefix, suffix)
    }

    /// Add a level component
    pub fn add_level(
        self,
        position: ComponentPosition,
        color: Option<String>,
        prefix: Option<String>,
        suffix: Option<String>,
    ) -> (r: FlexibleFormatter)
        ensures
            components_model(r.components@) == components_model(self.components@).push(
                ComponentModel {
                    kind: KindModel::Level,
                    position: position,
                    color: opt_model(color),
                    prefix: opt_model(prefix),
                    suffix: opt_model(suffix),
                },
            ),
            r.time_format@ == self.time_format@,
            r.reset_color@ == self.reset_color@,
    {
        self.add_component(ComponentType::Level, position, color, prefix, suffix)
    }

    /// Add a message component
    pub fn add_message(
        self,
        position: ComponentPosition,
        color: Option<String>,
        prefix: Option<String>,
        suffix: Option<String>,
    ) -> (r: FlexibleFormatter)
        ensures
            components_model(r.components@) == components_model(self.components@).push(
                ComponentModel {
                    kind: KindModel::Message,
                    position: position,
                    color: opt_model(color),
                    prefix: opt_model(prefix),
                    suffix: opt_model(suffix),
                },
            ),
            r.time_format@ == self.time_format@,
            r.reset_color@ == self.reset_color@,
    {
        self.add_component(ComponentType::Message, position, color, prefix, suffix)
    }

    /// Add a fields component
    pub fn add_fields(
        self,
        position: ComponentPosition,
        color: Option<String>,
        prefix: Option<String>,
        suffix: Option<String>,
    ) -> (r: FlexibleFormatter)
        ensures
            components_model(r.components@) == components_model(self.components@).push(
                ComponentModel {
                    kind: KindModel::Fields,
                    position: position,
                    color: opt_model(color),
                    prefix: opt_model(prefix),
                    suffix: opt_model(suffix),
                },
            ),
            r.time_format@ == self.time_format@,
            r.reset_color@ == self.reset_color@,
    {
        self.add_component(ComponentType::Fields, position, color, prefix, suffix)
    }

    /// Add custom literal text
    pub fn add_custom_text(self, text: &str, position: ComponentPosition, color: Option<String>)
        -> (r: FlexibleFormatter)
        ensures
            components_model(r.components@) == components_model(self.components@).push(
                ComponentModel {
                    kind: KindModel::CustomText(text@),
                    position: position,
                    color: opt_model(color),
                    prefix: None,
                    suffix: None,
                },
            ),
            r.time_format@ == self.time_format@,
            r.reset_color@ == self.reset_color@,
    {
        self.add_component(
            ComponentType::CustomText(String::from_str(text)),
            position,
            color,
            None,
            None,
        )
    }

    /// Disable all colors: every component's color is removed in place and
    /// the shared reset escape is cleared.
    pub fn with_no_colors(self) -> (r: FlexibleFormatter)
        ensures
            components_model(r.components@) == spec_strip_colors(
                components_model(self.components@),
            ),
            r.reset_color@ == Seq::<char>::empty(),
            r.time_format@ == self.time_format@,
    {
        let mut s = self;
        let mut out: Vec<TemplateComponent> = Vec::new();
        let n = s.components.len();
        let mut i: usize = 0;
        while i < n
            invariant
                n == s.components@.len(),
                i <= n,
                out@.len() == i,
                forall|j: int| 0 <= j < i ==> out@[j]@ == spec_strip_one(s.components@[j]@),
            decreases n - i,
        {
            let comp = &s.components[i];
            out.push(
                TemplateComponent {
                    component_type: comp.component_type.clone(),
                    position: comp.position,
                    color: None,
                    prefix: clone_opt(&comp.prefix),
                    suffix: clone_opt(&comp.suffix),
                },
            );
            i = i + 1;
        }
        proof {
            assert(components_model(out@) =~= spec_strip_colors(
                components_model(s.components@),
            ));
        }
        s.components = out;
        s.reset_color = String::new();
        s
    }
}

/// One component with its color removed.
pub open spec fn spec_strip_one(c: ComponentModel) -> ComponentModel {
    ComponentModel { color: None, ..c }
}

/// Every component's color removed, everything else kept.
pub open spec fn spec_strip_colors(cs: Seq<ComponentModel>) -> Seq<ComponentModel> {
    cs.map_values(|c: ComponentModel| spec_strip_one(c))
}

/// What the flexible formatter renders for one record.
pub open spec fn spec_flexible_format(
    f: FlexibleFormatter,
    level: Level,
    msg: Seq<char>,
    fields: Seq<(Seq<char>, FieldModel)>,
    ts: Timestamp,
    name: Seq<char>,
) -> Seq<char> {
    spec_render_all(
        components_model(f.components@),
        RenderContext {
            time: spec_format_time(f.time_format@, ts),
            name: name,
            level: level.spec_str(),
            msg: msg,
            fields: fields,
            reset: f.reset_color@,
        },
    )
}

impl Formatter for FlexibleFormatter {
    /// Renders the record through the template, position bucket by position
    /// bucket, keeping insertion order inside each bucket.
    #[verifier::loop_isolation(false)]
    #[verifier::rlimit(60)]
    fn format(
        &self,
        level: Level,
        msg: &str,
        fields: &FieldSet,
        timestamp: &Timestamp,
        name: &str,
    ) -> (r: String)
        ensures
            r@ == spec_flexible_format(*self, level, msg@, fields@, *timestamp, name@),
    {
        let time_str = timestamp.format(self.time_format.as_str());
        let level_str = level.as_str();
        let has_fields = !fields.is_empty();
        let fields_str = fields.render_pairs();
        let ghost cm = components_model(self.components@);
        let ghost ctx = RenderContext {
            time: time_str@,
            name: name@,
            level: level.spec_str(),
            msg: msg@,
            fields: fields@,
            reset: self.reset_color@,
        };
        let mut out = String::new();
        let mut p: usize = 0;
        while p < 6
            invariant
                p <= 6,
                out@ == spec_render_upto(cm, ctx, p as int),
            decreases 6 - p,
        {
            let pos = position_at(p);
            let n = self.components.len();
            let mut i: usize = 0;
            proof {
                assert(cm.take(0) =~= Seq::<ComponentModel>::empty());
            }
            while i < n
                invariant
                    i <= n,
                    pos == spec_position_at(p as int),
                    out@ == spec_render_upto(cm, ctx, p as int) + spec_render_bucket(
                        cm.take(i as int),
                        pos,
                        ctx,
                    ),
                decreases n - i,
            {
                let comp = &self.components[i];
                if comp.position == pos {
                    match &comp.component_type {
                        ComponentType::Timestamp => {
                            emit_component(comp, time_str.as_str(), self.reset_color.as_str(), &mut out);
                        },
                        ComponentType::LoggerName => {
                            emit_component(comp, name, self.reset_color.as_str(), &mut out);
                        },
                        ComponentType::Level => {
                            emit_component(comp, level_str, self.reset_color.as_str(), &mut out);
                        },
                        ComponentType::Message => {
                            emit_component(comp, msg, self.reset_color.as_str(), &mut out);
                        },
                        ComponentType::Fields => {
                            if has_fields {
                                emit_component(
                                    comp,
                                    fields_str.as_str(),
                                    self.reset_color.as_str(),
                                    &mut out,
                                );
                            }
                        },
                        ComponentType::CustomText(t) => {
                            emit_component(comp, t.as_str(), self.reset_color.as_str(), &mut out);
                        },
                    }
                }
                proof {
                    assert(cm.take(i as int + 1).drop_last() =~= cm.take(i as int));
                    assert(cm.take(i as int + 1).last() == cm[i as int]);
                    assert(out@ =~= spec_render_upto(cm, ctx, p as int) + spec_render_bucket(
                        cm.take(i as int + 1),
                        pos,
                        ctx,
                    ));
                }
                i = i + 1;
            }
            proof {
                assert(cm.take(n as int) =~= cm);
                assert(out@ =~= spec_render_upto(cm, ctx, p as int + 1));
            }
            p = p + 1;
        }
        out
    }
}

/// Rendering is deterministic: two formatters with the same template, time
/// format and reset escape render any one record to the same line.
pub proof fn lemma_render_deterministic(
    f1: FlexibleFormatter,
    f2: FlexibleFormatter,
    level: Level,
    msg: Seq<char>,
    fields: Seq<(Seq<char>, FieldModel)>,
    ts: Timestamp,
    name: Seq<char>,
)
    requires
        components_model(f1.components@) == components_model(f2.components@),
        f1.time_format@ == f2.time_format@,
        f1.reset_color@ == f2.reset_color@,
    ensures
        spec_flexible_format(f1, level, msg, fields, ts, name) == spec_flexible_format(
            f2,
            level,
            msg,
            fields,
            ts,
            name,
        ),
{
}

/// A component with a configured color and a non-empty shared reset escape
/// emits `prefix + color + content + reset + suffix`; one without a color
/// emits no escape at all, only `prefix + content + suffix`.
pub proof fn lemma_color_reset_pairing(c: ComponentModel, content: Seq<char>, reset: Seq<char>)
    ensures
        c.color matches Some(col) ==> reset.len() > 0 ==> spec_emitted(c, content, reset)
            == spec_opt_text(c.prefix) + col + content + reset + spec_opt_text(c.suffix),
        c.color is None ==> spec_emitted(c, content, reset) == spec_opt_text(c.prefix) + content
            + spec_opt_text(c.suffix),
{
    if c.color is Some && reset.len() > 0 {
        assert(spec_emitted(c, content, reset) =~= spec_opt_text(c.prefix) + c.color->0 + content
            + reset + spec_opt_text(c.suffix));
    }
    if c.color is None {
        assert(spec_emitted(c, content, reset) =~= spec_opt_text(c.prefix) + content
            + spec_opt_text(c.suffix));
    }
}

/// A template holding only a `Fields` component at `End` with a prefix
/// renders to the empty line when the record has no fields, and to the prefix
/// followed by the fields text when it has some: the prefix never stands
/// alone.
pub proof fn lemma_fields_absent_skip(c: ComponentModel, ctx: RenderContext)
    requires
        c.kind is Fields,
        c.position == ComponentPosition::End,
        c.color is None,
    ensures
        ctx.fields.len() == 0 ==> spec_render_all(seq![c], ctx) == Seq::<char>::empty(),
        ctx.fields.len() > 0 ==> spec_render_all(seq![c], ctx) == spec_opt_text(c.prefix)
            + spec_fields_text(ctx.fields) + spec_opt_text(c.suffix),
{
    let cs = seq![c];
    lemma_render_all_buckets(cs, ctx);
    assert(cs.drop_last() =~= Seq::<ComponentModel>::empty());
    assert forall|pos: ComponentPosition| #[trigger] spec_render_bucket(cs, pos, ctx)
        == spec_render_bucket(Seq::<ComponentModel>::empty(), pos, ctx) + (if pos
        == ComponentPosition::End {
        spec_render_component(c, ctx)
    } else {
        Seq::<char>::empty()
    }) by {
    }
    assert forall|pos: ComponentPosition| pos != ComponentPosition::End implies #[trigger]
        spec_render_bucket(cs, pos, ctx) =~= Seq::<char>::empty() by {
        assert(spec_render_bucket(Seq::<ComponentModel>::empty(), pos, ctx) =~= Seq::<
            char,
        >::empty());
    }
    assert(spec_render_bucket(Seq::<ComponentModel>::empty(), ComponentPosition::End, ctx) =~= Seq::<
        char,
    >::empty());
    assert(spec_render_bucket(cs, ComponentPosition::End, ctx) =~= spec_render_component(c, ctx));
    if ctx.fields.len() == 0 {
        assert(spec_render_component(c, ctx) =~= Seq::<char>::empty());
        assert(spec_render_all(cs, ctx) =~= Seq::<char>::empty());
    } else {
        assert(spec_render_component(c, ctx) =~= spec_opt_text(c.prefix) + spec_fields_text(
            ctx.fields,
        ) + spec_opt_text(c.suffix));
        assert(spec_render_all(cs, ctx) =~= spec_opt_text(c.prefix) + spec_fields_text(ctx.fields)
            + spec_opt_text(c.suffix));
    }
}

/// The rendered line is the six position buckets in order.
pub proof fn lemma_render_all_buckets(cs: Seq<ComponentModel>, ctx: RenderContext)
    ensures
        spec_render_all(cs, ctx) == spec_render_bucket(cs, ComponentPosition::Start, ctx)
            + spec_render_bucket(cs, ComponentPosition::AfterTime, ctx) + spec_render_bucket(
            cs,
            ComponentPosition::AfterName,
            ctx,
        ) + spec_render_bucket(cs, ComponentPosition::AfterLevel, ctx) + spec_render_bucket(
            cs,
            ComponentPosition::AfterMessage,
            ctx,
        ) + spec_render_bucket(cs, ComponentPosition::End, ctx),
{
    reveal_with_fuel(spec_render_upto, 8);
    assert(spec_render_all(cs, ctx) =~= spec_render_bucket(cs, ComponentPosition::Start, ctx)
        + spec_render_bucket(cs, ComponentPosition::AfterTime, ctx) + spec_render_bucket(
        cs,
        ComponentPosition::AfterName,
        ctx,
    ) + spec_render_bucket(cs, ComponentPosition::AfterLevel, ctx) + spec_render_bucket(
        cs,
        ComponentPosition::AfterMessage,
        ctx,
    ) + spec_render_bucket(cs, ComponentPosition::End, ctx));
}

/// Two components placed at the same `Start` position render in the order
/// they were added, whatever their kinds.
pub proof fn lemma_same_position_order(a: ComponentModel, b: ComponentModel, ctx: RenderContext)
    requires
        a.position == ComponentPosition::Start,
        b.position == ComponentPosition::Start,
    ensures
        spec_render_all(seq![a, b], ctx) == spec_render_component(a, ctx) + spec_render_component(
            b,
            ctx,
        ),
{
    let cs = seq![a, b];
    lemma_render_all_buckets(cs, ctx);
    assert(cs.drop_last() =~= seq![a]);
    assert(seq![a].drop_last() =~= Seq::<ComponentModel>::empty());
    assert forall|pos: ComponentPosition| #[trigger] spec_render_bucket(cs, pos, ctx) == (
    spec_render_bucket(seq![a], pos, ctx) + (if pos == ComponentPosition::Start {
        spec_render_component(b, ctx)
    } else {
        Seq::<char>::empty()
    })) by {
        assert(cs.last() == b);
    }
    assert forall|pos: ComponentPosition| #[trigger] spec_render_bucket(seq![a], pos, ctx) == (
    spec_render_bucket(Seq::<ComponentModel>::empty(), pos, ctx) + (if pos
        == ComponentPosition::Start {
        spec_render_component(a, ctx)
    } else {
        Seq::<char>::empty()
    })) by {
        assert(seq![a].last() == a);
    }
    assert forall|pos: ComponentPosition| #[trigger] spec_render_bucket(
        Seq::<ComponentModel>::empty(),
        pos,
        ctx,
    ) == Seq::<char>::empty() by {
    }
    assert forall|pos: ComponentPosition| pos != ComponentPosition::Start implies #[trigger]
        spec_render_bucket(cs, pos, ctx) =~= Seq::<char>::empty() by {
    }
    assert(spec_render_bucket(cs, ComponentPosition::Start, ctx) =~= spec_render_component(a, ctx)
        + spec_render_component(b, ctx));
    assert(spec_render_all(cs, ctx) =~= spec_render_component(a, ctx) + spec_render_component(
        b,
        ctx,
    ));
}

/// After stripping every component's color, the shared reset escape has no
/// bearing on the rendered line: clearing it together with the colors renders
/// byte-identically to a template whose colors were absent from the start,
/// whatever reset escape that template still carries.
pub proof fn lemma_strip_colors_render(cs: Seq<ComponentModel>, ctx1: RenderContext, ctx2:
    RenderContext)
    requires
        ctx1.time == ctx2.time,
        ctx1.name == ctx2.name,
        ctx1.level == ctx2.level,
        ctx1.msg == ctx2.msg,
        ctx1.fields == ctx2.fields,
    ensures
        spec_render_all(spec_strip_colors(cs), ctx1) == spec_render_all(
            spec_strip_colors(cs),
            ctx2,
        ),
{
    let stripped = spec_strip_colors(cs);
    assert forall|k: int| 0 <= k <= 6 implies spec_render_upto(stripped, ctx1, k)
        == spec_render_upto(stripped, ctx2, k) by {
        lemma_strip_upto(cs, ctx1, ctx2, k);
    }
}

proof fn lemma_strip_upto(cs: Seq<ComponentModel>, ctx1: RenderContext, ctx2: RenderContext, k:
    int)
    requires
        ctx1.time == ctx2.time,
        ctx1.name == ctx2.name,
        ctx1.level == ctx2.level,
        ctx1.msg == ctx2.msg,
        ctx1.fields == ctx2.fields,
        0 <= k,
    ensures
        spec_render_upto(spec_strip_colors(cs), ctx1, k) == spec_render_upto(
            spec_strip_colors(cs),
            ctx2,
            k,
        ),
    decreases k,
{
    if k > 0 {
        lemma_strip_upto(cs, ctx1, ctx2, k - 1);
        lemma_strip_bucket(spec_strip_colors(cs), spec_position_at(k - 1), ctx1, ctx2);
    }
}

proof fn lemma_strip_bucket(
    stripped: Seq<ComponentModel>,
    pos: ComponentPosition,
    ctx1: RenderContext,
    ctx2: RenderContext,
)
    requires
        ctx1.time == ctx2.time,
        ctx1.name == ctx2.name,
        ctx1.level == ctx2.level,
        ctx1.msg == ctx2.msg,
        ctx1.fields == ctx2.fields,
        forall|i: int| 0 <= i < stripped.len() ==> stripped[i].color is None,
    ensures
        spec_render_bucket(stripped, pos, ctx1) == spec_render_bucket(stripped, pos, ctx2),
    decreases stripped.len(),
{
    if stripped.len() > 0 {
        lemma_strip_bucket(stripped.drop_last(), pos, ctx1, ctx2);
        let c = stripped.last();
        assert(spec_content(c.kind, ctx1) == spec_content(c.kind, ctx2));
        if spec_content(c.kind, ctx1) is Some {
            let content = spec_content(c.kind, ctx1)->0;
            assert(spec_emitted(c, content, ctx1.reset) =~= spec_emitted(c, content, ctx2.reset));
        }
    }
}

} // verus!
