//! Internal diagnostic events on their way to the editor's log: which of
//! them pass, under which kind, and with what text. Events are flat: a
//! severity, a target and a message. Spans are numbered and otherwise
//! ignored.

use crate::text::text_eq;
use vstd::prelude::*;
use vstd::string::*;

verus! {

/// How grave an event is, from the gravest to the most verbose.
#[derive(Clone, Copy, Debug, PartialEq, Eq, Structural)]
pub enum Severity {
    Error,
    Warn,
    Info,
    Debug,
    Trace,
}

/// The kinds of message that the editor's log knows.
#[derive(Clone, Copy, Debug, PartialEq, Eq, Structural)]
pub enum MessageKind {
    Error,
    Warning,
    Info,
    Log,
}

/// An event as it is emitted.
#[derive(Clone, Debug, PartialEq, Eq)]
pub struct DiagnosticEvent {
    pub severity: Severity,
    pub source_target: String,
    pub rendered_message: String,
}

/// A message for the editor's log.
#[derive(Clone, Debug, PartialEq, Eq)]
pub struct LogMessage {
    pub kind: MessageKind,
    pub text: String,
}

/// The mathematical content of a [`LogMessage`].
pub struct LogMessageView {
    pub kind: MessageKind,
    pub text: Seq<char>,
}

impl View for LogMessage {
    type V = LogMessageView;

    open spec fn view(&self) -> LogMessageView {
        LogMessageView { kind: self.kind, text: self.text@ }
    }
}

impl Severity {
    /// The place of the severity in the order of levels, the gravest first.
    pub open spec fn rank(self) -> int {
        match self {
            Severity::Error => 0,
            Severity::Warn => 1,
            Severity::Info => 2,
            Severity::Debug => 3,
            Severity::Trace => 4,
        }
    }

    /// The severity's name, as levels are written.
    pub open spec fn name(self) -> Seq<char> {
        match self {
            Severity::Error => "ERROR"@,
            Severity::Warn => "WARN"@,
            Severity::Info => "INFO"@,
            Severity::Debug => "DEBUG"@,
            Severity::Trace => "TRACE"@,
        }
    }

    /// Whether events of this severity are relayed: those that come before
    /// the most verbose level.
    pub open spec fn passes(self) -> bool {
        self.rank() < Severity::Trace.rank()
    }

    /// The kind under which the editor logs an event of this severity.
    pub open spec fn kind(self) -> MessageKind {
        match self {
            Severity::Error => MessageKind::Error,
            Severity::Warn => MessageKind::Warning,
            Severity::Info => MessageKind::Info,
            _ => MessageKind::Log,
        }
    }

    /// The severity's name, flush right in five columns.
    pub open spec fn column(self) -> Seq<char> {
        flush_right(self.name(), 5)
    }

    /// The kind under which the editor logs an event of this severity.
    pub fn message_kind(self) -> (r: MessageKind)
        ensures
            r == self.kind(),
    {
        match self {
            Severity::Error => MessageKind::Error,
            Severity::Warn => MessageKind::Warning,
            Severity::Info => MessageKind::Info,
            _ => MessageKind::Log,
        }
    }
}

/// `s` after as many blanks as it takes to fill `width` columns; `s` itself
/// where it fills them already.
pub open spec fn flush_right(s: Seq<char>, width: nat) -> Seq<char> {
    if s.len() >= width {
        s
    } else {
        Seq::new((width - s.len()) as nat, |i: int| ' ') + s
    }
}

/// The line that is logged for an event.
pub open spec fn log_text(severity: Severity, target: Seq<char>, message: Seq<char>) -> Seq<char> {
    severity.column() + " "@ + target + ": "@ + message
}

/// The message that is logged for an event.
pub open spec fn log_message(
    severity: Severity,
    target: Seq<char>,
    message: Seq<char>,
) -> LogMessageView {
    LogMessageView { kind: severity.kind(), text: log_text(severity, target, message) }
}

/// What becomes of an event: nothing where its severity does not pass, else
/// its message.
pub open spec fn relayed(
    severity: Severity,
    target: Seq<char>,
    message: Seq<char>,
) -> Option<LogMessageView> {
    if severity.passes() {
        Some(log_message(severity, target, message))
    } else {
        None
    }
}

/// `message` with one more field recorded: a blank after what stands there
/// already, the field's name and `=` unless the field is the message
/// itself, then the value.
pub open spec fn with_field(message: Seq<char>, name: Seq<char>, value: Seq<char>) -> Seq<char> {
    let spaced = if message.len() == 0 {
        message
    } else {
        message + " "@
    };
    let named = if name == "message"@ {
        spaced
    } else {
        spaced + name + "="@
    };
    named + value
}

/// Compares two levels by the `<` of `tracing::Level`. Trusted: that the
/// crate orders its levels from `ERROR`, the least, over `WARN`, `INFO` and
/// `DEBUG` to `TRACE`, the greatest.
#[verifier::external_body]
fn level_less(a: Severity, b: Severity) -> (r: bool)
    ensures
        r == (a.rank() < b.rank()),
{
    let level = |severity: Severity| match severity {
        Severity::Error => tracing::Level::ERROR,
        Severity::Warn => tracing::Level::WARN,
        Severity::Info => tracing::Level::INFO,
        Severity::Debug => tracing::Level::DEBUG,
        Severity::Trace => tracing::Level::TRACE,
    };
    level(a) < level(b)
}

/// Formats a level by the `Display` of `tracing::Level`, flush right in
/// `width` columns. Trusted: that the crate writes a level as its name in
/// capitals and pads it as the formatter asks, here with blanks on the left
/// up to `width` characters. A formatter holds its width in sixteen bits, so
/// no wider column is asked for.
#[verifier::external_body]
fn level_flush_right(severity: Severity, width: usize) -> (r: String)
    requires
        width <= 0xFFFF,
    ensures
        r@ == flush_right(severity.name(), width as nat),
{
    let level = match severity {
        Severity::Error => tracing::Level::ERROR,
        Severity::Warn => tracing::Level::WARN,
        Severity::Info => tracing::Level::INFO,
        Severity::Debug => tracing::Level::DEBUG,
        Severity::Trace => tracing::Level::TRACE,
    };
    format!("{level:>width$}")
}

/// Gathers the fields of one event into its message.
pub struct LspVisitor {
    text: String,
}

impl View for LspVisitor {
    type V = Seq<char>;

    closed spec fn view(&self) -> Seq<char> {
        self.text@
    }
}

impl LspVisitor {
    /// A visitor that has seen no field.
    pub fn new() -> (r: LspVisitor)
        ensures
            r@ == Seq::<char>::empty(),
    {
        LspVisitor { text: String::new() }
    }

    /// Records the field `field` with its value as rendered for debugging.
    pub fn record_debug(&mut self, field: &str, value: &str)
        ensures
            final(self)@ == with_field(old(self)@, field@, value@),
    {
        if !self.text.as_str().is_empty() {
            self.text.append(" ");
        }
        if !text_eq(field, "message") {
            self.text.append(field);
            self.text.append("=");
        }
        self.text.append(value);
    }

    /// The message gathered so far.
    pub fn to_string(&self) -> (r: String)
        ensures
            r@ == self@,
    {
        self.text.clone()
    }
}

/// Decides what is relayed and numbers the spans.
pub struct LspSubscriber {
    assigned_ids: u64,
}

impl LspSubscriber {
    /// How many span identifiers were assigned so far.
    pub closed spec fn assigned(&self) -> nat {
        self.assigned_ids as nat
    }

    /// A subscriber that has assigned no identifier yet.
    pub fn new() -> (r: LspSubscriber)
        ensures
            r.assigned() == 0,
    {
        LspSubscriber { assigned_ids: 0 }
    }

    /// How many span identifiers were assigned so far.
    pub fn assigned_ids(&self) -> (r: u64)
        ensures
            r == self.assigned(),
    {
        self.assigned_ids
    }

    /// Whether events of `severity` are relayed at all.
    pub fn enabled(severity: Severity) -> (r: bool)
        ensures
            r == severity.passes(),
    {
        level_less(severity, Severity::Trace)
    }

    /// Assigns the next span identifier: identifiers count up from one,
    /// one by one, so that none is zero and none comes twice.
    pub fn new_span(&mut self) -> (id: u64)
        requires
            old(self).assigned() < u64::MAX,
        ensures
            id == old(self).assigned() + 1,
            final(self).assigned() == old(self).assigned() + 1,
    {
        let id: u64 = self.assigned_ids + 1;
        self.assigned_ids = id;
        id
    }

    /// The message for an event of `severity` from `target` whose fields
    /// `visitor` has gathered.
    pub fn event(severity: Severity, target: &str, visitor: &LspVisitor) -> (r: LogMessage)
        ensures
            r@ == log_message(severity, target@, visitor@),
    {
        LogMessage::compose(severity, target, visitor.text.as_str())
    }

    /// Filters and maps one event: an event of the most verbose severity
    /// is dropped, every other is turned into its message.
    pub fn relay(event: &DiagnosticEvent) -> (r: Option<LogMessage>)
        ensures
            message_view(r) == relayed(
                event.severity,
                event.source_target@,
                event.rendered_message@,
            ),
    {
        if LspSubscriber::enabled(event.severity) {
            Some(
                LogMessage::compose(
                    event.severity,
                    event.source_target.as_str(),
                    event.rendered_message.as_str(),
                ),
            )
        } else {
            None
        }
    }
}

impl LogMessage {
    /// The message for an event of `severity` from `target` that says
    /// `message`.
    pub fn compose(severity: Severity, target: &str, message: &str) -> (r: LogMessage)
        ensures
            r@ == log_message(severity, target@, message@),
    {
        let text = level_flush_right(severity, 5).concat(" ").concat(target).concat(": ").concat(
            message,
        );
        LogMessage { kind: severity.message_kind(), text }
    }
}

/// Of all events only the most verbose are dropped; every other reaches
/// the log under the kind of its severity: errors as errors, warnings as
/// warnings, information as information, and the rest as plain log lines.
pub proof fn lemma_relay_filters_and_maps(
    severity: Severity,
    target: Seq<char>,
    message: Seq<char>,
)
    ensures
        severity.passes() <==> severity != Severity::Trace,
        relayed(severity, target, message) is None <==> severity == Severity::Trace,
        relayed(severity, target, message) matches Some(m) ==> {
            &&& m.text == log_text(severity, target, message)
            &&& severity == Severity::Error ==> m.kind == MessageKind::Error
            &&& severity == Severity::Warn ==> m.kind == MessageKind::Warning
            &&& severity == Severity::Info ==> m.kind == MessageKind::Info
            &&& severity == Severity::Debug ==> m.kind == MessageKind::Log
        },
{
}

/// The five columns of each severity, written out.
pub proof fn lemma_columns()
    ensures
        Severity::Error.column() == "ERROR"@,
        Severity::Warn.column() == " WARN"@,
        Severity::Info.column() == " INFO"@,
        Severity::Debug.column() == "DEBUG"@,
        Severity::Trace.column() == "TRACE"@,
{
    reveal_strlit("ERROR");
    reveal_strlit("WARN");
    reveal_strlit(" WARN");
    reveal_strlit("INFO");
    reveal_strlit(" INFO");
    reveal_strlit("DEBUG");
    reveal_strlit("TRACE");
}

/// The content of a message that may be absent.
pub open spec fn message_view(message: Option<LogMessage>) -> Option<LogMessageView> {
    match message {
        Some(m) => Some(m@),
        None => None,
    }
}

} // verus!
