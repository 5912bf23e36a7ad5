//! Spans that user code opens, and the trace context that travels with them.

use vstd::prelude::*;

use crate::hex_text::{hex_is_digits, hex_lower};
use crate::text::{copy_pairs, pair_views};

verus! {

/// The kind of a span.
#[derive(Clone, Copy, PartialEq, Eq, Structural, Debug)]
pub enum SpanKind {
    /// Work inside a service.
    Internal,
    /// A request that is served.
    Server,
    /// A request that is made.
    Client,
    /// A message that is produced.
    Producer,
    /// A message that is consumed.
    Consumer,
}

/// The kind of span that a number means.
pub open spec fn kind_of(kind: u8) -> SpanKind {
    match kind {
        2u8 => SpanKind::Server,
        3u8 => SpanKind::Client,
        4u8 => SpanKind::Producer,
        5u8 => SpanKind::Consumer,
        _ => SpanKind::Internal,
    }
}

/// The kind for a number: two to five are server, client, producer and consumer.
pub fn map_span_kind(kind: u8) -> (out: SpanKind)
    ensures
        out == kind_of(kind),
{
    match kind {
        2 => SpanKind::Server,
        3 => SpanKind::Client,
        4 => SpanKind::Producer,
        5 => SpanKind::Consumer,
        _ => SpanKind::Internal,
    }
}

/// The status of a span.
#[derive(Clone, Copy, PartialEq, Eq, Structural, Debug)]
pub enum StatusCode {
    /// It went well.
    Success,
    /// It recorded an error.
    Error,
}

/// The status set on a span; a description belongs to errors only.
pub fn span_status(code: StatusCode, description: &str) -> (out: Option<String>)
    ensures
        match code {
            StatusCode::Error => out matches Some(d) && d@ == description@,
            StatusCode::Success => out is None,
        },
{
    match code {
        StatusCode::Error => Some(description.to_owned()),
        StatusCode::Success => None,
    }
}

/// The attributes of an exception event; an empty stack trace is left out.
pub open spec fn exception_attrs(
    class_name: Seq<char>,
    message: Seq<char>,
    stacktrace: Seq<char>,
) -> Seq<(Seq<char>, Seq<char>)> {
    let base = seq![("exception.type"@, class_name), ("exception.message"@, message)];
    if stacktrace.len() == 0 {
        base
    } else {
        base.push(("exception.stacktrace"@, stacktrace))
    }
}

/// Builds the attributes of an exception event.
pub fn record_exception(message: &str, class_name: &str, stacktrace: &str) -> (out: Vec<
    (String, String),
>)
    ensures
        pair_views(out@) == exception_attrs(class_name@, message@, stacktrace@),
{
    let mut attrs: Vec<(String, String)> = Vec::new();
    attrs.push((String::from_str("exception.type"), class_name.to_owned()));
    attrs.push((String::from_str("exception.message"), message.to_owned()));
    if !stacktrace.is_empty() {
        attrs.push((String::from_str("exception.stacktrace"), stacktrace.to_owned()));
    }
    assert(pair_views(attrs@) =~= exception_attrs(class_name@, message@, stacktrace@));
    attrs
}

/// Builds the attributes of a Python exception from what could be read of it: the type is
/// `Exception` when its name is unknown, and what is unknown otherwise is empty.
pub fn record_python_exception(
    class_name: Option<String>,
    message: Option<String>,
    stacktrace: Option<String>,
) -> (out: Vec<(String, String)>)
    ensures
        pair_views(out@) == exception_attrs(
            text_or(class_name, "Exception"@),
            text_or(message, Seq::empty()),
            text_or(stacktrace, Seq::empty()),
        ),
{
    let t = match class_name {
        Some(t) => t,
        None => String::from_str("Exception"),
    };
    let m = match message {
        Some(m) => m,
        None => String::new(),
    };
    let s = match stacktrace {
        Some(s) => s,
        None => String::new(),
    };
    record_exception(&m, &t, &s)
}

/// A trace context in the form in which Python keeps it.
#[derive(Debug)]
pub struct SerializedContext {
    /// Trace id in hexadecimal.
    pub trace_id_hex: String,
    /// Span id in hexadecimal.
    pub span_id_hex: String,
    /// Trace flags.
    pub flags: u8,
    /// Trace state as header text.
    pub trace_state: String,
}

/// `hex::encode`: two lower-case digits for each byte, high nibble first.
#[verifier::external_body]
fn hex_encode(bytes: &[u8]) -> (out: String)
    ensures
        out@ == hex_lower(bytes@),
{
    hex::encode(bytes)
}

/// Writes a span context in the form in which Python keeps it.
pub fn write_context_var(
    trace_id: &[u8; 16],
    span_id: &[u8; 8],
    flags: u8,
    trace_state: &str,
) -> (out: SerializedContext)
    ensures
        out.trace_id_hex@ == hex_lower(trace_id@),
        out.trace_id_hex@.len() == 32,
        out.span_id_hex@ == hex_lower(span_id@),
        out.span_id_hex@.len() == 16,
        out.flags == flags,
        out.trace_state@ == trace_state@,
{
    proof {
        hex_is_digits(trace_id@);
        hex_is_digits(span_id@);
    }
    SerializedContext {
        trace_id_hex: hex_encode(trace_id.as_slice()),
        span_id_hex: hex_encode(span_id.as_slice()),
        flags,
        trace_state: trace_state.to_owned(),
    }
}

/// The context to go back to when a span ends: the one that was saved, or an empty one.
pub fn restore_context_var(saved: Option<SerializedContext>) -> (out: SerializedContext)
    ensures
        out.data() == (match saved {
            Some(c) => c.data(),
            None => no_context(),
        }),
{
    match saved {
        Some(c) => c,
        None => SerializedContext {
            trace_id_hex: String::from_str("00000000000000000000000000000000"),
            span_id_hex: String::from_str("0000000000000000"),
            flags: 0,
            trace_state: String::new(),
        },
    }
}

/// A trace context as a mathematical value.
pub struct ContextData {
    /// Trace id in hex.
    pub trace_id_hex: Seq<char>,
    /// Span id in hex.
    pub span_id_hex: Seq<char>,
    /// Trace flags.
    pub flags: u8,
    /// The trace state header.
    pub trace_state: Seq<char>,
}

impl SerializedContext {
    /// The mathematical value.
    pub open spec fn data(&self) -> ContextData {
        ContextData {
            trace_id_hex: self.trace_id_hex@,
            span_id_hex: self.span_id_hex@,
            flags: self.flags,
            trace_state: self.trace_state@,
        }
    }
}

/// The mathematical value of an optional context.
pub open spec fn opt_context(c: Option<SerializedContext>) -> Option<ContextData> {
    match c {
        Some(x) => Some(x.data()),
        None => None,
    }
}

/// The context that is written when there is none to go back to.
pub open spec fn no_context() -> ContextData {
    ContextData {
        trace_id_hex: "00000000000000000000000000000000"@,
        span_id_hex: "0000000000000000"@,
        flags: 0,
        trace_state: Seq::empty(),
    }
}

/// An exception that left a block, as far as it could be asked for.
pub struct Raised {
    /// The qualified name of its class.
    pub class_name: Option<String>,
    /// Its text.
    pub message: Option<String>,
    /// Its traceback.
    pub stacktrace: Option<String>,
}

/// A text, or the given one in its place.
pub open spec fn text_or(t: Option<String>, other: Seq<char>) -> Seq<char> {
    match t {
        Some(x) => x@,
        None => other,
    }
}

/// The attributes of the event for an exception that left a block.
pub open spec fn raised_attrs(r: Raised) -> Seq<(Seq<char>, Seq<char>)> {
    exception_attrs(
        text_or(r.class_name, "Exception"@),
        text_or(r.message, Seq::empty()),
        text_or(r.stacktrace, Seq::empty()),
    )
}

/// What is started when a block is entered.
pub struct SpanStart {
    /// Name.
    pub name: String,
    /// Kind.
    pub kind: SpanKind,
    /// Attributes that are set at once.
    pub attributes: Vec<(String, String)>,
}

/// What is done when a block is left, in this order.
pub struct SpanEnd {
    /// The event `exception` with these attributes is added, and the span is marked as failed with
    /// this text.
    pub failure: Option<(Vec<(String, String)>, String)>,
    /// The span is ended.
    pub ends: bool,
    /// This context is written.
    pub context: SerializedContext,
}

/// A span of user code: open from entering its block to leaving it.
pub struct SpanHandle {
    /// Name.
    pub name: String,
    /// Attributes.
    pub attributes: Vec<(String, String)>,
    /// The number of the kind.
    pub kind: u8,
    /// The block was entered and not left yet.
    pub active: bool,
    /// The context before the block.
    pub saved_parent: Option<SerializedContext>,
}

/// What changes in a handle.
pub struct HandleData {
    /// The block was entered and not left yet.
    pub active: bool,
    /// The context before the block.
    pub saved_parent: Option<ContextData>,
}

/// A handle after its block was entered in a context.
pub open spec fn entered(current: Option<ContextData>) -> HandleData {
    HandleData { active: true, saved_parent: current }
}

/// A handle after its block was left, and the context that is written.
pub open spec fn left(h: HandleData) -> (HandleData, ContextData) {
    (
        HandleData { active: false, saved_parent: None },
        match h.saved_parent {
            Some(c) => c,
            None => no_context(),
        },
    )
}

impl SpanHandle {
    /// The mathematical value of what changes.
    pub open spec fn data(&self) -> HandleData {
        HandleData { active: self.active, saved_parent: opt_context(self.saved_parent) }
    }

    /// What was given when the handle was made stays as it is.
    pub open spec fn same_span(&self, other: SpanHandle) -> bool {
        self.name == other.name && self.attributes == other.attributes && self.kind == other.kind
    }

    /// A handle for a block that was not entered yet.
    pub fn new(name: String, attributes: Option<Vec<(String, String)>>, kind: u8) -> (out:
        SpanHandle)
        ensures
            out.name == name,
            out.attributes@ == (match attributes {
                Some(a) => a@,
                None => Seq::<(String, String)>::empty(),
            }),
            out.kind == kind,
            out.data() == (HandleData { active: false, saved_parent: None }),
    {
        let attributes = match attributes {
            Some(a) => a,
            None => Vec::new(),
        };
        SpanHandle { name, attributes, kind, active: false, saved_parent: None }
    }

    /// Enters the block: a span is started in the current context, which is kept.
    pub fn enter(&mut self, current: Option<SerializedContext>) -> (out: SpanStart)
        ensures
            final(self).data() == entered(opt_context(current)),
            final(self).same_span(*old(self)),
            out.name@ == old(self).name@,
            out.kind == kind_of(old(self).kind),
            pair_views(out.attributes@) == pair_views(old(self).attributes@),
    {
        self.saved_parent = current;
        self.active = true;
        SpanStart {
            name: self.name.clone(),
            kind: map_span_kind(self.kind),
            attributes: copy_pairs(&self.attributes),
        }
    }

    /// Leaves the block: an exception is recorded and marks the span as failed, the span ends, and
    /// the context before the block is written again.
    pub fn exit(&mut self, raised: Option<Raised>) -> (out: SpanEnd)
        ensures
            (final(self).data(), out.context.data()) == left(old(self).data()),
            final(self).same_span(*old(self)),
            out.ends == old(self).active,
            match raised {
                Some(r) => if old(self).active {
                    &&& out.failure matches Some((attrs, text))
                    &&& pair_views(attrs@) == raised_attrs(r)
                    &&& text@ == text_or(r.message, Seq::empty())
                } else {
                    out.failure is None
                },
                None => out.failure is None,
            },
    {
        let failure = match raised {
            Some(r) => if self.active {
                let text = match &r.message {
                    Some(m) => m.clone(),
                    None => String::new(),
                };
                Some((record_python_exception(r.class_name, r.message, r.stacktrace), text))
            } else {
                None
            },
            None => None,
        };
        let ends = self.active;
        self.active = false;
        let context = restore_context_var(self.saved_parent.take());
        SpanEnd { failure, ends, context }
    }

    /// Adds an event: its name and attributes, or nothing outside the block.
    pub fn add_event(&self, name: String, attributes: Option<Vec<(String, String)>>) -> (out:
        Option<(String, Vec<(String, String)>)>)
        ensures
            out is Some == self.active,
            out matches Some((n, a)) ==> n == name && a@ == (match attributes {
                Some(x) => x@,
                None => Seq::<(String, String)>::empty(),
            }),
    {
        if !self.active {
            return None;
        }
        let attributes = match attributes {
            Some(a) => a,
            None => Vec::new(),
        };
        Some((name, attributes))
    }

    /// Sets an attribute, or nothing outside the block.
    pub fn set_attribute(&self, key: String, value: String) -> (out: Option<(String, String)>)
        ensures
            out == (if self.active {
                Some((key, value))
            } else {
                None
            }),
    {
        if self.active {
            Some((key, value))
        } else {
            None
        }
    }

    /// Sets the status, or nothing outside the block: the inner value is the text of a failure.
    pub fn set_status(&self, code: StatusCode, description: &str) -> (out: Option<Option<String>>)
        ensures
            out is Some == self.active,
            out matches Some(s) ==> match code {
                StatusCode::Error => s matches Some(d) && d@ == description@,
                StatusCode::Success => s is None,
            },
    {
        if self.active {
            Some(span_status(code, description))
        } else {
            None
        }
    }

    /// Records an exception: the attributes of its event, or nothing outside the block.
    pub fn record_exception(&self, message: &str, class_name: &str, stacktrace: &str) -> (out:
        Option<Vec<(String, String)>>)
        ensures
            out is Some == self.active,
            out matches Some(a) ==> pair_views(a@) == exception_attrs(
                class_name@,
                message@,
                stacktrace@,
            ),
    {
        if self.active {
            Some(record_exception(message, class_name, stacktrace))
        } else {
            None
        }
    }
}

/// Leaving a block writes the context that was there when it was entered, whatever was done
/// between; leaving it once more ends nothing and writes the empty context.
pub proof fn leaving_restores_the_context(before: ContextData)
    ensures
        left(entered(Some(before))).1 == before,
        !left(entered(Some(before))).0.active,
        left(left(entered(Some(before))).0).1 == no_context(),
{
}

/// The context after blocks were entered one in the other, each with its own context, and left
/// again from the innermost outwards.
pub open spec fn after_nested(before: ContextData, inner: Seq<ContextData>) -> ContextData
    decreases inner.len(),
{
    if inner.len() == 0 {
        before
    } else {
        let within = after_nested(inner[0], inner.skip(1));
        if within == inner[0] {
            left(entered(Some(before))).1
        } else {
            no_context()
        }
    }
}

/// Blocks in blocks, however deep, leave the context as it was: at every depth the context is that
/// of the block again once its inner blocks are left.
pub proof fn nesting_restores_the_context(before: ContextData, inner: Seq<ContextData>)
    ensures
        after_nested(before, inner) == before,
    decreases inner.len(),
{
    if inner.len() > 0 {
        nesting_restores_the_context(inner[0], inner.skip(1));
    }
}

/// Different trace ids are written differently.
pub proof fn trace_ids_stay_distinct(a: Seq<u8>, b: Seq<u8>)
    requires
        a != b,
    ensures
        hex_lower(a) != hex_lower(b),
{
    if hex_lower(a) == hex_lower(b) {
        crate::hex_text::hex_is_injective(a, b);
    }
}

/// The kinds of spans are numbered from two on; any other number is an internal span.
pub proof fn kinds_are_numbered(kind: u8)
    ensures
        kind_of(kind) == SpanKind::Server <==> kind == 2,
        kind_of(kind) == SpanKind::Client <==> kind == 3,
        kind_of(kind) == SpanKind::Producer <==> kind == 4,
        kind_of(kind) == SpanKind::Consumer <==> kind == 5,
        kind_of(kind) == SpanKind::Internal <==> kind < 2 || kind > 5,
{
}

/// An exception is recorded with its class, its message and, if there is one, its stack trace; one
/// without a class counts as a plain exception.
pub proof fn exceptions_are_recorded(
    class_name: Seq<char>,
    message: Seq<char>,
    stacktrace: Seq<char>,
    r: Raised,
)
    ensures
        exception_attrs(class_name, message, stacktrace)[0] == ("exception.type"@, class_name),
        exception_attrs(class_name, message, stacktrace)[1] == ("exception.message"@, message),
        stacktrace.len() == 0 ==> exception_attrs(class_name, message, stacktrace).len() == 2,
        stacktrace.len() > 0 ==> exception_attrs(class_name, message, stacktrace).len() == 3
            && exception_attrs(class_name, message, stacktrace)[2] == (
            "exception.stacktrace"@,
            stacktrace,
        ),
        r.class_name matches Some(c) ==> raised_attrs(r)[0] == ("exception.type"@, c@),
        r.class_name is None ==> raised_attrs(r)[0] == ("exception.type"@, "Exception"@),
        r.message matches Some(m) ==> raised_attrs(r)[1] == ("exception.message"@, m@),
        r.message is None ==> raised_attrs(r)[1] == ("exception.message"@, Seq::<char>::empty()),
        (r.stacktrace matches Some(t) && t@.len() > 0) ==> raised_attrs(r).len() == 3 && raised_attrs(
            r,
        )[2] == ("exception.stacktrace"@, r.stacktrace->0@),
        r.stacktrace is None ==> raised_attrs(r).len() == 2,
{
}

/// A span that is entered is active and remembers the context it found; one that is left without a
/// context leaves the empty one: all digits zero, no flags, no state.
pub proof fn contexts_are_remembered(current: Option<ContextData>, i: int)
    ensures
        entered(current).active,
        entered(current).saved_parent == current,
        left(entered(None)).1 == no_context(),
        no_context().trace_id_hex.len() == 32,
        0 <= i < 32 ==> no_context().trace_id_hex[i] == '0',
        no_context().span_id_hex.len() == 16,
        0 <= i < 16 ==> no_context().span_id_hex[i] == '0',
        no_context().flags == 0,
        no_context().trace_state.len() == 0,
{
    reveal_strlit("00000000000000000000000000000000");
    reveal_strlit("0000000000000000");
}

/// What is shown of a span and of a context is what they hold.
pub proof fn spans_are_shown(h: SpanHandle, c: SerializedContext, t: String, other: Seq<char>)
    ensures
        h.data().active == h.active,
        h.saved_parent matches Some(p) ==> h.data().saved_parent == Some(p.data()),
        h.saved_parent is None ==> h.data().saved_parent is None,
        c.data().trace_id_hex == c.trace_id_hex@,
        c.data().span_id_hex == c.span_id_hex@,
        c.data().flags == c.flags,
        c.data().trace_state == c.trace_state@,
        opt_context(Some(c)) == Some(c.data()),
        opt_context(None) is None,
        text_or(Some(t), other) == t@,
        text_or(None, other) == other,
        forall|o: SpanHandle|
            #[trigger] h.same_span(o) <==> h.name == o.name && h.attributes == o.attributes && h.kind
                == o.kind,
{
}

} // verus!
