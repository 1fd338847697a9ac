//! Trace and span identifiers, trace contexts and spans.

use crate::clock::{current_time_micros, random_nonzero, unix_time_nanos};
use crate::error::LoggingError;
use crate::string_map::{stored, StringMap};
use vstd::prelude::*;
use vstd::string::*;

verus! {

/// The lower-case hexadecimal digit for `d`, which is below sixteen.
pub open spec fn hex_char(d: nat) -> char {
    if d == 0 {
        '0'
    } else if d == 1 {
        '1'
    } else if d == 2 {
        '2'
    } else if d == 3 {
        '3'
    } else if d == 4 {
        '4'
    } else if d == 5 {
        '5'
    } else if d == 6 {
        '6'
    } else if d == 7 {
        '7'
    } else if d == 8 {
        '8'
    } else if d == 9 {
        '9'
    } else if d == 10 {
        'a'
    } else if d == 11 {
        'b'
    } else if d == 12 {
        'c'
    } else if d == 13 {
        'd'
    } else if d == 14 {
        'e'
    } else {
        'f'
    }
}

/// The low `width` hexadecimal digits of `value` as text, most significant first.
pub open spec fn hex_text(value: nat, width: nat) -> Seq<char>
    decreases width,
{
    if width == 0 {
        Seq::<char>::empty()
    } else {
        hex_text(value / 16, (width - 1) as nat).push(hex_char(value % 16))
    }
}

pub(crate) fn hex_digit_str(d: u8) -> (r: &'static str)
    requires
        d < 16,
    ensures
        r@ == seq![hex_char(d as nat)],
{
    proof {
        reveal_strlit("0");
        reveal_strlit("1");
        reveal_strlit("2");
        reveal_strlit("3");
        reveal_strlit("4");
        reveal_strlit("5");
        reveal_strlit("6");
        reveal_strlit("7");
        reveal_strlit("8");
        reveal_strlit("9");
        reveal_strlit("a");
        reveal_strlit("b");
        reveal_strlit("c");
        reveal_strlit("d");
        reveal_strlit("e");
        reveal_strlit("f");
    }
    let r = if d == 0 {
        "0"
    } else if d == 1 {
        "1"
    } else if d == 2 {
        "2"
    } else if d == 3 {
        "3"
    } else if d == 4 {
        "4"
    } else if d == 5 {
        "5"
    } else if d == 6 {
        "6"
    } else if d == 7 {
        "7"
    } else if d == 8 {
        "8"
    } else if d == 9 {
        "9"
    } else if d == 10 {
        "a"
    } else if d == 11 {
        "b"
    } else if d == 12 {
        "c"
    } else if d == 13 {
        "d"
    } else if d == 14 {
        "e"
    } else {
        "f"
    };
    assert(r@ =~= seq![hex_char(d as nat)]);
    r
}

fn push_hex(text: &mut String, value: u128, width: usize)
    ensures
        final(text)@ == old(text)@ + hex_text(value as nat, width as nat),
    decreases width,
{
    if width > 0 {
        push_hex(text, value / 16, width - 1);
        text.append(hex_digit_str((value % 16) as u8));
    }
    assert(text@ =~= old(text)@ + hex_text(value as nat, width as nat));
}

/// Identifies one trace: 128 bits.
#[derive(Debug, Clone, Copy, PartialEq, Eq, Hash, Structural)]
pub struct TraceId(pub u128);

/// Identifies one span of a trace: 64 bits.
#[derive(Debug, Clone, Copy, PartialEq, Eq, Hash, Structural)]
pub struct SpanId(pub u64);

impl TraceId {
    /// A trace identifier taken from the clock: the nanoseconds since the Unix epoch.
    pub fn new() -> (r: Self) {
        TraceId(unix_time_nanos())
    }

    pub fn from_u128(id: u128) -> (r: Self)
        ensures
            r.0 == id,
    {
        TraceId(id)
    }

    pub fn as_u128(&self) -> (r: u128)
        ensures
            r == self.0,
    {
        self.0
    }

    /// The identifier as 32 lower-case hexadecimal digits.
    pub fn to_hex_string(&self) -> (r: String)
        ensures
            r@ == hex_text(self.0 as nat, 32),
    {
        let mut text = String::new();
        push_hex(&mut text, self.0, 32);
        text
    }
}

/// The identifier that follows `id` when identifiers are counted: one more, and one
/// after the highest.
pub open spec fn following(id: u64) -> u64 {
    if id == u64::MAX {
        1
    } else {
        (id + 1) as u64
    }
}

/// Counting goes up and never reaches zero: below the highest identifier the following
/// one is higher, and the following one is always at least one.
pub proof fn lemma_following_grows(id: u64)
    ensures
        following(id) >= 1,
        id < u64::MAX ==> following(id) > id,
        id >= 1 ==> following(id) != id,
{
}

/// Hands out span identifiers by counting up from one, so that each differs from all
/// that it handed out before, as long as it has not handed out all there are.
pub struct SpanIdGenerator {
    next: u64,
}

impl SpanIdGenerator {
    /// The identifier that is handed out next.
    pub closed spec fn upcoming(&self) -> u64 {
        self.next
    }

    /// The identifier that is handed out next is not zero.
    pub open spec fn wf(&self) -> bool {
        self.upcoming() >= 1
    }

    /// A generator whose first identifier is one.
    pub fn new() -> (r: Self)
        ensures
            r.upcoming() == 1,
            r.wf(),
    {
        SpanIdGenerator { next: 1 }
    }

    /// The next identifier. The one after it is one higher; after the highest the count
    /// starts again at one.
    pub fn next_id(&mut self) -> (r: SpanId)
        ensures
            r.0 == old(self).upcoming(),
            final(self).upcoming() == following(old(self).upcoming()),
            final(self).wf(),
            old(self).upcoming() < u64::MAX ==> final(self).upcoming() > r.0,
    {
        let id = self.next;
        self.next = if id == u64::MAX {
            1
        } else {
            id + 1
        };
        SpanId(id)
    }
}

impl SpanId {
    /// A span identifier drawn at random; it is not zero. Identifiers that count up come
    /// from a `SpanIdGenerator`.
    pub fn new() -> (r: Self)
        ensures
            r.0 >= 1,
    {
        SpanId(random_nonzero())
    }

    /// A span identifier drawn at random that is neither zero nor `other`.
    pub fn new_other_than(other: SpanId) -> (r: Self)
        ensures
            r.0 >= 1,
            r != other,
    {
        let drawn = random_nonzero();
        if drawn == other.0 {
            SpanId(
                if drawn == u64::MAX {
                    1
                } else {
                    drawn + 1
                },
            )
        } else {
            SpanId(drawn)
        }
    }

    pub fn from_u64(id: u64) -> (r: Self)
        ensures
            r.0 == id,
    {
        SpanId(id)
    }

    pub fn as_u64(&self) -> (r: u64)
        ensures
            r == self.0,
    {
        self.0
    }

    /// The identifier as 16 lower-case hexadecimal digits.
    pub fn to_hex_string(&self) -> (r: String)
        ensures
            r@ == hex_text(self.0 as nat, 16),
    {
        let mut text = String::new();
        push_hex(&mut text, self.0 as u128, 16);
        text
    }
}

/// What travels with a trace from span to span.
pub struct TraceContext {
    pub trace_id: TraceId,
    pub span_id: SpanId,
    pub parent_span_id: Option<SpanId>,
    pub baggage: StringMap<String>,
}

impl TraceContext {
    /// A context with the given identifiers, without a parent and without baggage.
    pub fn with_ids(trace_id: TraceId, span_id: SpanId) -> (r: Self)
        ensures
            r.trace_id == trace_id,
            r.span_id == span_id,
            r.parent_span_id is None,
            r.baggage.wf(),
            r.baggage@.len() == 0,
    {
        TraceContext { trace_id, span_id, parent_span_id: None, baggage: StringMap::new() }
    }

    /// The context of a new trace.
    pub fn new() -> (r: Self)
        ensures
            r.parent_span_id is None,
            r.baggage.wf(),
            r.baggage@.len() == 0,
    {
        TraceContext::with_ids(TraceId::new(), SpanId::new())
    }

    /// The context of a span under this one that has the identifier `span_id`.
    pub fn child_with_id(&self, span_id: SpanId) -> (r: Self)
        requires
            self.baggage.wf(),
        ensures
            r.trace_id == self.trace_id,
            r.span_id == span_id,
            r.parent_span_id == Some(self.span_id),
            r.baggage.wf(),
            r.baggage@ == self.baggage@,
    {
        TraceContext {
            trace_id: self.trace_id,
            span_id,
            parent_span_id: Some(self.span_id),
            baggage: self.baggage.copy(),
        }
    }

    /// The context of a new span under this one: the same trace, a span identifier of
    /// its own, this span as its parent, the same baggage.
    pub fn child_span(&self) -> (r: Self)
        requires
            self.baggage.wf(),
        ensures
            r.trace_id == self.trace_id,
            r.span_id != self.span_id,
            r.span_id.0 >= 1,
            r.parent_span_id == Some(self.span_id),
            r.baggage.wf(),
            r.baggage@ == self.baggage@,
    {
        self.child_with_id(SpanId::new_other_than(self.span_id))
    }

    /// The context of a new span under this one, with the next identifier of `ids`.
    pub fn child_from(&self, ids: &mut SpanIdGenerator) -> (r: Self)
        requires
            self.baggage.wf(),
        ensures
            r.trace_id == self.trace_id,
            r.span_id.0 == old(ids).upcoming(),
            final(ids).upcoming() == following(old(ids).upcoming()),
            r.parent_span_id == Some(self.span_id),
            r.baggage.wf(),
            r.baggage@ == self.baggage@,
    {
        let id = ids.next_id();
        self.child_with_id(id)
    }

    pub fn with_baggage_item(self, key: String, value: String) -> (r: Self)
        requires
            self.baggage.wf(),
        ensures
            r.trace_id == self.trace_id,
            r.span_id == self.span_id,
            r.parent_span_id == self.parent_span_id,
            r.baggage.wf(),
            r.baggage@ == stored(self.baggage@, key@, value),
    {
        let mut context = self;
        context.baggage.insert(key, value);
        context
    }

    pub fn get_baggage_item(&self, key: &str) -> (r: Option<&String>)
        requires
            self.baggage.wf(),
        ensures
            r == match crate::string_map::lookup(self.baggage@, key@) {
                Some(v) => Some(&v),
                None => None,
            },
    {
        self.baggage.get(key)
    }
}

/// Something that happened during a span.
pub struct SpanLog {
    /// Microseconds since the Unix epoch.
    pub timestamp: u64,
    pub fields: StringMap<String>,
}

/// One operation of a trace, timed.
pub struct Span {
    pub context: TraceContext,
    pub operation_name: String,
    /// Microseconds since the Unix epoch.
    pub start_time: u64,
    pub end_time: Option<u64>,
    pub tags: StringMap<String>,
    pub logs: Vec<SpanLog>,
}

impl Span {
    /// The maps of the span hold no key twice.
    pub open spec fn wf(&self) -> bool {
        &&& self.context.baggage.wf()
        &&& self.tags.wf()
        &&& forall|i: int| 0 <= i < self.logs@.len() ==> (#[trigger] self.logs@[i]).fields.wf()
    }

    /// The span is `other` but for its tags, its logs and its end.
    pub open spec fn same_start(&self, other: &Span) -> bool {
        &&& self.context.trace_id == other.context.trace_id
        &&& self.context.span_id == other.context.span_id
        &&& self.context.parent_span_id == other.context.parent_span_id
        &&& self.context.baggage@ == other.context.baggage@
        &&& self.operation_name@ == other.operation_name@
        &&& self.start_time == other.start_time
    }

    /// The two lists hold the same logs.
    pub open spec fn same_logs(a: Seq<SpanLog>, b: Seq<SpanLog>) -> bool {
        &&& a.len() == b.len()
        &&& forall|i: int|
            0 <= i < a.len() ==> (#[trigger] a[i]).timestamp == b[i].timestamp && a[i].fields@
                == b[i].fields@
    }

    /// A span in `context` that started at `start_time`, without tags and logs.
    pub fn started(context: TraceContext, operation_name: String, start_time: u64) -> (r: Self)
        requires
            context.baggage.wf(),
        ensures
            r.wf(),
            r.context == context,
            r.operation_name == operation_name,
            r.start_time == start_time,
            r.end_time is None,
            r.tags@.len() == 0,
            r.logs@.len() == 0,
    {
        Span {
            context,
            operation_name,
            start_time,
            end_time: None,
            tags: StringMap::new(),
            logs: Vec::new(),
        }
    }

    /// A span of a new trace that starts now.
    pub fn new(operation_name: String) -> (r: Self)
        ensures
            r.wf(),
            r.operation_name == operation_name,
            r.context.parent_span_id is None,
            r.context.baggage@.len() == 0,
            r.end_time is None,
            r.tags@.len() == 0,
            r.logs@.len() == 0,
    {
        Span::started(TraceContext::new(), operation_name, current_time_micros())
    }

    /// A span under this one that starts now.
    pub fn child_span(&self, operation_name: String) -> (r: Self)
        requires
            self.wf(),
        ensures
            r.wf(),
            r.operation_name == operation_name,
            r.context.trace_id == self.context.trace_id,
            r.context.span_id != self.context.span_id,
            r.context.parent_span_id == Some(self.context.span_id),
            r.context.baggage@ == self.context.baggage@,
            r.end_time is None,
            r.tags@.len() == 0,
            r.logs@.len() == 0,
    {
        Span::started(self.context.child_span(), operation_name, current_time_micros())
    }

    pub fn set_tag(self, key: String, value: String) -> (r: Self)
        requires
            self.wf(),
        ensures
            r.wf(),
            r.same_start(&self),
            r.end_time == self.end_time,
            r.tags@ == stored(self.tags@, key@, value),
            r.logs == self.logs,
    {
        let mut span = self;
        span.tags.insert(key, value);
        span
    }

    /// The span with one more log, made at `timestamp`, that holds `message` under the
    /// key `event`.
    pub fn log_event_at(self, message: String, timestamp: u64) -> (r: Self)
        requires
            self.wf(),
        ensures
            r.wf(),
            r.same_start(&self),
            r.end_time == self.end_time,
            r.tags@ == self.tags@,
            r.logs@.len() == self.logs@.len() + 1,
            r.logs@.drop_last() == self.logs@,
            r.logs@.last().timestamp == timestamp,
            r.logs@.last().fields@ == seq![("event"@, message)],
    {
        let mut fields: StringMap<String> = StringMap::new();
        fields.insert(String::from_str("event"), message);
        assert(fields@ =~= seq![("event"@, message)]);
        self.log_fields_at(fields, timestamp)
    }

    /// The span with one more log, made now, that holds `message` under the key `event`.
    pub fn log_event(self, message: String) -> (r: Self)
        requires
            self.wf(),
        ensures
            r.wf(),
            r.same_start(&self),
            r.end_time == self.end_time,
            r.tags@ == self.tags@,
            r.logs@.len() == self.logs@.len() + 1,
            r.logs@.drop_last() == self.logs@,
            r.logs@.last().fields@ == seq![("event"@, message)],
    {
        self.log_event_at(message, current_time_micros())
    }

    /// The span with one more log, made at `timestamp`, that holds `fields`.
    pub fn log_fields_at(self, fields: StringMap<String>, timestamp: u64) -> (r: Self)
        requires
            self.wf(),
            fields.wf(),
        ensures
            r.wf(),
            r.same_start(&self),
            r.end_time == self.end_time,
            r.tags@ == self.tags@,
            r.logs@.len() == self.logs@.len() + 1,
            r.logs@.drop_last() == self.logs@,
            r.logs@.last().timestamp == timestamp,
            r.logs@.last().fields == fields,
    {
        let mut span = self;
        span.logs.push(SpanLog { timestamp, fields });
        assert(span.logs@.drop_last() =~= self.logs@);
        span
    }

    /// The span with one more log, made now, that holds `fields`.
    pub fn log_with_fields(self, fields: StringMap<String>) -> (r: Self)
        requires
            self.wf(),
            fields.wf(),
        ensures
            r.wf(),
            r.same_start(&self),
            r.end_time == self.end_time,
            r.tags@ == self.tags@,
            r.logs@.len() == self.logs@.len() + 1,
            r.logs@.drop_last() == self.logs@,
            r.logs@.last().fields == fields,
    {
        self.log_fields_at(fields, current_time_micros())
    }

    /// The span, ended at `end_time`.
    pub fn finish_at(self, end_time: u64) -> (r: Self)
        ensures
            r == (Span { end_time: Some(end_time), ..self }),
    {
        let mut span = self;
        span.end_time = Some(end_time);
        span
    }

    /// The span, ended now.
    pub fn finish(self) -> (r: Self)
        ensures
            r.end_time is Some,
            r == (Span { end_time: r.end_time, ..self }),
    {
        self.finish_at(current_time_micros())
    }

    /// The time from the start of the span to its end, once it has ended; nothing where
    /// the clock went back in between.
    pub fn duration_micros(&self) -> (r: Option<u64>)
        ensures
            r == match self.end_time {
                Some(end) => Some(
                    if end >= self.start_time {
                        (end - self.start_time) as u64
                    } else {
                        0u64
                    },
                ),
                None => None,
            },
    {
        match self.end_time {
            Some(end) => Some(end.saturating_sub(self.start_time)),
            None => None,
        }
    }

    pub fn is_finished(&self) -> (r: bool)
        ensures
            r == self.end_time is Some,
    {
        self.end_time.is_some()
    }

    /// The tag at place `i` has the key `key` and the value `value`.
    pub open spec fn tag_at(&self, i: int, key: Seq<char>, value: Seq<char>) -> bool {
        0 <= i < self.tags@.len() && self.tags@[i].0 == key && self.tags@[i].1@ == value
    }

    /// The span is the first of a new trace, open, without logs and without baggage.
    pub open spec fn is_fresh(&self, operation: Seq<char>) -> bool {
        &&& self.wf()
        &&& self.operation_name@ == operation
        &&& self.end_time is None
        &&& self.logs@.len() == 0
        &&& self.context.parent_span_id is None
        &&& self.context.baggage@.len() == 0
    }

    /// A span named `operation` with two tags.
    fn tagged(operation: &str, first: &str, first_value: &str, second: &str, second_value: &str)
        -> (r: Self)
        requires
            first@ != second@,
        ensures
            r.is_fresh(operation@),
            r.tags@.len() == 2,
            r.tag_at(0, first@, first_value@),
            r.tag_at(1, second@, second_value@),
    {
        let fresh = Span::new(String::from_str(operation));
        let one = String::from_str(first_value);
        assert(!crate::string_map::has_key(fresh.tags@, first@));
        let span = fresh.set_tag(String::from_str(first), one);
        assert(span.tags@ =~= seq![(first@, one)]);
        let two = String::from_str(second_value);
        assert(!crate::string_map::has_key(span.tags@, second@));
        let both = span.set_tag(String::from_str(second), two);
        assert(both.tags@ =~= seq![(first@, one), (second@, two)]);
        both
    }

    /// The span of the execution of a trade, tagged with the symbol, the side and the
    /// quantity, which is given as text.
    pub fn trade_execution(symbol: &str, side: &str, quantity: &str) -> (r: Self)
        ensures
            r.is_fresh("trade_execution"@),
            r.tags@.len() == 3,
            r.tag_at(0, "symbol"@, symbol@),
            r.tag_at(1, "side"@, side@),
            r.tag_at(2, "quantity"@, quantity@),
    {
        proof {
            reveal_strlit("symbol");
            reveal_strlit("side");
            reveal_strlit("quantity");
            assert("symbol"@.len() == 6 && "side"@.len() == 4 && "quantity"@.len() == 8);
        }
        let span = Span::tagged("trade_execution", "symbol", symbol, "side", side);
        let text = String::from_str(quantity);
        assert(!crate::string_map::has_key(span.tags@, "quantity"@));
        let ghost before = span.tags@;
        let all = span.set_tag(String::from_str("quantity"), text);
        assert(all.tags@ =~= before.push(("quantity"@, text)));
        all
    }

    /// The span of the processing of an order, tagged with its identifier and kind.
    pub fn order_processing(order_id: &str, order_type: &str) -> (r: Self)
        ensures
            r.is_fresh("order_processing"@),
            r.tags@.len() == 2,
            r.tag_at(0, "order_id"@, order_id@),
            r.tag_at(1, "order_type"@, order_type@),
    {
        proof {
            reveal_strlit("order_id");
            reveal_strlit("order_type");
            assert("order_id"@.len() == 8 && "order_type"@.len() == 10);
        }
        Span::tagged("order_processing", "order_id", order_id, "order_type", order_type)
    }

    /// The span of the processing of market data, tagged with the symbol and the kind of
    /// data.
    pub fn market_data_processing(symbol: &str, data_type: &str) -> (r: Self)
        ensures
            r.is_fresh("market_data_processing"@),
            r.tags@.len() == 2,
            r.tag_at(0, "symbol"@, symbol@),
            r.tag_at(1, "data_type"@, data_type@),
    {
        proof {
            reveal_strlit("symbol");
            reveal_strlit("data_type");
            assert("symbol"@.len() == 6 && "data_type"@.len() == 9);
        }
        Span::tagged("market_data_processing", "symbol", symbol, "data_type", data_type)
    }

    /// The span of a risk check, tagged with the position and the kind of check.
    pub fn risk_check(position_id: &str, check_type: &str) -> (r: Self)
        ensures
            r.is_fresh("risk_check"@),
            r.tags@.len() == 2,
            r.tag_at(0, "position_id"@, position_id@),
            r.tag_at(1, "check_type"@, check_type@),
    {
        proof {
            reveal_strlit("position_id");
            reveal_strlit("check_type");
            assert("position_id"@.len() == 11 && "check_type"@.len() == 10);
        }
        Span::tagged("risk_check", "position_id", position_id, "check_type", check_type)
    }

    /// A copy of the span.
    pub fn copy(&self) -> (r: Self)
        requires
            self.wf(),
        ensures
            r.wf(),
            r.same_start(self),
            r.end_time == self.end_time,
            r.tags@ == self.tags@,
            Self::same_logs(r.logs@, self.logs@),
    {
        let mut logs: Vec<SpanLog> = Vec::new();
        let mut i: usize = 0;
        while i < self.logs.len()
            invariant
                i <= self.logs@.len(),
                self.wf(),
                logs@.len() == i,
                forall|j: int|
                    0 <= j < i ==> (#[trigger] logs@[j]).timestamp == self.logs@[j].timestamp
                        && logs@[j].fields@ == self.logs@[j].fields@ && logs@[j].fields.wf(),
            decreases self.logs@.len() - i,
        {
            logs.push(
                SpanLog { timestamp: self.logs[i].timestamp, fields: self.logs[i].fields.copy() },
            );
            i += 1;
        }
        Span {
            context: TraceContext {
                trace_id: self.context.trace_id,
                span_id: self.context.span_id,
                parent_span_id: self.context.parent_span_id,
                baggage: self.context.baggage.copy(),
            },
            operation_name: self.operation_name.clone(),
            start_time: self.start_time,
            end_time: self.end_time,
            tags: self.tags.copy(),
            logs,
        }
    }
}

/// Takes finished spans.
pub trait TraceReporter {
    fn report_span(&mut self, span: Span) -> Result<(), LoggingError>;

    fn flush(&mut self) -> Result<(), LoggingError>;
}

/// Keeps one line for each span that it is given, for the caller to print.
pub struct ConsoleTraceReporter {
    lines: Vec<String>,
}

/// The line that reports a span: the operation, the duration in whole milliseconds, and
/// the identifiers of the trace and the span.
pub open spec fn span_line(span: Span) -> Seq<char> {
    "[TRACE] "@ + span.operation_name@ + " ("@ + crate::record::decimal_text(
        match span.end_time {
            Some(end) => if end >= span.start_time {
                ((end - span.start_time) / 1000) as nat
            } else {
                0nat
            },
            None => 0nat,
        },
    ) + "ms) trace="@ + hex_text(span.context.trace_id.0 as nat, 32) + " span="@ + hex_text(
        span.context.span_id.0 as nat,
        16,
    )
}

impl ConsoleTraceReporter {
    /// The lines that were kept and not yet taken.
    pub closed spec fn lines(&self) -> Seq<String> {
        self.lines@
    }

    pub fn new() -> (r: Self)
        ensures
            r.lines().len() == 0,
    {
        ConsoleTraceReporter { lines: Vec::new() }
    }

    /// The line that reports `span`.
    pub fn render(span: &Span) -> (r: String)
        ensures
            r@ == span_line(*span),
    {
        let millis = match span.duration_micros() {
            Some(micros) => micros / 1000,
            None => 0,
        };
        let mut line = String::from_str("[TRACE] ");
        line.append(span.operation_name.as_str());
        line.append(" (");
        crate::record::push_decimal(&mut line, millis);
        line.append("ms) trace=");
        push_hex(&mut line, span.context.trace_id.0, 32);
        line.append(" span=");
        push_hex(&mut line, span.context.span_id.0 as u128, 16);
        assert(line@ =~= span_line(*span));
        line
    }

    /// Hands out the lines that were kept.
    pub fn take_lines(&mut self) -> (r: Vec<String>)
        ensures
            r@ == old(self).lines(),
            final(self).lines().len() == 0,
    {
        let mut taken: Vec<String> = Vec::new();
        std::mem::swap(&mut self.lines, &mut taken);
        taken
    }
}

impl TraceReporter for ConsoleTraceReporter {
    fn report_span(&mut self, span: Span) -> (r: Result<(), LoggingError>)
        ensures
            r is Ok,
            final(self).lines().len() == old(self).lines().len() + 1,
            final(self).lines().drop_last() == old(self).lines(),
            final(self).lines().last()@ == span_line(span),
    {
        let line = ConsoleTraceReporter::render(&span);
        self.lines.push(line);
        assert(self.lines@.drop_last() =~= old(self).lines@);
        Ok(())
    }

    fn flush(&mut self) -> (r: Result<(), LoggingError>)
        ensures
            r is Ok,
            final(self).lines() == old(self).lines(),
    {
        Ok(())
    }
}

/// The span that is current. Starting a span inside another makes it a child of that
/// one.
pub struct TracingContext {
    current: Option<Span>,
}

impl TracingContext {
    /// The current span, if there is one.
    pub closed spec fn current(&self) -> Option<Span> {
        self.current
    }

    /// The current span is well formed.
    pub open spec fn wf(&self) -> bool {
        self.current() matches Some(span) ==> span.wf()
    }

    /// A context without a current span.
    pub fn new() -> (r: Self)
        ensures
            r.current() is None,
            r.wf(),
    {
        TracingContext { current: None }
    }

    /// Starts a span and makes it the current one: a child of the current span where
    /// there is one, the first span of a new trace otherwise. A copy comes back.
    pub fn start_span(&mut self, operation_name: String) -> (r: Span)
        requires
            old(self).wf(),
        ensures
            final(self).wf(),
            final(self).current() is Some,
            r.wf(),
            r.same_start(&final(self).current()->0),
            r.operation_name@ == operation_name@,
            r.end_time is None,
            r.tags@.len() == 0,
            r.logs@.len() == 0,
            match old(self).current() {
                Some(parent) => r.context.trace_id == parent.context.trace_id
                    && r.context.span_id != parent.context.span_id
                    && r.context.parent_span_id == Some(parent.context.span_id)
                    && r.context.baggage@ == parent.context.baggage@,
                None => r.context.parent_span_id is None && r.context.baggage@.len() == 0,
            },
    {
        let span = match &self.current {
            Some(parent) => parent.child_span(operation_name),
            None => Span::new(operation_name),
        };
        let copy = span.copy();
        self.current = Some(span);
        copy
    }

    /// A copy of the current span, if there is one.
    pub fn current_span(&self) -> (r: Option<Span>)
        requires
            self.wf(),
        ensures
            r is Some == self.current() is Some,
            r matches Some(span) ==> span.wf() && span.same_start(&self.current()->0)
                && span.end_time == self.current()->0.end_time,
    {
        match &self.current {
            Some(span) => Some(span.copy()),
            None => None,
        }
    }

    /// Ends the current span and hands it out; afterwards no span is current.
    pub fn finish_current_span(&mut self) -> (r: Option<Span>)
        ensures
            final(self).current() is None,
            r is Some == old(self).current() is Some,
            r matches Some(span) ==> span.end_time is Some && span == (Span {
                end_time: span.end_time,
                ..old(self).current()->0
            }),
    {
        let mut taken: Option<Span> = None;
        std::mem::swap(&mut self.current, &mut taken);
        match taken {
            Some(span) => Some(span.finish()),
            None => None,
        }
    }

    /// Makes `span` the current one and hands out the one that was current, for `leave`
    /// to put back.
    pub fn enter(&mut self, span: Span) -> (r: Option<Span>)
        ensures
            final(self).current() == Some(span),
            r == old(self).current(),
    {
        let mut previous: Option<Span> = Some(span);
        std::mem::swap(&mut self.current, &mut previous);
        previous
    }

    /// Puts back the span that was current before `enter`.
    pub fn leave(&mut self, previous: Option<Span>)
        ensures
            final(self).current() == previous,
    {
        self.current = previous;
    }

    /// Runs `f` while `span` is the current span, and puts back the span that was
    /// current before.
    pub fn with_span<R, F: FnOnce() -> R>(&mut self, span: Span, f: F) -> (r: R)
        requires
            f.requires(()),
        ensures
            f.ensures((), r),
            final(self).current() == old(self).current(),
    {
        let previous = self.enter(span);
        let result = f();
        self.leave(previous);
        result
    }
}

} // verus!
