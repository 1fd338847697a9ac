//! The log record, its structured fields, its size estimate and its JSON line.

use crate::clock::{low_nanos, unix_time_nanos};
use crate::error::LoggingError;
use crate::json::{
    decimal, hexadecimal, put_hex, put_i64, put_quoted_str, put_str, put_u64, quoted,
    signed_decimal,
};
use crate::level::LogLevel;
use crate::string_map::{stored, StringMap};
use crate::trace::{SpanId, TraceId};
use vstd::prelude::*;
use vstd::string::*;
use vstd::utf8::encode_utf8;

verus! {

/// The value of one structured field.
pub enum LogValue {
    String(String),
    Integer(i64),
    /// A floating-point number, held as the decimal text that stands for it.
    Float(String),
    Boolean(bool),
    Bytes(Vec<u8>),
    Null,
}

/// Where a scan of a JSON number stands.
#[derive(Clone, Copy, PartialEq, Eq, Structural)]
pub enum NumberScan {
    Start,
    Minus,
    Zero,
    Whole,
    Point,
    Fraction,
    ExponentMark,
    ExponentSign,
    Exponent,
    Reject,
}

pub open spec fn is_digit(b: u8) -> bool {
    0x30 <= b <= 0x39
}

/// Where the scan stands after `b`, when it stood at `state` before.
pub open spec fn scan_step(state: NumberScan, b: u8) -> NumberScan {
    match state {
        NumberScan::Start => if b == 0x2d {
            NumberScan::Minus
        } else if b == 0x30 {
            NumberScan::Zero
        } else if is_digit(b) {
            NumberScan::Whole
        } else {
            NumberScan::Reject
        },
        NumberScan::Minus => if b == 0x30 {
            NumberScan::Zero
        } else if is_digit(b) {
            NumberScan::Whole
        } else {
            NumberScan::Reject
        },
        NumberScan::Zero => if b == 0x2e {
            NumberScan::Point
        } else if b == 0x65 || b == 0x45 {
            NumberScan::ExponentMark
        } else {
            NumberScan::Reject
        },
        NumberScan::Whole => if is_digit(b) {
            NumberScan::Whole
        } else if b == 0x2e {
            NumberScan::Point
        } else if b == 0x65 || b == 0x45 {
            NumberScan::ExponentMark
        } else {
            NumberScan::Reject
        },
        NumberScan::Point => if is_digit(b) {
            NumberScan::Fraction
        } else {
            NumberScan::Reject
        },
        NumberScan::Fraction => if is_digit(b) {
            NumberScan::Fraction
        } else if b == 0x65 || b == 0x45 {
            NumberScan::ExponentMark
        } else {
            NumberScan::Reject
        },
        NumberScan::ExponentMark => if b == 0x2b || b == 0x2d {
            NumberScan::ExponentSign
        } else if is_digit(b) {
            NumberScan::Exponent
        } else {
            NumberScan::Reject
        },
        NumberScan::ExponentSign => if is_digit(b) {
            NumberScan::Exponent
        } else {
            NumberScan::Reject
        },
        NumberScan::Exponent => if is_digit(b) {
            NumberScan::Exponent
        } else {
            NumberScan::Reject
        },
        NumberScan::Reject => NumberScan::Reject,
    }
}

/// Where the scan stands after all of `bytes`.
pub open spec fn scan(bytes: Seq<u8>) -> NumberScan
    decreases bytes.len(),
{
    if bytes.len() == 0 {
        NumberScan::Start
    } else {
        scan_step(scan(bytes.drop_last()), bytes.last())
    }
}

/// True when `bytes` is a number as JSON writes one: an optional minus sign, an integer
/// part without a leading zero, an optional fraction, an optional exponent.
pub open spec fn is_json_number(bytes: Seq<u8>) -> bool {
    let end = scan(bytes);
    end is Zero || end is Whole || end is Fraction || end is Exponent
}

fn step(state: NumberScan, b: u8) -> (r: NumberScan)
    ensures
        r == scan_step(state, b),
{
    let digit = 0x30 <= b && b <= 0x39;
    let mark = b == 0x65 || b == 0x45;
    match state {
        NumberScan::Start => if b == 0x2d {
            NumberScan::Minus
        } else if b == 0x30 {
            NumberScan::Zero
        } else if digit {
            NumberScan::Whole
        } else {
            NumberScan::Reject
        },
        NumberScan::Minus => if b == 0x30 {
            NumberScan::Zero
        } else if digit {
            NumberScan::Whole
        } else {
            NumberScan::Reject
        },
        NumberScan::Zero => if b == 0x2e {
            NumberScan::Point
        } else if mark {
            NumberScan::ExponentMark
        } else {
            NumberScan::Reject
        },
        NumberScan::Whole => if digit {
            NumberScan::Whole
        } else if b == 0x2e {
            NumberScan::Point
        } else if mark {
            NumberScan::ExponentMark
        } else {
            NumberScan::Reject
        },
        NumberScan::Point => if digit {
            NumberScan::Fraction
        } else {
            NumberScan::Reject
        },
        NumberScan::Fraction => if digit {
            NumberScan::Fraction
        } else if mark {
            NumberScan::ExponentMark
        } else {
            NumberScan::Reject
        },
        NumberScan::ExponentMark => if b == 0x2b || b == 0x2d {
            NumberScan::ExponentSign
        } else if digit {
            NumberScan::Exponent
        } else {
            NumberScan::Reject
        },
        NumberScan::ExponentSign => if digit {
            NumberScan::Exponent
        } else {
            NumberScan::Reject
        },
        NumberScan::Exponent => if digit {
            NumberScan::Exponent
        } else {
            NumberScan::Reject
        },
        NumberScan::Reject => NumberScan::Reject,
    }
}

/// True when `bytes` is a number as JSON writes one.
pub fn json_number(bytes: &[u8]) -> (r: bool)
    ensures
        r == is_json_number(bytes@),
{
    let mut state = NumberScan::Start;
    let mut i: usize = 0;
    assert(bytes@.take(0) =~= Seq::<u8>::empty());
    while i < bytes.len()
        invariant
            i <= bytes@.len(),
            state == scan(bytes@.take(i as int)),
        decreases bytes@.len() - i,
    {
        state = step(state, bytes[i]);
        i += 1;
        proof {
            let now = bytes@.take(i as int);
            assert(now.drop_last() =~= bytes@.take(i - 1));
        }
    }
    assert(bytes@.take(bytes@.len() as int) =~= bytes@);
    match state {
        NumberScan::Zero => true,
        NumberScan::Whole => true,
        NumberScan::Fraction => true,
        NumberScan::Exponent => true,
        _ => false,
    }
}

/// The numbers of `bytes` in decimal, with a comma between neighbours.
pub open spec fn byte_list(bytes: Seq<u8>) -> Seq<u8>
    decreases bytes.len(),
{
    if bytes.len() == 0 {
        Seq::<u8>::empty()
    } else if bytes.len() == 1 {
        decimal(bytes[0] as nat)
    } else {
        byte_list(bytes.drop_last()) + seq![0x2cu8] + decimal(bytes.last() as nat)
    }
}

impl LogValue {
    /// The bytes that the value is estimated to hold.
    pub open spec fn size(self) -> nat {
        match self {
            LogValue::String(s) => encode_utf8(s@).len(),
            LogValue::Integer(_) => 8,
            LogValue::Float(_) => 8,
            LogValue::Boolean(_) => 1,
            LogValue::Bytes(b) => b@.len(),
            LogValue::Null => 0,
        }
    }

    /// The value as JSON. A float whose text is not a JSON number is written as `null`;
    /// bytes are written as an array of numbers.
    pub open spec fn json(self) -> Seq<u8> {
        match self {
            LogValue::String(s) => quoted(encode_utf8(s@)),
            LogValue::Integer(n) => signed_decimal(n as int),
            LogValue::Float(text) => if is_json_number(encode_utf8(text@)) {
                encode_utf8(text@)
            } else {
                "null".spec_bytes()
            },
            LogValue::Boolean(b) => if b {
                "true".spec_bytes()
            } else {
                "false".spec_bytes()
            },
            LogValue::Bytes(b) => seq![0x5bu8] + byte_list(b@) + seq![0x5du8],
            LogValue::Null => "null".spec_bytes(),
        }
    }

    pub fn memory_size(&self) -> (r: usize)
        ensures
            r == self.size(),
    {
        match self {
            LogValue::String(s) => s.as_str().as_bytes().len(),
            LogValue::Integer(_) => 8,
            LogValue::Float(_) => 8,
            LogValue::Boolean(_) => 1,
            LogValue::Bytes(b) => b.len(),
            LogValue::Null => 0,
        }
    }

    /// Appends the value as JSON.
    pub fn write_json(&self, out: &mut Vec<u8>)
        ensures
            final(out)@ == old(out)@ + self.json(),
    {
        match self {
            LogValue::String(s) => put_quoted_str(out, s.as_str()),
            LogValue::Integer(n) => put_i64(out, *n),
            LogValue::Float(text) => {
                if json_number(text.as_str().as_bytes()) {
                    put_str(out, text.as_str());
                } else {
                    put_str(out, "null");
                }
            },
            LogValue::Boolean(b) => {
                if *b {
                    put_str(out, "true");
                } else {
                    put_str(out, "false");
                }
            },
            LogValue::Bytes(b) => {
                out.push(0x5b);
                let mut i: usize = 0;
                assert(b@.take(0) =~= Seq::<u8>::empty());
                while i < b.len()
                    invariant
                        i <= b@.len(),
                        out@ == old(out)@ + seq![0x5bu8] + byte_list(b@.take(i as int)),
                    decreases b@.len() - i,
                {
                    if i > 0 {
                        out.push(0x2c);
                    }
                    put_u64(out, b[i] as u64);
                    i += 1;
                    proof {
                        let now = b@.take(i as int);
                        assert(now.drop_last() =~= b@.take(i - 1));
                        assert(out@ =~= old(out)@ + seq![0x5bu8] + byte_list(now));
                    }
                }
                assert(b@.take(b@.len() as int) =~= b@);
                out.push(0x5d);
                assert(out@ =~= old(out)@ + self.json());
            },
            LogValue::Null => put_str(out, "null"),
        }
    }
}

/// The bytes that a record is estimated to hold apart from its texts and fields.
pub const RECORD_OVERHEAD: usize = 96;

/// One member of the `fields` object: the key as a string, a colon, the value.
pub open spec fn member_json(entry: (Seq<char>, LogValue)) -> Seq<u8> {
    quoted(encode_utf8(entry.0)) + seq![0x3au8] + entry.1.json()
}

/// The members of the `fields` object, with a comma between neighbours.
pub open spec fn members_json(entries: Seq<(Seq<char>, LogValue)>) -> Seq<u8>
    decreases entries.len(),
{
    if entries.len() == 0 {
        Seq::<u8>::empty()
    } else if entries.len() == 1 {
        member_json(entries[0])
    } else {
        members_json(entries.drop_last()) + seq![0x2cu8] + member_json(entries.last())
    }
}

/// The bytes that the fields are estimated to hold: for each, its key and its value.
pub open spec fn fields_size(entries: Seq<(Seq<char>, LogValue)>) -> nat
    decreases entries.len(),
{
    if entries.len() == 0 {
        0
    } else {
        fields_size(entries.drop_last()) + encode_utf8(entries.last().0).len()
            + entries.last().1.size()
    }
}

/// The estimate for a record without fields, identifiers and location.
pub open spec fn plain_size(service: Seq<char>, message: Seq<char>) -> nat {
    RECORD_OVERHEAD as nat + encode_utf8(service).len() + encode_utf8(message).len()
}

/// A log record.
pub struct LogEntry {
    /// Nanoseconds since the Unix epoch.
    pub timestamp_nanos: u64,
    pub level: LogLevel,
    pub service: String,
    pub message: String,
    pub fields: StringMap<LogValue>,
    pub trace_id: Option<TraceId>,
    pub span_id: Option<SpanId>,
    /// Where in the source the record was made, as `file:line`.
    pub location: Option<String>,
    /// The place of the record in the order of its logger.
    pub sequence: u64,
}

/// `n` in decimal as text.
pub open spec fn decimal_text(n: nat) -> Seq<char>
    decreases n,
{
    if n < 10 {
        seq![crate::trace::hex_char(n)]
    } else {
        decimal_text(n / 10).push(crate::trace::hex_char(n % 10))
    }
}

impl LogEntry {
    /// The fields hold no key twice.
    pub open spec fn wf(&self) -> bool {
        self.fields.wf()
    }

    /// The estimate of the bytes that the record holds, before it is cut to the range
    /// of `usize`.
    pub open spec fn size(&self) -> nat {
        RECORD_OVERHEAD as nat + encode_utf8(self.service@).len() + encode_utf8(
            self.message@,
        ).len() + fields_size(self.fields@) + (if self.trace_id is Some {
            16nat
        } else {
            0nat
        }) + (if self.span_id is Some {
            8nat
        } else {
            0nat
        }) + (match self.location {
            Some(l) => encode_utf8(l@).len(),
            None => 0nat,
        })
    }

    /// The start of the JSON line: the time, the level, the service and the message.
    pub open spec fn json_head(&self) -> Seq<u8> {
        "{\"timestamp\":".spec_bytes() + decimal(self.timestamp_nanos as nat)
            + ",\"level\":".spec_bytes() + quoted(encode_utf8(self.level.name()))
            + ",\"service\":".spec_bytes() + quoted(encode_utf8(self.service@))
            + ",\"message\":".spec_bytes() + quoted(encode_utf8(self.message@))
    }

    /// The `fields` member of the JSON line.
    pub open spec fn json_fields(&self) -> Seq<u8> {
        ",\"fields\":{".spec_bytes() + members_json(self.fields@) + seq![0x7du8]
    }

    /// The identifiers in the JSON line: each is there when the record has it.
    pub open spec fn json_ids(&self) -> Seq<u8> {
        (match self.trace_id {
            Some(id) => ",\"trace_id\":\"".spec_bytes() + hexadecimal(id.0 as nat, 32)
                + seq![0x22u8],
            None => Seq::<u8>::empty(),
        }) + (match self.span_id {
            Some(id) => ",\"span_id\":\"".spec_bytes() + hexadecimal(id.0 as nat, 16)
                + seq![0x22u8],
            None => Seq::<u8>::empty(),
        })
    }

    /// The end of the JSON object: the sequence number and the closing brace.
    pub open spec fn json_tail(&self) -> Seq<u8> {
        ",\"sequence\":".spec_bytes() + decimal(self.sequence as nat) + seq![0x7du8]
    }

    /// The record as a JSON object.
    pub open spec fn json_object(&self) -> Seq<u8> {
        self.json_head() + self.json_fields() + self.json_ids() + self.json_tail()
    }

    /// The record as one JSON line: the object, then a line feed.
    pub open spec fn json_line(&self) -> Seq<u8> {
        self.json_object() + seq![0x0au8]
    }

    /// A record made at `timestamp_nanos`, without fields, identifiers or location.
    pub fn at(
        timestamp_nanos: u64,
        level: LogLevel,
        service: String,
        message: String,
        sequence: u64,
    ) -> (r: Self)
        ensures
            r.wf(),
            r.timestamp_nanos == timestamp_nanos,
            r.level == level,
            r.service == service,
            r.message == message,
            r.sequence == sequence,
            r.fields@ == Seq::<(Seq<char>, LogValue)>::empty(),
            r.trace_id is None,
            r.span_id is None,
            r.location is None,
            r.size() == plain_size(service@, message@),
    {
        LogEntry {
            timestamp_nanos,
            level,
            service,
            message,
            fields: StringMap::new(),
            trace_id: None,
            span_id: None,
            location: None,
            sequence,
        }
    }

    /// A record stamped with the time of the call.
    pub fn new(level: LogLevel, service: String, message: String, sequence: u64) -> (r: Self)
        ensures
            r.wf(),
            r.level == level,
            r.service == service,
            r.message == message,
            r.sequence == sequence,
            r.fields@ == Seq::<(Seq<char>, LogValue)>::empty(),
            r.trace_id is None,
            r.span_id is None,
            r.location is None,
            r.size() == plain_size(service@, message@),
    {
        let now = low_nanos(unix_time_nanos());
        LogEntry::at(now, level, service, message, sequence)
    }

    /// The record with `value` stored under `key`.
    pub fn with_field(self, key: String, value: LogValue) -> (r: Self)
        requires
            self.wf(),
        ensures
            r.wf(),
            r.fields@ == stored(self.fields@, key@, value),
            r.timestamp_nanos == self.timestamp_nanos,
            r.level == self.level,
            r.service == self.service,
            r.message == self.message,
            r.sequence == self.sequence,
            r.trace_id == self.trace_id,
            r.span_id == self.span_id,
            r.location == self.location,
    {
        let mut entry = self;
        entry.fields.insert(key, value);
        entry
    }

    pub fn with_trace_id(self, trace_id: TraceId) -> (r: Self)
        ensures
            r.trace_id == Some(trace_id),
            r.fields == self.fields,
            r.timestamp_nanos == self.timestamp_nanos,
            r.level == self.level,
            r.service == self.service,
            r.message == self.message,
            r.sequence == self.sequence,
            r.span_id == self.span_id,
            r.location == self.location,
    {
        let mut entry = self;
        entry.trace_id = Some(trace_id);
        entry
    }

    pub fn with_span_id(self, span_id: SpanId) -> (r: Self)
        ensures
            r.span_id == Some(span_id),
            r.fields == self.fields,
            r.timestamp_nanos == self.timestamp_nanos,
            r.level == self.level,
            r.service == self.service,
            r.message == self.message,
            r.sequence == self.sequence,
            r.trace_id == self.trace_id,
            r.location == self.location,
    {
        let mut entry = self;
        entry.span_id = Some(span_id);
        entry
    }

    /// The record with its place in the source: the file, a colon, the line.
    pub fn with_location(self, file: &str, line: u32) -> (r: Self)
        ensures
            r.location is Some,
            r.location->0@ == file@ + seq![':'] + decimal_text(line as nat),
            r.fields == self.fields,
            r.timestamp_nanos == self.timestamp_nanos,
            r.level == self.level,
            r.service == self.service,
            r.message == self.message,
            r.sequence == self.sequence,
            r.trace_id == self.trace_id,
            r.span_id == self.span_id,
    {
        let mut text = String::from_str(file);
        proof {
            reveal_strlit(":");
        }
        text.append(":");
        assert(text@ =~= file@ + seq![':']);
        push_decimal(&mut text, line as u64);
        let mut entry = self;
        entry.location = Some(text);
        entry
    }

    /// The record as a JSON object. This never fails.
    pub fn to_json_bytes(&self) -> (r: Result<Vec<u8>, LoggingError>)
        ensures
            r is Ok,
            r->Ok_0@ == self.json_object(),
    {
        let mut out: Vec<u8> = Vec::new();
        self.write_json_object(&mut out);
        Ok(out)
    }

    /// Appends the record as a JSON object.
    pub fn write_json_object(&self, out: &mut Vec<u8>)
        ensures
            final(out)@ == old(out)@ + self.json_object(),
    {
        self.write_head(out);
        self.write_fields(out);
        self.write_ids(out);
        self.write_tail(out);
        assert(out@ =~= old(out)@ + self.json_object());
    }

    /// Appends the record as one JSON line, ended by a line feed.
    pub fn write_json_line(&self, out: &mut Vec<u8>)
        ensures
            final(out)@ == old(out)@ + self.json_line(),
    {
        self.write_json_object(out);
        out.push(0x0a);
        assert(out@ =~= old(out)@ + self.json_line());
    }

    fn write_head(&self, out: &mut Vec<u8>)
        ensures
            final(out)@ == old(out)@ + self.json_head(),
    {
        put_str(out, "{\"timestamp\":");
        put_u64(out, self.timestamp_nanos);
        put_str(out, ",\"level\":");
        put_quoted_str(out, self.level.as_str());
        put_str(out, ",\"service\":");
        put_quoted_str(out, self.service.as_str());
        put_str(out, ",\"message\":");
        put_quoted_str(out, self.message.as_str());
        assert(out@ =~= old(out)@ + self.json_head());
    }

    fn write_fields(&self, out: &mut Vec<u8>)
        ensures
            final(out)@ == old(out)@ + self.json_fields(),
    {
        put_str(out, ",\"fields\":{");
        let ghost head = out@;
        let n = self.fields.len();
        let mut i: usize = 0;
        assert(self.fields@.take(0) =~= Seq::<(Seq<char>, LogValue)>::empty());
        assert(out@ =~= head + members_json(self.fields@.take(0)));
        while i < n
            invariant
                i <= n,
                n == self.fields@.len(),
                out@ == head + members_json(self.fields@.take(i as int)),
            decreases n - i,
        {
            let ghost before = out@;
            if i > 0 {
                out.push(0x2c);
            }
            put_quoted_str(out, self.fields.key_at(i));
            out.push(0x3a);
            self.fields.value_at(i).write_json(out);
            i += 1;
            proof {
                let now = self.fields@.take(i as int);
                assert(now.drop_last() =~= self.fields@.take(i - 1));
                assert(now.last() == self.fields@[i - 1]);
                if i > 1 {
                    assert(out@ =~= before + seq![0x2cu8] + member_json(now.last()));
                } else {
                    assert(out@ =~= before + member_json(now.last()));
                }
                assert(out@ =~= head + members_json(now));
            }
        }
        assert(self.fields@.take(n as int) =~= self.fields@);
        out.push(0x7d);
        assert(out@ =~= old(out)@ + self.json_fields());
    }

    fn write_ids(&self, out: &mut Vec<u8>)
        ensures
            final(out)@ == old(out)@ + self.json_ids(),
    {
        match self.trace_id {
            Some(id) => {
                put_str(out, ",\"trace_id\":\"");
                put_hex(out, id.0, 32);
                out.push(0x22);
            },
            None => {},
        }
        match self.span_id {
            Some(id) => {
                put_str(out, ",\"span_id\":\"");
                put_hex(out, id.0 as u128, 16);
                out.push(0x22);
            },
            None => {},
        }
        assert(out@ =~= old(out)@ + self.json_ids());
    }

    fn write_tail(&self, out: &mut Vec<u8>)
        ensures
            final(out)@ == old(out)@ + self.json_tail(),
    {
        put_str(out, ",\"sequence\":");
        put_u64(out, self.sequence);
        out.push(0x7d);
        assert(out@ =~= old(out)@ + self.json_tail());
    }

    /// The estimate of the bytes that the record holds, at most `usize::MAX`.
    pub fn memory_size(&self) -> (r: usize)
        ensures
            r == capped(self.size()),
    {
        let mut total: usize = RECORD_OVERHEAD;
        let mut exact: bool = true;
        let n = self.fields.len();
        let mut i: usize = 0;
        let ghost mut sum: int = RECORD_OVERHEAD as int;
        assert(self.fields@.take(0) =~= Seq::<(Seq<char>, LogValue)>::empty());
        while i < n
            invariant
                i <= n,
                n == self.fields@.len(),
                sum == RECORD_OVERHEAD + fields_size(self.fields@.take(i as int)),
                tracks(total, exact, sum),
            decreases n - i,
        {
            let key = self.fields.key_at(i).as_bytes().len();
            let value = self.fields.value_at(i).memory_size();
            let (t, e) = grow(total, exact, key, Ghost(sum));
            let (t, e) = grow(t, e, value, Ghost(sum + key));
            proof {
                let now = self.fields@.take(i + 1);
                assert(now.drop_last() =~= self.fields@.take(i as int));
                assert(now.last() == self.fields@[i as int]);
                sum = sum + key + value;
            }
            total = t;
            exact = e;
            i += 1;
        }
        assert(self.fields@.take(n as int) =~= self.fields@);
        let service = self.service.as_str().as_bytes().len();
        let message = self.message.as_str().as_bytes().len();
        let trace: usize = if self.trace_id.is_some() {
            16
        } else {
            0
        };
        let span: usize = if self.span_id.is_some() {
            8
        } else {
            0
        };
        let location = match &self.location {
            Some(l) => l.as_str().as_bytes().len(),
            None => 0,
        };
        let (t, e) = grow(total, exact, service, Ghost(sum));
        let (t, e) = grow(t, e, message, Ghost(sum + service));
        let (t, e) = grow(t, e, trace, Ghost(sum + service + message));
        let (t, e) = grow(t, e, span, Ghost(sum + service + message + trace));
        let (t, e) = grow(t, e, location, Ghost(sum + service + message + trace + span));
        t
    }
}

/// A size cut to the range of `usize`.
pub open spec fn capped(size: nat) -> usize {
    if size <= usize::MAX {
        size as usize
    } else {
        usize::MAX
    }
}

/// `total` is `sum` while `exact`; once `sum` has left the range of `usize`, `total`
/// stays at the top of the range.
spec fn tracks(total: usize, exact: bool, sum: int) -> bool {
    &&& sum >= 0
    &&& total == capped(sum as nat)
    &&& exact <==> sum <= usize::MAX
}

/// Adds `more` to a running total that stops at `usize::MAX`.
fn grow(total: usize, exact: bool, more: usize, Ghost(sum): Ghost<int>) -> (r: (usize, bool))
    requires
        tracks(total, exact, sum),
    ensures
        tracks(r.0, r.1, sum + more),
{
    if !exact {
        (usize::MAX, false)
    } else {
        match total.checked_add(more) {
            Some(t) => (t, true),
            None => (usize::MAX, false),
        }
    }
}

/// Appends `n` in decimal.
pub fn push_decimal(text: &mut String, n: u64)
    ensures
        final(text)@ == old(text)@ + decimal_text(n as nat),
    decreases n,
{
    if n >= 10 {
        push_decimal(text, n / 10);
    }
    text.append(crate::trace::hex_digit_str((n % 10) as u8));
    assert(text@ =~= old(text)@ + decimal_text(n as nat));
}

} // verus!
