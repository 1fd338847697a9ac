//! What goes over each transport: the framing of a batch, the retry policy, and the
//! decision after each send attempt. The sending itself is the caller's.

use crate::config::TransportConfig;
use crate::error::LoggingError;
use crate::json::{decimal, put_bytes, put_str, put_u64};
use vstd::prelude::*;
use vstd::string::*;

verus! {

/// The four bytes of `n`, most significant first.
pub open spec fn be32(n: nat) -> Seq<u8> {
    seq![
        ((n / 0x100_0000) % 0x100) as u8,
        ((n / 0x1_0000) % 0x100) as u8,
        ((n / 0x100) % 0x100) as u8,
        (n % 0x100) as u8,
    ]
}

/// The number that four bytes stand for, most significant first.
pub open spec fn from_be32(bytes: Seq<u8>) -> nat {
    (bytes[0] as nat) * 0x100_0000 + (bytes[1] as nat) * 0x1_0000 + (bytes[2] as nat) * 0x100
        + bytes[3] as nat
}

/// A framed batch: the length of the payload in four bytes, then the payload.
pub open spec fn framed(payload: Seq<u8>) -> Seq<u8> {
    be32(payload.len()) + payload
}

/// Reading the four bytes of a number gives the number back.
pub proof fn lemma_be32_round_trip(n: nat)
    requires
        n <= u32::MAX,
    ensures
        from_be32(be32(n)) == n,
        be32(n).len() == 4,
{
}

/// Frames `payload`. A payload that is longer than four bytes can count is refused.
pub fn encode_frame(payload: &[u8]) -> (r: Result<Vec<u8>, LoggingError>)
    ensures
        r is Ok <==> payload@.len() <= u32::MAX,
        r matches Ok(frame) ==> frame@ == framed(payload@),
        r matches Err(e) ==> e is TransportError,
{
    if payload.len() > 0xffff_ffff {
        return Err(
            LoggingError::TransportError(String::from_str("Payload is too long for a frame")),
        );
    }
    let n = payload.len();
    let mut frame: Vec<u8> = Vec::new();
    frame.push(((n / 0x100_0000) % 0x100) as u8);
    frame.push(((n / 0x1_0000) % 0x100) as u8);
    frame.push(((n / 0x100) % 0x100) as u8);
    frame.push((n % 0x100) as u8);
    assert(frame@ =~= be32(n as nat));
    put_bytes(&mut frame, payload);
    Ok(frame)
}

/// Reads one frame from the front of `bytes`: the payload and the number of bytes that
/// the frame took. Nothing comes back while the frame is not complete.
pub fn decode_frame(bytes: &[u8]) -> (r: Option<(Vec<u8>, usize)>)
    ensures
        r is Some <==> bytes@.len() >= 4 && bytes@.len() - 4 >= from_be32(bytes@.take(4)),
        r matches Some((payload, used)) ==> used == 4 + payload@.len() && payload@.len()
            == from_be32(bytes@.take(4)) && payload@ == bytes@.subrange(4, used as int),
{
    if bytes.len() < 4 {
        return None;
    }
    let n: u64 = (bytes[0] as u64) * 0x100_0000 + (bytes[1] as u64) * 0x1_0000 + (
    bytes[2] as u64) * 0x100 + bytes[3] as u64;
    if ((bytes.len() - 4) as u64) < n {
        return None;
    }
    let length = n as usize;
    let mut payload: Vec<u8> = Vec::new();
    let mut i: usize = 0;
    while i < length
        invariant
            i <= length,
            4 + length <= bytes@.len() <= usize::MAX,
            payload@ == bytes@.subrange(4, 4 + i),
        decreases length - i,
    {
        payload.push(bytes[4 + i]);
        i += 1;
        assert(bytes@.subrange(4, 4 + i) =~= bytes@.subrange(4, 4 + i - 1).push(
            bytes@[4 + i - 1],
        ));
    }
    Some((payload, 4 + length))
}

/// A frame that was written is read back as the payload it was written for, whatever
/// follows it.
pub proof fn lemma_frame_round_trip(payload: Seq<u8>, rest: Seq<u8>)
    requires
        payload.len() <= u32::MAX,
    ensures
        from_be32((framed(payload) + rest).take(4)) == payload.len(),
        (framed(payload) + rest).subrange(4, 4 + payload.len() as int) == payload,
{
    let all = framed(payload) + rest;
    assert(all.take(4) =~= be32(payload.len()));
    assert(all.subrange(4, 4 + payload.len() as int) =~= payload);
}

/// `base` to the power `exponent`.
pub open spec fn power(base: nat, exponent: nat) -> nat
    decreases exponent,
{
    if exponent == 0 {
        1
    } else {
        base * power(base, (exponent - 1) as nat)
    }
}

/// When to try again after a send has failed.
#[derive(Debug, Clone, Copy, PartialEq, Eq, Structural)]
pub struct RetryPolicy {
    /// How often a failed send is tried again.
    pub retry_attempts: usize,
    /// The delay before the first retry, in milliseconds.
    pub retry_delay_ms: u64,
    /// By how much the delay grows from one retry to the next.
    pub backoff_factor: u64,
    /// The longest delay, in milliseconds.
    pub max_retry_delay_ms: u64,
}

impl RetryPolicy {
    /// The delay before retry number `retry`, counted from zero: the first delay times
    /// the factor to the power of `retry`, but no more than the longest delay.
    pub open spec fn delay_spec(self, retry: nat) -> nat {
        let grown = self.retry_delay_ms as nat * power(self.backoff_factor as nat, retry);
        if grown <= self.max_retry_delay_ms {
            grown
        } else {
            self.max_retry_delay_ms as nat
        }
    }

    /// The delay before retry number `retry`, counted from zero, in milliseconds.
    pub fn delay(&self, retry: usize) -> (r: u64)
        ensures
            r == self.delay_spec(retry as nat),
            r <= self.max_retry_delay_ms,
    {
        let max = self.max_retry_delay_ms;
        let factor = self.backoff_factor;
        let mut current: u64 = if self.retry_delay_ms <= max {
            self.retry_delay_ms
        } else {
            max
        };
        let mut k: usize = 0;
        let ghost first = self.retry_delay_ms as nat;
        assert(first * power(factor as nat, 0) == first) by (nonlinear_arith)
            requires
                power(factor as nat, 0) == 1,
        ;
        while k < retry
            invariant
                k <= retry,
                max == self.max_retry_delay_ms,
                factor == self.backoff_factor,
                first == self.retry_delay_ms,
                current == self.delay_spec(k as nat),
            decreases retry - k,
        {
            let ghost grown = first * power(factor as nat, k as nat);
            proof {
                assert(first * power(factor as nat, (k + 1) as nat) == grown * factor)
                    by (nonlinear_arith)
                    requires
                        grown == first * power(factor as nat, k as nat),
                        power(factor as nat, (k + 1) as nat) == factor * power(
                            factor as nat,
                            k as nat,
                        ),
                ;
                if grown > max {
                    if factor >= 1 {
                        assert(grown * factor >= grown) by (nonlinear_arith)
                            requires
                                factor >= 1,
                                grown >= 0,
                        ;
                        assert(max * factor >= max) by (nonlinear_arith)
                            requires
                                factor >= 1,
                                max >= 0,
                        ;
                    } else {
                        assert(grown * factor == 0) by (nonlinear_arith)
                            requires
                                factor == 0,
                        ;
                    }
                }
            }
            current = match current.checked_mul(factor) {
                Some(next) => if next <= max {
                    next
                } else {
                    max
                },
                None => max,
            };
            k += 1;
        }
        current
    }
}

/// How a send attempt ended.
pub enum SendOutcome {
    Delivered,
    Failed(LoggingError),
}

/// What to do after a send attempt.
#[derive(Debug, Clone, Copy, PartialEq, Eq, Structural)]
pub enum RetryDecision {
    /// The batch was taken: count its records as logged.
    Done,
    /// Send the batch again after this many milliseconds.
    RetryAfter(u64),
    /// Every retry was used up: count the records as dropped.
    Exhausted,
    /// The error cannot be recovered from: count the records as dropped and mark the
    /// transport as degraded.
    Fatal,
}

/// The course of sending one batch over one transport.
#[derive(Debug, Clone, Copy, PartialEq, Eq, Structural)]
pub struct RetryState {
    pub policy: RetryPolicy,
    /// The number of send attempts that have failed so far.
    pub failures: usize,
}

impl RetryState {
    /// The decision after an attempt that ended in `outcome`, when `failures` attempts
    /// had failed before it.
    pub open spec fn decision(policy: RetryPolicy, failures: usize, outcome: SendOutcome)
        -> RetryDecision {
        match outcome {
            SendOutcome::Delivered => RetryDecision::Done,
            SendOutcome::Failed(e) => if !e.recoverable() {
                RetryDecision::Fatal
            } else if failures >= policy.retry_attempts {
                RetryDecision::Exhausted
            } else {
                RetryDecision::RetryAfter(policy.delay_spec(failures as nat) as u64)
            },
        }
    }

    /// The state before the first attempt.
    pub fn new(policy: RetryPolicy) -> (r: Self)
        ensures
            r.policy == policy,
            r.failures == 0,
    {
        RetryState { policy, failures: 0 }
    }

    /// Takes the outcome of a send attempt and says what to do next. Every failed
    /// attempt is counted.
    pub fn on_outcome(&mut self, outcome: SendOutcome) -> (r: RetryDecision)
        requires
            old(self).failures < usize::MAX,
        ensures
            final(self).policy == old(self).policy,
            r == Self::decision(old(self).policy, old(self).failures, outcome),
            final(self).failures == if outcome is Failed {
                (old(self).failures + 1) as usize
            } else {
                old(self).failures
            },
    {
        match outcome {
            SendOutcome::Delivered => RetryDecision::Done,
            SendOutcome::Failed(e) => {
                let before = self.failures;
                self.failures = before + 1;
                if !e.is_recoverable() {
                    RetryDecision::Fatal
                } else if before >= self.policy.retry_attempts {
                    RetryDecision::Exhausted
                } else {
                    RetryDecision::RetryAfter(self.policy.delay(before))
                }
            },
        }
    }
}

/// The transports.
#[derive(Debug, Clone, Copy, PartialEq, Eq, Structural)]
pub enum TransportKind {
    Stdout,
    Console,
    File,
    Redis,
    Tcp,
    Udp,
    Kafka,
}

/// The transport that a name stands for, if it names one.
pub open spec fn transport_named(name: Seq<char>) -> Option<TransportKind> {
    if name == "file"@ {
        Some(TransportKind::File)
    } else if name == "kafka"@ {
        Some(TransportKind::Kafka)
    } else if name == "redis"@ {
        Some(TransportKind::Redis)
    } else if name == "tcp"@ {
        Some(TransportKind::Tcp)
    } else if name == "udp"@ {
        Some(TransportKind::Udp)
    } else if name == "stdout"@ {
        Some(TransportKind::Stdout)
    } else if name == "console"@ {
        Some(TransportKind::Console)
    } else {
        None
    }
}

impl TransportKind {
    /// The transport that `name` stands for, if it names one.
    pub fn parse(name: &str) -> (r: Option<TransportKind>)
        ensures
            r == transport_named(name@),
    {
        if name.eq("file") {
            Some(TransportKind::File)
        } else if name.eq("kafka") {
            Some(TransportKind::Kafka)
        } else if name.eq("redis") {
            Some(TransportKind::Redis)
        } else if name.eq("tcp") {
            Some(TransportKind::Tcp)
        } else if name.eq("udp") {
            Some(TransportKind::Udp)
        } else if name.eq("stdout") {
            Some(TransportKind::Stdout)
        } else if name.eq("console") {
            Some(TransportKind::Console)
        } else {
            None
        }
    }

    /// True for the transports that reach their other end over a network.
    pub open spec fn needs_endpoint(self) -> bool {
        self is Redis || self is Tcp || self is Udp || self is Kafka
    }
}

/// A Redis `PUBLISH` of `payload` on `channel`, as the protocol writes it: an array of
/// three bulk strings.
pub open spec fn publish_command(channel: Seq<u8>, payload: Seq<u8>) -> Seq<u8> {
    "*3\r\n$7\r\nPUBLISH\r\n$".spec_bytes() + decimal(channel.len()) + "\r\n".spec_bytes()
        + channel + "\r\n$".spec_bytes() + decimal(payload.len()) + "\r\n".spec_bytes() + payload
        + "\r\n".spec_bytes()
}

/// What a transport of `kind` writes for `payload`: a frame on TCP and UDP, a `PUBLISH`
/// on Redis, the payload itself everywhere else.
pub open spec fn wire_format(kind: TransportKind, channel: Seq<u8>, payload: Seq<u8>) -> Seq<
    u8,
> {
    match kind {
        TransportKind::Tcp | TransportKind::Udp => framed(payload),
        TransportKind::Redis => publish_command(channel, payload),
        _ => payload,
    }
}

/// What a transport of `kind` writes for `payload`. Only a frame can fail: when the
/// payload is longer than four bytes can count.
pub fn wire_bytes(kind: TransportKind, channel: &str, payload: &[u8]) -> (r: Result<
    Vec<u8>,
    LoggingError,
>)
    ensures
        r is Ok <==> !((kind is Tcp || kind is Udp) && payload@.len() > u32::MAX),
        r matches Ok(bytes) ==> bytes@ == wire_format(kind, channel.spec_bytes(), payload@),
        r matches Err(e) ==> e is TransportError,
{
    match kind {
        TransportKind::Tcp => encode_frame(payload),
        TransportKind::Udp => encode_frame(payload),
        TransportKind::Redis => {
            let mut out: Vec<u8> = Vec::new();
            put_str(&mut out, "*3\r\n$7\r\nPUBLISH\r\n$");
            put_u64(&mut out, channel.as_bytes().len() as u64);
            put_str(&mut out, "\r\n");
            put_str(&mut out, channel);
            put_str(&mut out, "\r\n$");
            put_u64(&mut out, payload.len() as u64);
            put_str(&mut out, "\r\n");
            put_bytes(&mut out, payload);
            put_str(&mut out, "\r\n");
            assert(out@ =~= publish_command(channel.spec_bytes(), payload@));
            Ok(out)
        },
        _ => {
            let mut out: Vec<u8> = Vec::new();
            put_bytes(&mut out, payload);
            assert(out@ =~= payload@);
            Ok(out)
        },
    }
}

/// When a file is closed and a new one is started.
#[derive(Debug, Clone, Copy, PartialEq, Eq, Structural)]
pub struct RotationPolicy {
    /// The most bytes that a file may hold; zero for no limit.
    pub max_file_bytes: u64,
    /// The longest time that a file is written to, in microseconds; zero for no limit.
    pub max_age_micros: u64,
    /// The number of closed files that are kept.
    pub retained_files: usize,
    /// Whether closed files are compressed.
    pub compress_rotated: bool,
}

/// The file that is written to.
#[derive(Debug, Clone, Copy, PartialEq, Eq, Structural)]
pub struct FileState {
    pub size_bytes: u64,
    pub opened_at_micros: u64,
}

impl RotationPolicy {
    /// Whether the file is closed before `payload_len` bytes are written at the time
    /// `now_micros`: the bytes would take a file that holds something over its limit, or
    /// the file has been written to for longer than it may.
    pub open spec fn due(self, state: FileState, payload_len: u64, now_micros: u64) -> bool {
        ||| (self.max_file_bytes > 0 && state.size_bytes > 0 && state.size_bytes + payload_len
            > self.max_file_bytes)
        ||| (self.max_age_micros > 0 && now_micros >= state.opened_at_micros && now_micros
            - state.opened_at_micros > self.max_age_micros)
    }

    /// Decides whether the file is closed first, and counts the bytes that are then
    /// written. True means: close the file, shift the closed files, start a new one.
    pub fn before_append(&self, state: &mut FileState, payload_len: u64, now_micros: u64) -> (r:
        bool)
        ensures
            r == self.due(*old(state), payload_len, now_micros),
            *final(state) == if r {
                FileState { size_bytes: payload_len, opened_at_micros: now_micros }
            } else {
                FileState {
                    size_bytes: if old(state).size_bytes + payload_len > u64::MAX {
                        u64::MAX
                    } else {
                        (old(state).size_bytes + payload_len) as u64
                    },
                    opened_at_micros: old(state).opened_at_micros,
                }
            },
    {
        let over = self.max_file_bytes > 0 && state.size_bytes > 0 && (match state.size_bytes.checked_add(
            payload_len,
        ) {
            Some(sum) => sum > self.max_file_bytes,
            None => true,
        });
        let old_enough = self.max_age_micros > 0 && now_micros >= state.opened_at_micros
            && now_micros - state.opened_at_micros > self.max_age_micros;
        if over || old_enough {
            state.size_bytes = payload_len;
            state.opened_at_micros = now_micros;
            true
        } else {
            state.size_bytes = state.size_bytes.saturating_add(payload_len);
            false
        }
    }

    /// Whether the closed file number `index`, counted from one for the newest, is kept.
    pub fn keeps(&self, index: usize) -> (r: bool)
        ensures
            r == (1 <= index <= self.retained_files),
    {
        1 <= index && index <= self.retained_files
    }
}

/// The name of the closed file number `index` of the file `path`: the path, a dot, the
/// number, and `.gz` where closed files are compressed.
pub open spec fn rotated_name_spec(path: Seq<char>, index: usize, compressed: bool) -> Seq<char> {
    path + seq!['.'] + crate::record::decimal_text(index as nat) + if compressed {
        ".gz"@
    } else {
        Seq::<char>::empty()
    }
}

/// The name of the closed file number `index` of the file `path`.
pub fn rotated_name(path: &str, index: usize, compressed: bool) -> (r: String)
    ensures
        r@ == rotated_name_spec(path@, index, compressed),
{
    proof {
        reveal_strlit(".");
    }
    let mut name = String::from_str(path);
    name.append(".");
    crate::record::push_decimal(&mut name, index as u64);
    if compressed {
        name.append(".gz");
    }
    assert(name@ =~= rotated_name_spec(path@, index, compressed));
    name
}

/// Writes lines to a file.
pub struct FileTransport {
    config: TransportConfig,
}

pub struct KafkaTransport {
    config: TransportConfig,
}

/// Publishes batches on a Redis channel.
pub struct RedisTransport {
    config: TransportConfig,
}

/// Sends framed batches over TCP.
pub struct TcpTransport {
    config: TransportConfig,
}

/// Sends framed batches over UDP.
pub struct UdpTransport {
    config: TransportConfig,
}

/// Writes lines to the standard output.
pub struct StdoutTransport;

/// A copy of `config`.
pub fn copy_config(config: &TransportConfig) -> (r: TransportConfig)
    requires
        config.connection.options.wf(),
    ensures
        r.transport_type@ == config.transport_type@,
        r.connection.host@ == config.connection.host@,
        r.connection.port == config.connection.port,
        r.connection.username is Some == config.connection.username is Some,
        r.connection.password is Some == config.connection.password is Some,
        r.connection.options.wf(),
        r.connection.options@.len() == config.connection.options@.len(),
        forall|i: int|
            0 <= i < r.connection.options@.len() ==> (#[trigger] r.connection.options@[i]).0
                == config.connection.options@[i].0 && r.connection.options@[i].1@
                == config.connection.options@[i].1@,
{
    let mut options: crate::string_map::StringMap<String> = crate::string_map::StringMap::new();
    let n = config.connection.options.len();
    let mut i: usize = 0;
    while i < n
        invariant
            i <= n,
            n == config.connection.options@.len(),
            config.connection.options.wf(),
            options.wf(),
            options@.len() == i,
            forall|j: int|
                0 <= j < i ==> (#[trigger] options@[j]).0 == config.connection.options@[j].0
                    && options@[j].1@ == config.connection.options@[j].1@,
        decreases n - i,
    {
        let key = String::from_str(config.connection.options.key_at(i));
        let value = config.connection.options.value_at(i).clone();
        proof {
            let source = config.connection.options@;
            if crate::string_map::has_key(options@, key@) {
                let at = crate::string_map::key_index(options@, key@);
                assert(options@[at].0 == source[at].0);
                assert(source[at].0 != source[i as int].0);
            }
        }
        options.insert(key, value);
        i += 1;
    }
    TransportConfig {
        transport_type: config.transport_type.clone(),
        connection: crate::config::ConnectionConfig {
            host: config.connection.host.clone(),
            port: config.connection.port,
            username: config.connection.username.clone(),
            password: config.connection.password.clone(),
            options,
        },
    }
}

impl FileTransport {
    /// The host that the transport was made for.
    pub closed spec fn host(&self) -> Seq<char> {
        self.config.connection.host@
    }

    /// The port that the transport was made for.
    pub closed spec fn port(&self) -> u16 {
        self.config.connection.port
    }

    /// A transport for the other end that `config` names.
    pub fn new(config: &TransportConfig) -> (r: Result<Self, LoggingError>)
        requires
            config.connection.options.wf(),
        ensures
            r is Ok,
            r->Ok_0.host() == config.connection.host@,
            r->Ok_0.port() == config.connection.port,
    {
        Ok(FileTransport { config: copy_config(config) })
    }

    /// The host and the port of the other end.
    pub fn endpoint(&self) -> (r: (&str, u16))
        ensures
            r.0@ == self.host(),
            r.1 == self.port(),
    {
        (self.config.connection.host.as_str(), self.config.connection.port)
    }
}

impl KafkaTransport {
    /// The host that the transport was made for.
    pub closed spec fn host(&self) -> Seq<char> {
        self.config.connection.host@
    }

    /// The port that the transport was made for.
    pub closed spec fn port(&self) -> u16 {
        self.config.connection.port
    }

    /// A transport for the other end that `config` names.
    pub fn new(config: &TransportConfig) -> (r: Result<Self, LoggingError>)
        requires
            config.connection.options.wf(),
        ensures
            r is Ok,
            r->Ok_0.host() == config.connection.host@,
            r->Ok_0.port() == config.connection.port,
    {
        Ok(KafkaTransport { config: copy_config(config) })
    }

    /// The host and the port of the other end.
    pub fn endpoint(&self) -> (r: (&str, u16))
        ensures
            r.0@ == self.host(),
            r.1 == self.port(),
    {
        (self.config.connection.host.as_str(), self.config.connection.port)
    }
}

impl RedisTransport {
    /// The host that the transport was made for.
    pub closed spec fn host(&self) -> Seq<char> {
        self.config.connection.host@
    }

    /// The port that the transport was made for.
    pub closed spec fn port(&self) -> u16 {
        self.config.connection.port
    }

    /// A transport for the other end that `config` names.
    pub fn new(config: &TransportConfig) -> (r: Result<Self, LoggingError>)
        requires
            config.connection.options.wf(),
        ensures
            r is Ok,
            r->Ok_0.host() == config.connection.host@,
            r->Ok_0.port() == config.connection.port,
    {
        Ok(RedisTransport { config: copy_config(config) })
    }

    /// The host and the port of the other end.
    pub fn endpoint(&self) -> (r: (&str, u16))
        ensures
            r.0@ == self.host(),
            r.1 == self.port(),
    {
        (self.config.connection.host.as_str(), self.config.connection.port)
    }
}

impl TcpTransport {
    /// The host that the transport was made for.
    pub closed spec fn host(&self) -> Seq<char> {
        self.config.connection.host@
    }

    /// The port that the transport was made for.
    pub closed spec fn port(&self) -> u16 {
        self.config.connection.port
    }

    /// A transport for the other end that `config` names.
    pub fn new(config: &TransportConfig) -> (r: Result<Self, LoggingError>)
        requires
            config.connection.options.wf(),
        ensures
            r is Ok,
            r->Ok_0.host() == config.connection.host@,
            r->Ok_0.port() == config.connection.port,
    {
        Ok(TcpTransport { config: copy_config(config) })
    }

    /// The host and the port of the other end.
    pub fn endpoint(&self) -> (r: (&str, u16))
        ensures
            r.0@ == self.host(),
            r.1 == self.port(),
    {
        (self.config.connection.host.as_str(), self.config.connection.port)
    }
}

impl UdpTransport {
    /// The host that the transport was made for.
    pub closed spec fn host(&self) -> Seq<char> {
        self.config.connection.host@
    }

    /// The port that the transport was made for.
    pub closed spec fn port(&self) -> u16 {
        self.config.connection.port
    }

    /// A transport for the other end that `config` names.
    pub fn new(config: &TransportConfig) -> (r: Result<Self, LoggingError>)
        requires
            config.connection.options.wf(),
        ensures
            r is Ok,
            r->Ok_0.host() == config.connection.host@,
            r->Ok_0.port() == config.connection.port,
    {
        Ok(UdpTransport { config: copy_config(config) })
    }

    /// The host and the port of the other end.
    pub fn endpoint(&self) -> (r: (&str, u16))
        ensures
            r.0@ == self.host(),
            r.1 == self.port(),
    {
        (self.config.connection.host.as_str(), self.config.connection.port)
    }
}

impl StdoutTransport {
    pub fn new() -> (r: Self) {
        StdoutTransport
    }
}

/// Any one of the transports.
pub enum AnyTransport {
    File(FileTransport),
    Kafka(KafkaTransport),
    Redis(RedisTransport),
    Tcp(TcpTransport),
    Udp(UdpTransport),
    Stdout(StdoutTransport),
    Console(StdoutTransport),
}

impl AnyTransport {
    /// Which transport this is.
    pub open spec fn kind(&self) -> TransportKind {
        match self {
            AnyTransport::File(_) => TransportKind::File,
            AnyTransport::Kafka(_) => TransportKind::Kafka,
            AnyTransport::Redis(_) => TransportKind::Redis,
            AnyTransport::Tcp(_) => TransportKind::Tcp,
            AnyTransport::Udp(_) => TransportKind::Udp,
            AnyTransport::Stdout(_) => TransportKind::Stdout,
            AnyTransport::Console(_) => TransportKind::Console,
        }
    }

    /// Which transport this is.
    pub fn transport_kind(&self) -> (r: TransportKind)
        ensures
            r == self.kind(),
    {
        match self {
            AnyTransport::File(_) => TransportKind::File,
            AnyTransport::Kafka(_) => TransportKind::Kafka,
            AnyTransport::Redis(_) => TransportKind::Redis,
            AnyTransport::Tcp(_) => TransportKind::Tcp,
            AnyTransport::Udp(_) => TransportKind::Udp,
            AnyTransport::Stdout(_) => TransportKind::Stdout,
            AnyTransport::Console(_) => TransportKind::Console,
        }
    }
}

/// The transport that the configuration names. A name that stands for no transport is
/// refused.
pub fn create_transport(config: &TransportConfig) -> (r: Result<AnyTransport, LoggingError>)
    requires
        config.connection.options.wf(),
    ensures
        match r {
            Ok(transport) => transport_named(config.transport_type@) == Some(transport.kind()),
            Err(e) => transport_named(config.transport_type@) is None && e is TransportError,
        },
{
    match TransportKind::parse(config.transport_type.as_str()) {
        Some(TransportKind::File) => match FileTransport::new(config) {
            Ok(t) => Ok(AnyTransport::File(t)),
            Err(e) => Err(e),
        },
        Some(TransportKind::Kafka) => match KafkaTransport::new(config) {
            Ok(t) => Ok(AnyTransport::Kafka(t)),
            Err(e) => Err(e),
        },
        Some(TransportKind::Redis) => match RedisTransport::new(config) {
            Ok(t) => Ok(AnyTransport::Redis(t)),
            Err(e) => Err(e),
        },
        Some(TransportKind::Tcp) => match TcpTransport::new(config) {
            Ok(t) => Ok(AnyTransport::Tcp(t)),
            Err(e) => Err(e),
        },
        Some(TransportKind::Udp) => match UdpTransport::new(config) {
            Ok(t) => Ok(AnyTransport::Udp(t)),
            Err(e) => Err(e),
        },
        Some(TransportKind::Stdout) => Ok(AnyTransport::Stdout(StdoutTransport::new())),
        Some(TransportKind::Console) => Ok(AnyTransport::Console(StdoutTransport::new())),
        None => Err(
            LoggingError::TransportError(
                String::from_str("Unknown transport type: ").concat(
                    config.transport_type.as_str(),
                ),
            ),
        ),
    }
}

} // verus!
