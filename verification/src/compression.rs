//! Compression of serialized batches: the codecs, the choice between the compressed and
//! the plain payload, and a buffer that compresses what it has gathered.

use crate::error::LoggingError;
use crate::level::lowercased;
use std::io::{Read, Write};
use vstd::prelude::*;
use vstd::slice::slice_to_vec;
use vstd::string::*;

verus! {

/// The codecs.
#[derive(Debug, Clone, Copy, PartialEq, Eq, Structural)]
pub enum CompressionType {
    /// The bytes stay as they are.
    NoCompression,
    Gzip,
    Zstd,
    Lz4,
    Snappy,
}

/// The codec that a lower-case name stands for, if it names one.
pub open spec fn codec_named(name: Seq<char>) -> Option<CompressionType> {
    if name == "none"@ {
        Some(CompressionType::NoCompression)
    } else if name == "gzip"@ {
        Some(CompressionType::Gzip)
    } else if name == "zstd"@ {
        Some(CompressionType::Zstd)
    } else if name == "lz4"@ {
        Some(CompressionType::Lz4)
    } else if name == "snappy"@ {
        Some(CompressionType::Snappy)
    } else {
        None
    }
}

impl CompressionType {
    /// The name of the codec.
    pub open spec fn name(self) -> Seq<char> {
        match self {
            CompressionType::NoCompression => "none"@,
            CompressionType::Gzip => "gzip"@,
            CompressionType::Zstd => "zstd"@,
            CompressionType::Lz4 => "lz4"@,
            CompressionType::Snappy => "snappy"@,
        }
    }

    /// The codec that `s` names once it is in lower case.
    pub fn from_lowercase(s: &str) -> (r: Option<CompressionType>)
        ensures
            r == codec_named(s@),
    {
        if s.eq("none") {
            Some(CompressionType::NoCompression)
        } else if s.eq("gzip") {
            Some(CompressionType::Gzip)
        } else if s.eq("zstd") {
            Some(CompressionType::Zstd)
        } else if s.eq("lz4") {
            Some(CompressionType::Lz4)
        } else if s.eq("snappy") {
            Some(CompressionType::Snappy)
        } else {
            None
        }
    }

    /// The codec that `s` names, whatever the case of its letters.
    pub fn from_str(s: &str) -> (r: Result<CompressionType, LoggingError>)
        ensures
            match r {
                Ok(kind) => codec_named(lowercased(s@)) == Some(kind),
                Err(e) => codec_named(lowercased(s@)) is None && e is CompressionError
                    && e->CompressionError_0@ == "Unknown compression type: "@ + s@,
            },
    {
        let lower = s.to_lowercase();
        match CompressionType::from_lowercase(lower.as_str()) {
            Some(kind) => Ok(kind),
            None => Err(
                LoggingError::CompressionError(
                    String::from_str("Unknown compression type: ").concat(s),
                ),
            ),
        }
    }

    pub fn as_str(&self) -> (r: &'static str)
        ensures
            r@ == self.name(),
    {
        match self {
            CompressionType::NoCompression => "none",
            CompressionType::Gzip => "gzip",
            CompressionType::Zstd => "zstd",
            CompressionType::Lz4 => "lz4",
            CompressionType::Snappy => "snappy",
        }
    }
}

/// What `flate2`'s gzip encoder writes for `data` at its fastest level; nothing where
/// it fails.
pub uninterp spec fn gzip_encoding(data: Seq<u8>) -> Option<Seq<u8>>;

/// What `flate2`'s gzip decoder reads out of `data`; nothing where it fails.
pub uninterp spec fn gzip_decoding(data: Seq<u8>) -> Option<Seq<u8>>;

/// What `zstd::bulk::compress` returns for `data` at `level`; nothing where it fails.
pub uninterp spec fn zstd_encoding(data: Seq<u8>, level: i32) -> Option<Seq<u8>>;

/// What `zstd::stream::decode_all` reads out of `data`; nothing where it fails.
pub uninterp spec fn zstd_decoding(data: Seq<u8>) -> Option<Seq<u8>>;

/// What `lz4_flex::compress_prepend_size` returns for `data`.
pub uninterp spec fn lz4_encoding(data: Seq<u8>) -> Seq<u8>;

/// What `lz4_flex::decompress_size_prepended` reads out of `data`; nothing where it
/// fails.
pub uninterp spec fn lz4_decoding(data: Seq<u8>) -> Option<Seq<u8>>;

/// What `snap`'s frame encoder writes for `data`; nothing where it fails.
pub uninterp spec fn snappy_encoding(data: Seq<u8>) -> Option<Seq<u8>>;

/// What `snap`'s frame decoder reads out of `data`; nothing where it fails.
pub uninterp spec fn snappy_decoding(data: Seq<u8>) -> Option<Seq<u8>>;

/// `flate2::write::GzEncoder` at `Compression::fast()`, written to and finished. It
/// succeeds exactly where the gzip encoding of `data` exists; the bytes are then that
/// encoding, and the gzip decoder reads `data` out of them again. The error is handed
/// on as its text.
#[verifier::external_body]
fn gzip_encode(data: &[u8]) -> (r: Result<Vec<u8>, String>)
    ensures
        r matches Ok(c) ==> gzip_encoding(data@) == Some(c@) && gzip_decoding(c@) == Some(data@),
        r is Err ==> gzip_encoding(data@) is None,
{
    let mut encoder = flate2::write::GzEncoder::new(Vec::new(), flate2::Compression::fast());
    match encoder.write_all(data) {
        Ok(()) => match encoder.finish() {
            Ok(bytes) => Ok(bytes),
            Err(e) => Err(e.to_string()),
        },
        Err(e) => Err(e.to_string()),
    }
}

/// `flate2::read::GzDecoder`, read to its end. It succeeds exactly where the gzip decoding
/// of `data` exists, and then returns it.
#[verifier::external_body]
fn gzip_decode(data: &[u8]) -> (r: Result<Vec<u8>, String>)
    ensures
        r matches Ok(d) ==> gzip_decoding(data@) == Some(d@),
        r is Err ==> gzip_decoding(data@) is None,
{
    let mut decoder = flate2::read::GzDecoder::new(data);
    let mut out = Vec::new();
    match decoder.read_to_end(&mut out) {
        Ok(_) => Ok(out),
        Err(e) => Err(e.to_string()),
    }
}

/// `zstd::bulk::compress`. It succeeds exactly where the zstd encoding of `data` at
/// `level` exists; the bytes are then that encoding, and `decode_all` reads `data` out of
/// them again.
#[verifier::external_body]
fn zstd_encode(data: &[u8], level: i32) -> (r: Result<Vec<u8>, String>)
    ensures
        r matches Ok(c) ==> zstd_encoding(data@, level) == Some(c@) && zstd_decoding(c@)
            == Some(data@),
        r is Err ==> zstd_encoding(data@, level) is None,
{
    match zstd::bulk::compress(data, level) {
        Ok(bytes) => Ok(bytes),
        Err(e) => Err(e.to_string()),
    }
}

/// `zstd::stream::decode_all`. It succeeds exactly where the zstd decoding of `data`
/// exists, and then returns it.
#[verifier::external_body]
fn zstd_decode(data: &[u8]) -> (r: Result<Vec<u8>, String>)
    ensures
        r matches Ok(d) ==> zstd_decoding(data@) == Some(d@),
        r is Err ==> zstd_decoding(data@) is None,
{
    match zstd::stream::decode_all(data) {
        Ok(bytes) => Ok(bytes),
        Err(e) => Err(e.to_string()),
    }
}

/// `lz4_flex::compress_prepend_size`. The bytes are the LZ4 encoding of `data`; as the
/// length in front of them has 32 bits, the decoder reads `data` out of them again
/// where `data` is no longer than that.
#[verifier::external_body]
fn lz4_encode(data: &[u8]) -> (c: Vec<u8>)
    ensures
        c@ == lz4_encoding(data@),
        data@.len() <= u32::MAX ==> lz4_decoding(c@) == Some(data@),
{
    lz4_flex::compress_prepend_size(data)
}

/// `lz4_flex::decompress_size_prepended`. It succeeds exactly where the LZ4 decoding of
/// `data` exists, and then returns it.
#[verifier::external_body]
fn lz4_decode(data: &[u8]) -> (r: Result<Vec<u8>, String>)
    ensures
        r matches Ok(d) ==> lz4_decoding(data@) == Some(d@),
        r is Err ==> lz4_decoding(data@) is None,
{
    match lz4_flex::decompress_size_prepended(data) {
        Ok(bytes) => Ok(bytes),
        Err(e) => Err(e.to_string()),
    }
}

/// `snap::write::FrameEncoder`, written to and taken apart. It succeeds exactly where
/// the Snappy frame encoding of `data` exists; the bytes are then that encoding, and the
/// frame decoder reads `data` out of them again.
#[verifier::external_body]
fn snappy_encode(data: &[u8]) -> (r: Result<Vec<u8>, String>)
    ensures
        r matches Ok(c) ==> snappy_encoding(data@) == Some(c@) && snappy_decoding(c@)
            == Some(data@),
        r is Err ==> snappy_encoding(data@) is None,
{
    let mut encoder = snap::write::FrameEncoder::new(Vec::new());
    match encoder.write_all(data) {
        Ok(()) => match encoder.into_inner() {
            Ok(bytes) => Ok(bytes),
            Err(e) => Err(e.to_string()),
        },
        Err(e) => Err(e.to_string()),
    }
}

/// `snap::read::FrameDecoder`, read to its end. It succeeds exactly where the Snappy
/// decoding of `data` exists, and then returns it.
#[verifier::external_body]
fn snappy_decode(data: &[u8]) -> (r: Result<Vec<u8>, String>)
    ensures
        r matches Ok(d) ==> snappy_decoding(data@) == Some(d@),
        r is Err ==> snappy_decoding(data@) is None,
{
    let mut decoder = snap::read::FrameDecoder::new(data);
    let mut out = Vec::new();
    match decoder.read_to_end(&mut out) {
        Ok(_) => Ok(out),
        Err(e) => Err(e.to_string()),
    }
}

/// The bytes that the codec `kind` writes for `data`, and nothing where it writes none;
/// `level` matters to zstd alone. Bytes that are left as they are always come out; LZ4
/// takes what is no longer than 32 bits can count.
pub open spec fn encoded(kind: CompressionType, level: i32, data: Seq<u8>) -> Option<Seq<u8>> {
    match kind {
        CompressionType::NoCompression => Some(data),
        CompressionType::Gzip => gzip_encoding(data),
        CompressionType::Zstd => zstd_encoding(data, level),
        CompressionType::Lz4 => if data.len() <= u32::MAX {
            Some(lz4_encoding(data))
        } else {
            None
        },
        CompressionType::Snappy => snappy_encoding(data),
    }
}

/// The bytes that the codec `kind` reads out of `data`; nothing where `data` is not
/// what the codec writes.
pub open spec fn decoded(kind: CompressionType, data: Seq<u8>) -> Option<Seq<u8>> {
    match kind {
        CompressionType::NoCompression => Some(data),
        CompressionType::Gzip => gzip_decoding(data),
        CompressionType::Zstd => zstd_decoding(data),
        CompressionType::Lz4 => lz4_decoding(data),
        CompressionType::Snappy => snappy_decoding(data),
    }
}

/// A codec. `compress` succeeds exactly where the codec has an encoding of the input,
/// and whatever it returns, `decompress` turns back into the input.
pub trait Compressor {
    /// Which codec this is.
    spec fn kind(&self) -> CompressionType;

    /// The level at which it compresses.
    spec fn level(&self) -> i32;

    fn compress(&self, data: &[u8]) -> (r: Result<Vec<u8>, LoggingError>)
        ensures
            r matches Ok(c) ==> encoded(self.kind(), self.level(), data@) == Some(c@) && decoded(
                self.kind(),
                c@,
            ) == Some(data@),
            r is Err ==> encoded(self.kind(), self.level(), data@) is None,
    ;

    fn decompress(&self, data: &[u8]) -> (r: Result<Vec<u8>, LoggingError>)
        ensures
            r matches Ok(d) ==> decoded(self.kind(), data@) == Some(d@),
            r is Err ==> decoded(self.kind(), data@) is None,
    ;

    fn compression_type(&self) -> (r: CompressionType)
        ensures
            r == self.kind(),
    ;

    /// The size of the output that is expected for JSON logs, in percent of the input.
    fn estimated_ratio_percent(&self) -> (r: u32)
        ensures
            r == expected_ratio_percent(self.kind()),
    ;
}

/// The size of the output that is expected of each codec for JSON logs, in percent of
/// the input.
pub open spec fn expected_ratio_percent(kind: CompressionType) -> u32 {
    match kind {
        CompressionType::NoCompression => 100,
        CompressionType::Gzip => 30,
        CompressionType::Zstd => 25,
        CompressionType::Lz4 => 50,
        CompressionType::Snappy => 40,
    }
}

/// Leaves the bytes as they are.
pub struct NoCompressor;

pub struct GzipCompressor;

pub struct ZstdCompressor {
    level: i32,
}

pub struct Lz4Compressor;

pub struct SnappyCompressor;

impl Compressor for NoCompressor {
    open spec fn kind(&self) -> CompressionType {
        CompressionType::NoCompression
    }

    open spec fn level(&self) -> i32 {
        0
    }

    fn compress(&self, data: &[u8]) -> (r: Result<Vec<u8>, LoggingError>)
        ensures
            r is Ok,
    {
        Ok(slice_to_vec(data))
    }

    fn decompress(&self, data: &[u8]) -> (r: Result<Vec<u8>, LoggingError>)
        ensures
            r is Ok,
    {
        Ok(slice_to_vec(data))
    }

    fn compression_type(&self) -> (r: CompressionType) {
        CompressionType::NoCompression
    }

    fn estimated_ratio_percent(&self) -> (r: u32) {
        100
    }
}

impl GzipCompressor {
    pub fn new() -> (r: Self) {
        GzipCompressor
    }
}

impl Compressor for GzipCompressor {
    open spec fn kind(&self) -> CompressionType {
        CompressionType::Gzip
    }

    open spec fn level(&self) -> i32 {
        1
    }

    fn compress(&self, data: &[u8]) -> (r: Result<Vec<u8>, LoggingError>)
        ensures
            r matches Err(e) ==> e is IoError,
    {
        match gzip_encode(data) {
            Ok(bytes) => Ok(bytes),
            Err(text) => Err(LoggingError::IoError(text)),
        }
    }

    fn decompress(&self, data: &[u8]) -> (r: Result<Vec<u8>, LoggingError>)
        ensures
            r matches Err(e) ==> e is IoError,
    {
        match gzip_decode(data) {
            Ok(bytes) => Ok(bytes),
            Err(text) => Err(LoggingError::IoError(text)),
        }
    }

    fn compression_type(&self) -> (r: CompressionType) {
        CompressionType::Gzip
    }

    fn estimated_ratio_percent(&self) -> (r: u32) {
        30
    }
}

impl ZstdCompressor {
    /// The level that `new` compresses at.
    pub const DEFAULT_LEVEL: i32 = 3;

    /// The level that this codec compresses at.
    pub closed spec fn spec_level(&self) -> i32 {
        self.level
    }

    pub fn new() -> (r: Result<Self, LoggingError>)
        ensures
            r is Ok,
            r->Ok_0.spec_level() == 3,
            r->Ok_0.level() == 3,
    {
        Ok(ZstdCompressor { level: 3 })
    }

    pub fn with_level(level: i32) -> (r: Result<Self, LoggingError>)
        ensures
            r is Ok,
            r->Ok_0.spec_level() == level,
            r->Ok_0.level() == level,
    {
        Ok(ZstdCompressor { level })
    }
}

impl Compressor for ZstdCompressor {
    open spec fn kind(&self) -> CompressionType {
        CompressionType::Zstd
    }

    closed spec fn level(&self) -> i32 {
        self.level
    }

    fn compress(&self, data: &[u8]) -> (r: Result<Vec<u8>, LoggingError>)
        ensures
            r matches Err(e) ==> e is CompressionError,
    {
        match zstd_encode(data, self.level) {
            Ok(bytes) => Ok(bytes),
            Err(text) => Err(LoggingError::CompressionError(text)),
        }
    }

    fn decompress(&self, data: &[u8]) -> (r: Result<Vec<u8>, LoggingError>)
        ensures
            r matches Err(e) ==> e is CompressionError,
    {
        match zstd_decode(data) {
            Ok(bytes) => Ok(bytes),
            Err(text) => Err(LoggingError::CompressionError(text)),
        }
    }

    fn compression_type(&self) -> (r: CompressionType) {
        CompressionType::Zstd
    }

    fn estimated_ratio_percent(&self) -> (r: u32) {
        25
    }
}

impl Lz4Compressor {
    pub fn new() -> (r: Self) {
        Lz4Compressor
    }
}

impl Compressor for Lz4Compressor {
    open spec fn kind(&self) -> CompressionType {
        CompressionType::Lz4
    }

    open spec fn level(&self) -> i32 {
        0
    }

    /// Input that is longer than 32 bits can count is refused: its length would not fit
    /// in front of the compressed bytes.
    fn compress(&self, data: &[u8]) -> (r: Result<Vec<u8>, LoggingError>)
        ensures
            r is Ok <==> data@.len() <= u32::MAX,
            r matches Err(e) ==> e is CompressionError,
    {
        if data.len() > 0xffff_ffff {
            return Err(
                LoggingError::CompressionError(
                    String::from_str("Input is too long for a 32-bit length"),
                ),
            );
        }
        Ok(lz4_encode(data))
    }

    fn decompress(&self, data: &[u8]) -> (r: Result<Vec<u8>, LoggingError>)
        ensures
            r matches Err(e) ==> e is CompressionError,
    {
        match lz4_decode(data) {
            Ok(bytes) => Ok(bytes),
            Err(text) => Err(LoggingError::CompressionError(text)),
        }
    }

    fn compression_type(&self) -> (r: CompressionType) {
        CompressionType::Lz4
    }

    fn estimated_ratio_percent(&self) -> (r: u32) {
        50
    }
}

impl SnappyCompressor {
    pub fn new() -> (r: Self) {
        SnappyCompressor
    }
}

impl Compressor for SnappyCompressor {
    open spec fn kind(&self) -> CompressionType {
        CompressionType::Snappy
    }

    open spec fn level(&self) -> i32 {
        0
    }

    fn compress(&self, data: &[u8]) -> (r: Result<Vec<u8>, LoggingError>)
        ensures
            r matches Err(e) ==> e is IoError,
    {
        match snappy_encode(data) {
            Ok(bytes) => Ok(bytes),
            Err(text) => Err(LoggingError::IoError(text)),
        }
    }

    fn decompress(&self, data: &[u8]) -> (r: Result<Vec<u8>, LoggingError>)
        ensures
            r matches Err(e) ==> e is IoError,
    {
        match snappy_decode(data) {
            Ok(bytes) => Ok(bytes),
            Err(text) => Err(LoggingError::IoError(text)),
        }
    }

    fn compression_type(&self) -> (r: CompressionType) {
        CompressionType::Snappy
    }

    fn estimated_ratio_percent(&self) -> (r: u32) {
        40
    }
}

/// Any one of the codecs.
pub enum AnyCompressor {
    Plain(NoCompressor),
    Gzip(GzipCompressor),
    Zstd(ZstdCompressor),
    Lz4(Lz4Compressor),
    Snappy(SnappyCompressor),
}

impl Compressor for AnyCompressor {
    open spec fn kind(&self) -> CompressionType {
        match self {
            AnyCompressor::Plain(c) => c.kind(),
            AnyCompressor::Gzip(c) => c.kind(),
            AnyCompressor::Zstd(c) => c.kind(),
            AnyCompressor::Lz4(c) => c.kind(),
            AnyCompressor::Snappy(c) => c.kind(),
        }
    }

    open spec fn level(&self) -> i32 {
        match self {
            AnyCompressor::Plain(c) => c.level(),
            AnyCompressor::Gzip(c) => c.level(),
            AnyCompressor::Zstd(c) => c.level(),
            AnyCompressor::Lz4(c) => c.level(),
            AnyCompressor::Snappy(c) => c.level(),
        }
    }

    fn compress(&self, data: &[u8]) -> (r: Result<Vec<u8>, LoggingError>) {
        match self {
            AnyCompressor::Plain(c) => c.compress(data),
            AnyCompressor::Gzip(c) => c.compress(data),
            AnyCompressor::Zstd(c) => c.compress(data),
            AnyCompressor::Lz4(c) => c.compress(data),
            AnyCompressor::Snappy(c) => c.compress(data),
        }
    }

    fn decompress(&self, data: &[u8]) -> (r: Result<Vec<u8>, LoggingError>) {
        match self {
            AnyCompressor::Plain(c) => c.decompress(data),
            AnyCompressor::Gzip(c) => c.decompress(data),
            AnyCompressor::Zstd(c) => c.decompress(data),
            AnyCompressor::Lz4(c) => c.decompress(data),
            AnyCompressor::Snappy(c) => c.decompress(data),
        }
    }

    fn compression_type(&self) -> (r: CompressionType) {
        match self {
            AnyCompressor::Plain(c) => c.compression_type(),
            AnyCompressor::Gzip(c) => c.compression_type(),
            AnyCompressor::Zstd(c) => c.compression_type(),
            AnyCompressor::Lz4(c) => c.compression_type(),
            AnyCompressor::Snappy(c) => c.compression_type(),
        }
    }

    fn estimated_ratio_percent(&self) -> (r: u32) {
        match self {
            AnyCompressor::Plain(c) => c.estimated_ratio_percent(),
            AnyCompressor::Gzip(c) => c.estimated_ratio_percent(),
            AnyCompressor::Zstd(c) => c.estimated_ratio_percent(),
            AnyCompressor::Lz4(c) => c.estimated_ratio_percent(),
            AnyCompressor::Snappy(c) => c.estimated_ratio_percent(),
        }
    }
}

/// The codec of the given kind, zstd at its default level.
pub fn create_compressor(compression_type: CompressionType) -> (r: Result<
    AnyCompressor,
    LoggingError,
>)
    ensures
        r is Ok,
        r->Ok_0.kind() == compression_type,
        compression_type == CompressionType::Zstd ==> r->Ok_0.level() == 3,
{
    match compression_type {
        CompressionType::NoCompression => Ok(AnyCompressor::Plain(NoCompressor)),
        CompressionType::Gzip => Ok(AnyCompressor::Gzip(GzipCompressor::new())),
        CompressionType::Zstd => match ZstdCompressor::new() {
            Ok(c) => Ok(AnyCompressor::Zstd(c)),
            Err(e) => Err(e),
        },
        CompressionType::Lz4 => Ok(AnyCompressor::Lz4(Lz4Compressor::new())),
        CompressionType::Snappy => Ok(AnyCompressor::Snappy(SnappyCompressor::new())),
    }
}

/// What is sent for a serialized batch.
pub struct Payload {
    pub bytes: Vec<u8>,
    /// Whether `bytes` are compressed.
    pub compressed: bool,
}

/// What is sent for `serialized` once the codec has answered: the compressed bytes where
/// compression was tried and succeeded, the serialized bytes themselves otherwise.
pub fn select_payload(serialized: Vec<u8>, attempt: Option<Result<Vec<u8>, LoggingError>>) -> (r:
    Payload)
    ensures
        match attempt {
            Some(Ok(c)) => r.bytes == c && r.compressed,
            _ => r.bytes == serialized && !r.compressed,
        },
{
    match attempt {
        Some(Ok(compressed)) => Payload { bytes: compressed, compressed: true },
        _ => Payload { bytes: serialized, compressed: false },
    }
}

/// What is sent for `serialized`: compressed when compression is enabled, the batch is
/// at least `min_size_bytes` long and the codec has an encoding of it; as it is
/// otherwise.
pub fn prepare_payload<C: Compressor>(
    serialized: Vec<u8>,
    enabled: bool,
    min_size_bytes: usize,
    codec: &C,
) -> (r: Payload)
    ensures
        r.compressed <==> enabled && serialized@.len() >= min_size_bytes && encoded(
            codec.kind(),
            codec.level(),
            serialized@,
        ) is Some,
        r.compressed ==> encoded(codec.kind(), codec.level(), serialized@) == Some(r.bytes@)
            && decoded(codec.kind(), r.bytes@) == Some(serialized@),
        !r.compressed ==> r.bytes == serialized,
{
    if !enabled || serialized.len() < min_size_bytes {
        return select_payload(serialized, None);
    }
    let attempt = codec.compress(serialized.as_slice());
    select_payload(serialized, Some(attempt))
}

/// Gathers entries, one per line, and compresses them together. What is gathered never
/// passes the limit.
pub struct BatchCompressor {
    compressor: AnyCompressor,
    buffer: Vec<u8>,
    max_batch_size: usize,
}

impl View for BatchCompressor {
    type V = Seq<u8>;

    /// The bytes gathered so far.
    closed spec fn view(&self) -> Seq<u8> {
        self.buffer@
    }
}

impl BatchCompressor {
    /// The codec.
    pub closed spec fn codec(&self) -> AnyCompressor {
        self.compressor
    }

    /// The number of gathered bytes at which the buffer counts as full.
    pub closed spec fn limit(&self) -> usize {
        self.max_batch_size
    }

    pub fn new(compression_type: CompressionType, max_batch_size: usize) -> (r: Result<
        Self,
        LoggingError,
    >)
        ensures
            r is Ok,
            r->Ok_0.wf(),
            r->Ok_0@ == Seq::<u8>::empty(),
            r->Ok_0.limit() == max_batch_size,
            r->Ok_0.codec().kind() == compression_type,
    {
        match create_compressor(compression_type) {
            Ok(compressor) => Ok(
                BatchCompressor { compressor, buffer: Vec::new(), max_batch_size },
            ),
            Err(e) => Err(e),
        }
    }

    /// The gathered bytes, line feeds included, are within the limit.
    pub open spec fn wf(&self) -> bool {
        self@.len() <= self.limit()
    }

    /// What a flush hands out for `gathered`: no bytes where nothing was gathered, the
    /// encoding of what was gathered otherwise, and nothing where the codec has none.
    pub open spec fn flushed(kind: CompressionType, level: i32, gathered: Seq<u8>) -> Option<
        Seq<u8>,
    > {
        if gathered.len() == 0 {
            Some(Seq::<u8>::empty())
        } else {
            encoded(kind, level, gathered)
        }
    }

    /// Gathers `data` and a line feed.
    ///
    /// An entry that with its line feed is over the limit by itself is refused, and the
    /// buffer stays as it was. Where the entry and its line feed fit behind what was
    /// gathered, they are gathered. Otherwise what was gathered before is compressed
    /// and handed out, and the entry starts the next batch; where the codec fails, the
    /// buffer stays as it was and the entry is not gathered.
    pub fn add_entry(&mut self, data: &[u8]) -> (r: Result<Option<Vec<u8>>, LoggingError>)
        ensures
            final(self).limit() == old(self).limit(),
            final(self).codec() == old(self).codec(),
            old(self).wf() ==> final(self).wf(),
            data@.len() + 1 > old(self).limit() ==> r is Err && r->Err_0 is ResourceExhausted
                && final(self)@ == old(self)@,
            data@.len() + 1 <= old(self).limit() && old(self)@.len() + data@.len() + 1 <= old(self).limit() ==> r == Ok::<Option<Vec<u8>>, LoggingError>(None) && final(self)@ == old(self)@ + data@ + seq![0x0au8],
            data@.len() + 1 <= old(self).limit() && old(self)@.len() + data@.len() + 1 > old(self).limit() ==> match r {
                Ok(Some(c)) => encoded(
                    old(self).codec().kind(),
                    old(self).codec().level(),
                    old(self)@,
                ) == Some(c@) && decoded(old(self).codec().kind(), c@) == Some(old(self)@)
                    && final(self)@ == data@ + seq![0x0au8],
                Ok(None) => false,
                Err(_) => encoded(
                    old(self).codec().kind(),
                    old(self).codec().level(),
                    old(self)@,
                ) is None && final(self)@ == old(self)@,
            },
    {
        if data.len() >= self.max_batch_size {
            return Err(
                LoggingError::ResourceExhausted(
                    String::from_str("Entry is larger than the batch limit"),
                ),
            );
        }
        let room = self.max_batch_size - data.len() - 1;
        let handed = if self.buffer.len() > room {
            match self.flush() {
                Ok(compressed) => Some(compressed),
                Err(e) => {
                    return Err(e);
                },
            }
        } else {
            None
        };
        let ghost before = self.buffer@;
        let mut i: usize = 0;
        while i < data.len()
            invariant
                i <= data@.len(),
                self.buffer@ == before + data@.take(i as int),
                self.max_batch_size == old(self).max_batch_size,
                self.compressor == old(self).compressor,
            decreases data@.len() - i,
        {
            self.buffer.push(data[i]);
            i += 1;
            assert(data@.take(i as int) =~= data@.take(i - 1).push(data@[i - 1]));
        }
        assert(data@.take(data@.len() as int) =~= data@);
        self.buffer.push(0x0a);
        assert(self.buffer@ =~= before + data@ + seq![0x0au8]);
        Ok(handed)
    }

    /// Compresses what was gathered and empties the buffer. An empty buffer gives no
    /// bytes at all. The flush succeeds exactly where the codec has an encoding of what
    /// was gathered; where it fails, the buffer stays as it was.
    pub fn flush(&mut self) -> (r: Result<Vec<u8>, LoggingError>)
        ensures
            final(self).limit() == old(self).limit(),
            final(self).codec() == old(self).codec(),
            old(self).wf() ==> final(self).wf(),
            match r {
                Ok(c) => Self::flushed(
                    old(self).codec().kind(),
                    old(self).codec().level(),
                    old(self)@,
                ) == Some(c@) && final(self)@ == Seq::<u8>::empty() && (old(self)@.len() > 0
                    ==> decoded(old(self).codec().kind(), c@) == Some(old(self)@)),
                Err(_) => Self::flushed(
                    old(self).codec().kind(),
                    old(self).codec().level(),
                    old(self)@,
                ) is None && final(self)@ == old(self)@,
            },
    {
        if self.buffer.len() == 0 {
            return Ok(Vec::new());
        }
        match self.compressor.compress(self.buffer.as_slice()) {
            Ok(compressed) => {
                self.buffer.clear();
                Ok(compressed)
            },
            Err(e) => Err(e),
        }
    }

    pub fn is_full(&self) -> (r: bool)
        ensures
            r == (self@.len() >= self.limit()),
    {
        self.buffer.len() >= self.max_batch_size
    }

    /// The size of the output that is expected of the codec, in percent of the input.
    pub fn compression_ratio_percent(&self) -> (r: u32)
        ensures
            r == expected_ratio_percent(self.codec().kind()),
    {
        self.compressor.estimated_ratio_percent()
    }
}

} // verus!
