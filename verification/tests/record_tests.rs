use logging_engine::batch::{BatchPool, LogBatch};
use logging_engine::error::{LogError, LoggingError};
use logging_engine::json::{put_hex, put_i64, put_quoted, put_u64};
use logging_engine::level::LogLevel;
use logging_engine::record::{json_number, LogEntry, LogValue, RECORD_OVERHEAD};
use logging_engine::trace::{SpanId, TraceId};

#[test]
fn test_log_entry_creation() {
    let entry =
        LogEntry::new(LogLevel::Info, "test-service".to_string(), "Test message".to_string(), 1);

    assert_eq!(entry.level, LogLevel::Info);
    assert_eq!(entry.service, "test-service");
    assert_eq!(entry.message, "Test message");
    assert_eq!(entry.sequence, 1);
    assert!(entry.fields.is_empty());
}

#[test]
fn test_log_entry_with_fields() {
    let entry = LogEntry::new(LogLevel::Warn, "test".to_string(), "Test".to_string(), 2)
        .with_field("key1".to_string(), LogValue::String("value1".to_string()))
        .with_field("key2".to_string(), LogValue::Integer(42));

    assert_eq!(entry.fields.len(), 2);
    assert!(entry.fields.contains_key("key1"));
    assert!(entry.fields.contains_key("key2"));
}

#[test]
fn test_batch_operations() {
    let mut batch = LogBatch::new();

    let entry1 = LogEntry::new(LogLevel::Info, "test".to_string(), "msg1".to_string(), 1);
    let entry2 = LogEntry::new(LogLevel::Debug, "test".to_string(), "msg2".to_string(), 2);

    batch.add_entry(entry1);
    batch.add_entry(entry2);

    assert_eq!(batch.len(), 2);
    assert!(!batch.is_full());

    let result = batch.serialize_batch();
    assert!(result.is_ok());
}

fn text(bytes: Vec<u8>) -> String {
    String::from_utf8(bytes).unwrap()
}

#[test]
fn a_record_is_one_json_object() {
    let entry = LogEntry::at(1_700_000_000_123_456_789, LogLevel::Error, "svc".into(), "m".into(), 7);
    assert_eq!(
        text(entry.to_json_bytes().unwrap()),
        "{\"timestamp\":1700000000123456789,\"level\":\"ERROR\",\"service\":\"svc\",\"message\":\"m\",\"fields\":{},\"sequence\":7}"
    );
    let mut line = Vec::new();
    entry.write_json_line(&mut line);
    assert_eq!(line.last(), Some(&b'\n'));
    assert_eq!(line[..line.len() - 1], entry.to_json_bytes().unwrap()[..]);
}

#[test]
fn fields_and_identifiers_in_json() {
    let entry = LogEntry::at(5, LogLevel::Trade, "desk".into(), "fill".into(), 0)
        .with_field("symbol".into(), LogValue::String("BTCUSD".into()))
        .with_field("qty".into(), LogValue::Integer(-15))
        .with_field("px".into(), LogValue::Float("50000.25".into()))
        .with_field("nan".into(), LogValue::Float("NaN".into()))
        .with_field("ok".into(), LogValue::Boolean(true))
        .with_field("no".into(), LogValue::Boolean(false))
        .with_field("raw".into(), LogValue::Bytes(vec![0, 7, 255]))
        .with_field("empty".into(), LogValue::Bytes(vec![]))
        .with_field("none".into(), LogValue::Null)
        .with_field("qty".into(), LogValue::Integer(16))
        .with_trace_id(TraceId::from_u128(0xabc))
        .with_span_id(SpanId::from_u64(0x1f))
        .with_location("src/desk.rs", 42);
    assert_eq!(entry.location.as_deref(), Some("src/desk.rs:42"));
    let json = text(entry.to_json_bytes().unwrap());
    assert_eq!(
        json,
        "{\"timestamp\":5,\"level\":\"TRADE\",\"service\":\"desk\",\"message\":\"fill\",\"fields\":{\"symbol\":\"BTCUSD\",\"qty\":16,\"px\":50000.25,\"nan\":null,\"ok\":true,\"no\":false,\"raw\":[0,7,255],\"empty\":[],\"none\":null},\"trace_id\":\"00000000000000000000000000000abc\",\"span_id\":\"000000000000001f\",\"sequence\":0}"
    );
    let value: serde_json::Value = serde_json::from_str(&json).unwrap();
    assert_eq!(value["fields"]["qty"].as_i64(), Some(16));
    assert_eq!(value["fields"]["px"].as_f64(), Some(50000.25));
    assert_eq!(value["fields"]["raw"].as_array().unwrap().len(), 3);
    assert_eq!(value["trace_id"].as_str(), Some("00000000000000000000000000000abc"));
}

#[test]
fn strings_are_escaped_as_json_asks() {
    let nasty = "quote\" back\\slash\nnew\ttab\rret\u{8}bs\u{c}ff\u{1}\u{1f} é 漢 \u{1F600}";
    let entry = LogEntry::at(1, LogLevel::Info, nasty.into(), nasty.into(), 2)
        .with_field(nasty.into(), LogValue::String(nasty.into()));
    let json = text(entry.to_json_bytes().unwrap());
    assert!(json.contains("quote\\\" back\\\\slash\\nnew\\ttab\\rret\\bbs\\fff\\u0001\\u001f é 漢 \u{1F600}"));
    let value: serde_json::Value = serde_json::from_str(&json).unwrap();
    assert_eq!(value["service"].as_str(), Some(nasty));
    assert_eq!(value["message"].as_str(), Some(nasty));
    assert_eq!(value["fields"][nasty].as_str(), Some(nasty));

    for s in ["", "plain", "\"", "\\", "\u{0}", "a\u{7f}b", nasty] {
        let mut out = Vec::new();
        put_quoted(&mut out, s.as_bytes());
        assert_eq!(text(out), serde_json::to_string(s).unwrap(), "{:?}", s);
    }
}

#[test]
fn numbers_in_decimal_and_hexadecimal() {
    for n in [0u64, 1, 9, 10, 11, 99, 100, 12345, u64::MAX] {
        let mut out = Vec::new();
        put_u64(&mut out, n);
        assert_eq!(text(out), n.to_string());
    }
    for n in [0i64, 1, -1, 42, -42, i64::MAX, i64::MIN] {
        let mut out = Vec::new();
        put_i64(&mut out, n);
        assert_eq!(text(out), n.to_string());
    }
    for n in [0u128, 1, 0xf, 0x10, 0xdead_beef, u128::MAX] {
        let mut out = Vec::new();
        put_hex(&mut out, n, 32);
        assert_eq!(text(out), format!("{:032x}", n));
        let mut out = Vec::new();
        put_hex(&mut out, n, 4);
        assert_eq!(text(out), format!("{:04x}", n & 0xffff));
    }
    let mut out = b"x".to_vec();
    put_hex(&mut out, 0xff, 0);
    assert_eq!(out, b"x");
}

#[test]
fn json_number_grammar() {
    for good in ["0", "-0", "7", "10", "-12", "0.5", "12.25", "1e5", "1E5", "1e+5", "1.5e-10", "-0.0e0"] {
        assert!(json_number(good.as_bytes()), "{}", good);
        assert!(serde_json::from_str::<f64>(good).is_ok(), "{}", good);
    }
    for bad in ["", "-", "+1", "01", "1.", ".5", "1e", "1e+", "--1", "1.2.3", "NaN", "inf", "0x10", " 1", "1 ", "1e5.0"] {
        assert!(!json_number(bad.as_bytes()), "{}", bad);
    }
}

#[test]
fn memory_size_adds_up() {
    let bare = LogEntry::at(0, LogLevel::Info, String::new(), String::new(), 0);
    assert_eq!(bare.memory_size(), RECORD_OVERHEAD);
    assert_eq!(RECORD_OVERHEAD, 96);
    let entry = LogEntry::at(0, LogLevel::Info, "svc".into(), "héllo".into(), 0)
        .with_field("a".into(), LogValue::String("xyz".into()))
        .with_field("bb".into(), LogValue::Integer(1))
        .with_field("c".into(), LogValue::Float("1.5".into()))
        .with_field("d".into(), LogValue::Boolean(true))
        .with_field("e".into(), LogValue::Bytes(vec![1, 2, 3, 4, 5]))
        .with_field("f".into(), LogValue::Null)
        .with_trace_id(TraceId::from_u128(1))
        .with_span_id(SpanId::from_u64(1))
        .with_location("f.rs", 1);
    let fields = (1 + 3) + (2 + 8) + (1 + 8) + (1 + 1) + (1 + 5) + (1 + 0);
    assert_eq!(entry.memory_size(), 96 + 3 + 6 + fields + 16 + 8 + 6);
    assert_eq!(LogValue::String("héllo".into()).memory_size(), 6);
    assert_eq!(LogValue::Integer(0).memory_size(), 8);
    assert_eq!(LogValue::Float("2".into()).memory_size(), 8);
    assert_eq!(LogValue::Boolean(false).memory_size(), 1);
    assert_eq!(LogValue::Bytes(vec![0; 9]).memory_size(), 9);
    assert_eq!(LogValue::Null.memory_size(), 0);
}

#[test]
fn a_batch_serializes_its_records_in_order() {
    let mut batch = LogBatch::new();
    assert_eq!(batch.len(), 0);
    assert_eq!(batch.serialize_batch().unwrap(), b"");
    let mut expected = Vec::new();
    let mut bytes = 0;
    for i in 0..70u64 {
        let entry = LogEntry::at(i, LogLevel::Info, "s".into(), format!("m{}", i), i);
        entry.write_json_line(&mut expected);
        bytes += entry.memory_size();
        batch.add_entry(entry);
        assert_eq!(batch.len() as u64, i + 1);
        assert_eq!(batch.is_full(), i + 1 >= 64);
    }
    assert_eq!(batch.get(69).sequence, 69);
    assert_eq!(batch.size_bytes(), bytes);
    assert_eq!(batch.serialize_batch().unwrap(), &expected[..]);
    assert_eq!(batch.serialize_batch().unwrap(), &expected[..]);
    assert_eq!(expected.iter().filter(|b| **b == b'\n').count(), 70);
    batch.clear();
    assert_eq!(batch.len(), 0);
    assert_eq!(batch.size_bytes(), 0);
    assert_eq!(batch.serialize_batch().unwrap(), b"");
}

#[test]
fn the_pool_hands_out_empty_batches() {
    let mut pool = BatchPool::new(2);
    let mut a = pool.get_batch();
    let b = pool.get_batch();
    let c = pool.get_batch();
    assert_eq!((a.len(), b.len(), c.len()), (0, 0, 0));
    a.add_entry(LogEntry::at(0, LogLevel::Info, "s".into(), "m".into(), 0));
    let _ = a.serialize_batch();
    pool.return_batch(a);
    let mut again = pool.get_batch();
    assert_eq!(again.len(), 0);
    assert_eq!(again.serialize_batch().unwrap(), b"");
}

#[test]
fn error_messages() {
    assert_eq!(LoggingError::AlreadyInitialized.message(), "Logger already initialized");
    assert_eq!(LoggingError::InvalidLogLevel("x".into()).message(), "Invalid log level: x");
    assert_eq!(LoggingError::BufferError("full".into()).message(), "Buffer error: full");
    assert_eq!(LoggingError::TimeoutError(250).message(), "Timeout error: operation timed out after 250ms");
    assert_eq!(LoggingError::ChannelSendError.message(), "Channel send error");
    assert_eq!(LoggingError::MemoryError.message(), "Memory allocation error");
    assert_eq!(LogError::SerializationError("bad".into()).message(), "Serialization error: bad");
    assert_eq!(LogError::ChannelError("closed".into()).message(), "Channel error: closed");
    assert_eq!(LogError::IoError("disk".into()).message(), "IO error: disk");
}

#[test]
fn which_errors_are_retried() {
    let all = vec![
        LoggingError::AlreadyInitialized,
        LoggingError::InvalidLogLevel(String::new()),
        LoggingError::BufferError(String::new()),
        LoggingError::TransportError(String::new()),
        LoggingError::SerializationError(String::new()),
        LoggingError::CompressionError(String::new()),
        LoggingError::ChannelSendError,
        LoggingError::ChannelReceiveError,
        LoggingError::IoError(String::new()),
        LoggingError::ConfigError(String::new()),
        LoggingError::MetricsError(String::new()),
        LoggingError::TracingError(String::new()),
        LoggingError::NetworkError(String::new()),
        LoggingError::TimeoutError(1),
        LoggingError::MemoryError,
        LoggingError::ResourceExhausted(String::new()),
        LoggingError::Internal(String::new()),
    ];
    for e in all {
        let recoverable = matches!(
            e,
            LoggingError::TransportError(_)
                | LoggingError::NetworkError(_)
                | LoggingError::TimeoutError(_)
                | LoggingError::IoError(_)
        );
        let retry = matches!(
            e,
            LoggingError::TransportError(_)
                | LoggingError::NetworkError(_)
                | LoggingError::TimeoutError(_)
                | LoggingError::IoError(_)
        );
        assert_eq!(e.is_recoverable(), recoverable, "{:?}", e);
        assert_eq!(e.should_retry(), retry, "{:?}", e);
        assert_eq!(e.should_retry(), e.is_recoverable(), "{:?}", e);
    }
}

#[test]
fn levels_by_name_and_admission() {
    let names = [
        ("critical", LogLevel::Critical, "CRIT"),
        ("crit", LogLevel::Critical, "CRIT"),
        ("error", LogLevel::Error, "ERROR"),
        ("err", LogLevel::Error, "ERROR"),
        ("warn", LogLevel::Warn, "WARN"),
        ("warning", LogLevel::Warn, "WARN"),
        ("info", LogLevel::Info, "INFO"),
        ("debug", LogLevel::Debug, "DEBUG"),
        ("trace", LogLevel::Trace, "TRACE"),
        ("market_data", LogLevel::MarketData, "MARKET"),
        ("market", LogLevel::MarketData, "MARKET"),
        ("trade", LogLevel::Trade, "TRADE"),
        ("order", LogLevel::Order, "ORDER"),
        ("risk", LogLevel::Risk, "RISK"),
    ];
    for (name, level, shown) in names {
        assert_eq!(LogLevel::from_str(name).unwrap(), level);
        assert_eq!(LogLevel::from_str(&name.to_uppercase()).unwrap(), level);
        assert_eq!(level.as_str(), shown);
    }
    let e = LogLevel::from_str("Loud").unwrap_err();
    assert_eq!(e, LoggingError::InvalidLogLevel("Loud".to_string()));
    assert!(LogLevel::from_lowercase("INFO").is_err());

    let severities = [
        LogLevel::Critical,
        LogLevel::Error,
        LogLevel::Warn,
        LogLevel::Info,
        LogLevel::Debug,
        LogLevel::Trace,
    ];
    for (i, min) in severities.iter().enumerate() {
        for (j, level) in severities.iter().enumerate() {
            assert_eq!(min.admits(*level), j <= i, "{:?} admits {:?}", min, level);
        }
        for category in [LogLevel::MarketData, LogLevel::Trade, LogLevel::Order, LogLevel::Risk] {
            assert!(min.admits(category));
        }
    }
}
