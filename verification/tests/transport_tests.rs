use logging_engine::clock::{current_time_micros, micros_of_nanos};
use logging_engine::config::TransportConfig;
use logging_engine::error::LoggingError;
use logging_engine::config::ConnectionConfig;
use logging_engine::transport::{
    create_transport, decode_frame, encode_frame, rotated_name, wire_bytes, FileState,
    RedisTransport, RotationPolicy, StdoutTransport, TcpTransport, TransportKind,
};

#[test]
fn a_frame_is_a_length_and_a_payload() {
    assert_eq!(encode_frame(b"").unwrap(), vec![0, 0, 0, 0]);
    assert_eq!(encode_frame(b"abc").unwrap(), vec![0, 0, 0, 3, b'a', b'b', b'c']);
    let payload = vec![9u8; 0x01_02_03];
    let frame = encode_frame(&payload).unwrap();
    assert_eq!(&frame[..4], &[0, 1, 2, 3]);
    assert_eq!(&frame[..4], &(payload.len() as u32).to_be_bytes());
    assert_eq!(frame.len(), payload.len() + 4);
    assert_eq!(&frame[4..], &payload[..]);
}

#[test]
fn frames_are_read_back_one_by_one() {
    let mut stream = encode_frame(b"first").unwrap();
    stream.extend(encode_frame(b"").unwrap());
    stream.extend(encode_frame(b"third!").unwrap());
    let mut at = 0;
    let mut seen = Vec::new();
    while let Some((payload, used)) = decode_frame(&stream[at..]) {
        seen.push(payload);
        at += used;
    }
    assert_eq!(seen, vec![b"first".to_vec(), b"".to_vec(), b"third!".to_vec()]);
    assert_eq!(at, stream.len());
    assert_eq!(decode_frame(b""), None);
    assert_eq!(decode_frame(&[0, 0, 0]), None);
    assert_eq!(decode_frame(&[0, 0, 0, 2, 1]), None);
    assert_eq!(decode_frame(&[0, 0, 0, 2, 1, 2, 3]), Some((vec![1, 2], 6)));
    assert_eq!(decode_frame(&[255, 255, 255, 255, 1]), None);
}

#[test]
fn each_transport_writes_its_own_format() {
    let payload = b"{\"a\":1}\n";
    for kind in [TransportKind::Stdout, TransportKind::Console, TransportKind::File, TransportKind::Kafka] {
        assert_eq!(wire_bytes(kind, "logs", payload).unwrap(), payload.to_vec());
    }
    for kind in [TransportKind::Tcp, TransportKind::Udp] {
        assert_eq!(wire_bytes(kind, "logs", payload).unwrap(), encode_frame(payload).unwrap());
    }
    assert_eq!(
        wire_bytes(TransportKind::Redis, "logs:prod", payload).unwrap(),
        b"*3\r\n$7\r\nPUBLISH\r\n$9\r\nlogs:prod\r\n$8\r\n{\"a\":1}\n\r\n".to_vec()
    );
    assert_eq!(
        wire_bytes(TransportKind::Redis, "", b"").unwrap(),
        b"*3\r\n$7\r\nPUBLISH\r\n$0\r\n\r\n$0\r\n\r\n".to_vec()
    );
}

#[test]
fn transports_by_name() {
    let mut config = TransportConfig::default();
    for (name, kind) in [
        ("file", TransportKind::File),
        ("kafka", TransportKind::Kafka),
        ("redis", TransportKind::Redis),
        ("tcp", TransportKind::Tcp),
        ("udp", TransportKind::Udp),
        ("stdout", TransportKind::Stdout),
        ("console", TransportKind::Console),
    ] {
        config.transport_type = name.to_string();
        assert_eq!(create_transport(&config).unwrap().transport_kind(), kind);
        assert_eq!(TransportKind::parse(name), Some(kind));
    }
    config.transport_type = "STDOUT".to_string();
    match create_transport(&config) {
        Err(e) => {
            assert!(matches!(e, LoggingError::TransportError(_)));
            assert_eq!(e.message(), "Transport error: Unknown transport type: STDOUT");
        }
        Ok(_) => panic!("the names are in lower case"),
    }
    assert_eq!(TransportKind::parse(""), None);
    assert!(TcpTransport::new(&TransportConfig::default()).is_ok());
    let _ = StdoutTransport::new();
}

#[test]
fn the_clock_in_microseconds() {
    assert_eq!(micros_of_nanos(0), 0);
    assert_eq!(micros_of_nanos(999), 0);
    assert_eq!(micros_of_nanos(1_000), 1);
    assert_eq!(micros_of_nanos(1_700_000_000_123_456_789), 1_700_000_000_123_456);
    let a = current_time_micros();
    assert!(a > 1_600_000_000_000_000);
}

#[test]
fn transports_remember_their_other_end() {
    let config = TransportConfig {
        transport_type: "redis".to_string(),
        connection: ConnectionConfig {
            host: "cache.internal".to_string(),
            port: 6379,
            ..ConnectionConfig::default()
        },
    };
    assert_eq!(RedisTransport::new(&config).unwrap().endpoint(), ("cache.internal", 6379));
    assert_eq!(TcpTransport::new(&TransportConfig::default()).unwrap().endpoint(), ("localhost", 9200));
}

#[test]
fn files_rotate_by_size_and_by_age() {
    let policy = RotationPolicy {
        max_file_bytes: 100,
        max_age_micros: 1_000,
        retained_files: 3,
        compress_rotated: true,
    };
    let mut state = FileState { size_bytes: 0, opened_at_micros: 0 };
    assert!(!policy.before_append(&mut state, 150, 10), "an empty file takes any batch");
    assert_eq!(state, FileState { size_bytes: 150, opened_at_micros: 0 });
    assert!(policy.before_append(&mut state, 1, 20));
    assert_eq!(state, FileState { size_bytes: 1, opened_at_micros: 20 });
    assert!(!policy.before_append(&mut state, 99, 30));
    assert_eq!(state.size_bytes, 100);
    assert!(policy.before_append(&mut state, 1, 40));
    assert!(!policy.before_append(&mut state, 1, 1_040));
    assert!(policy.before_append(&mut state, 1, 1_041));
    assert_eq!(state, FileState { size_bytes: 1, opened_at_micros: 1_041 });
    assert!(!policy.before_append(&mut state, 1, 5), "a clock that went back closes nothing");

    let unlimited = RotationPolicy { max_file_bytes: 0, max_age_micros: 0, ..policy };
    let mut state = FileState { size_bytes: u64::MAX - 1, opened_at_micros: 0 };
    assert!(!unlimited.before_append(&mut state, 10, u64::MAX));
    assert_eq!(state.size_bytes, u64::MAX);

    assert_eq!((0..5).map(|i| policy.keeps(i)).collect::<Vec<_>>(), vec![false, true, true, true, false]);
    assert_eq!(rotated_name("/var/log/engine.log", 2, true), "/var/log/engine.log.2.gz");
    assert_eq!(rotated_name("engine.log", 10, false), "engine.log.10");
}
