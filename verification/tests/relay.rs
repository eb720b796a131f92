use bytes::BytesMut;
use middleware::config::{AppConfig, Config, Consumer, NatsConfig, Topic};
use middleware::connection::{ReadBuffer, ReadOutcome};
use middleware::handler::{HandlerAction, HandlerEvent, Phase};
use middleware::server::{consumer_settings, stream_settings, RetentionPolicy};
use middleware::utils::{extract_tid, tid_on_char_boundaries, try_extract_tid, TidError};

const ECR_MESSAGE: &str = "ACQ103TID88824756\0\nECR0110X/0";

#[test]
fn tid_of_ecr_message() {
    let data = BytesMut::from(ECR_MESSAGE);
    assert!(tid_on_char_boundaries(&data));
    assert_eq!(extract_tid(&data), Some("88824756"));
}

#[test]
fn tid_of_pos_reply() {
    let data = BytesMut::from("ACQ103TID88824756\0\x0ePOS0110X/hellopos");
    assert_eq!(extract_tid(&data), Some("88824756"));
}

#[test]
fn tid_needs_more_than_17_bytes() {
    let exactly = BytesMut::from("ACQ103TID88824756");
    assert_eq!(exactly.len(), 17);
    assert_eq!(extract_tid(&exactly), None);
    let longer = BytesMut::from("ACQ103TID88824756X");
    assert_eq!(extract_tid(&longer), Some("88824756"));
    assert_eq!(extract_tid(&BytesMut::new()), None);
}

#[test]
fn tid_needs_valid_utf8() {
    let mut bytes = ECR_MESSAGE.as_bytes().to_vec();
    bytes[20] = 0xff;
    let data = BytesMut::from(&bytes[..]);
    assert!(tid_on_char_boundaries(&data));
    assert_eq!(extract_tid(&data), None);
}

#[test]
fn tid_split_character_detected() {
    // "é" is two bytes; placed at bytes 8 and 9, byte 9 is inside it.
    let data = BytesMut::from("ACQ103TIé8824756 tail");
    assert!(!tid_on_char_boundaries(&data));
    // Multi-byte characters away from the cut are fine.
    let data = BytesMut::from("ACQ103TID88824756 café");
    assert!(tid_on_char_boundaries(&data));
    assert_eq!(extract_tid(&data), Some("88824756"));
    // A two-byte character that fills bytes 9 and 10 is part of the id.
    let data = BytesMut::from("ACQ103TIDé824756 tail");
    assert!(tid_on_char_boundaries(&data));
    assert_eq!(extract_tid(&data), Some("é824756"));
}

#[test]
fn subjects_join_prefix_and_tid() {
    let topic = Topic::default();
    assert_eq!(topic.ecr_subject("88824756"), "events.ecr.88824756");
    assert_eq!(topic.pos_subject("88824756"), "events.pos.88824756");
    let custom = Topic { ecr: "a".to_string(), pos: String::new() };
    assert_eq!(custom.ecr_subject("x"), "a.x");
    assert_eq!(custom.pos_subject(""), ".");
}

#[test]
fn default_settings() {
    let c = Config::default();
    assert_eq!(c.app.host, [0, 0, 0, 0]);
    assert_eq!(c.app.port, 8080);
    assert_eq!(c.nats.url, "nats://127.0.0.1:4222");
    assert_eq!(c.nats.stream, "EVENTS");
    assert_eq!(c.nats.subjects, "events.>");
    assert_eq!(c.nats.topic.ecr, "events.ecr");
    assert_eq!(c.nats.topic.pos, "events.pos");
    assert_eq!(c.nats.consumer.durable_name, "middleware-processor");
    assert_eq!(c.nats.consumer.filter_subject, "events.pos.>");
    let consumer = Consumer::default();
    assert_eq!(consumer.filter_subject, "events.pos.>");
}

#[test]
fn bind_address_in_decimal() {
    assert_eq!(AppConfig::default().bind_address(), "0.0.0.0:8080");
    let app = AppConfig { host: [127, 0, 0, 1], port: 4000 };
    assert_eq!(app.bind_address(), "127.0.0.1:4000");
    let app = AppConfig { host: [255, 10, 9, 100], port: 65535 };
    assert_eq!(app.bind_address(), "255.10.9.100:65535");
    let app = AppConfig { host: [1, 2, 3, 4], port: 0 };
    assert_eq!(app.bind_address(), "1.2.3.4:0");
}

#[test]
fn stream_and_consumer_from_settings() {
    let nats = NatsConfig::default();
    let s = stream_settings(&nats);
    assert_eq!(s.name, "EVENTS");
    assert!(matches!(s.retention, RetentionPolicy::WorkQueue));
    assert_eq!(s.subjects, vec!["events.>".to_string()]);
    assert_eq!(s.max_age_secs, 60);
    let c = consumer_settings(&nats);
    assert_eq!(c.durable_name.as_deref(), Some("middleware-processor"));
    assert_eq!(c.filter_subject, "events.pos.>");
}

#[test]
fn read_buffer_hands_out_everything() {
    let mut rb = ReadBuffer::new();
    assert_eq!(rb.len(), 0);
    assert!(rb.parse_data().is_none());
    assert!(matches!(rb.on_read(b"hello "), ReadOutcome::ReadMore));
    assert!(matches!(rb.on_read(b"world"), ReadOutcome::ReadMore));
    assert_eq!(rb.len(), 11);
    let data = rb.parse_data().unwrap();
    assert_eq!(&data[..], b"hello world");
    assert_eq!(rb.len(), 0);
    assert!(rb.parse_data().is_none());
}

#[test]
fn read_buffer_end_of_stream() {
    let mut rb = ReadBuffer::new();
    assert!(matches!(rb.on_read(b""), ReadOutcome::Closed));
    assert!(matches!(rb.on_read(b"partial"), ReadOutcome::ReadMore));
    assert!(matches!(rb.on_read(b""), ReadOutcome::Reset));
    assert_eq!(&rb.parse_data().unwrap()[..], b"partial");
    assert!(matches!(rb.on_read(b""), ReadOutcome::Closed));
}

fn publish_round(topic: &Topic, message: &str) -> (Phase, String, Vec<u8>) {
    let (phase, action) = Phase::new().step(topic, HandlerEvent::LoopStart { shutdown: false });
    assert!(matches!(action, HandlerAction::ReadData));
    let data = BytesMut::from(message);
    let (phase, action) = phase.step(topic, HandlerEvent::DataRead { data: Some(data) });
    match action {
        HandlerAction::Publish { subject, payload } => (phase, subject, payload.to_vec()),
        _ => panic!("expected a publish"),
    }
}

#[test]
fn handler_relays_matching_reply() {
    let topic = Topic::default();
    let (phase, subject, payload) = publish_round(&topic, ECR_MESSAGE);
    assert_eq!(subject, "events.ecr.88824756");
    assert_eq!(payload, ECR_MESSAGE.as_bytes());
    assert!(matches!(phase, Phase::Publishing { .. }));
    let (phase, action) = phase.step(&topic, HandlerEvent::Published);
    assert!(matches!(action, HandlerAction::NextMessage));
    let reply = HandlerEvent::Message {
        subject: "events.pos.88824756".to_string(),
        payload: b"ACQ103TID88824756\0\x0ePOS0110X/hellopos".to_vec(),
    };
    let (phase, action) = phase.step(&topic, reply);
    match action {
        HandlerAction::Deliver { payload } => {
            assert_eq!(payload, b"ACQ103TID88824756\0\x0ePOS0110X/hellopos".to_vec())
        }
        _ => panic!("expected a delivery"),
    }
    assert!(matches!(phase, Phase::Idle));
}

#[test]
fn handler_skips_other_terminal() {
    let topic = Topic::default();
    let (phase, _, _) = publish_round(&topic, ECR_MESSAGE);
    let (phase, _) = phase.step(&topic, HandlerEvent::Published);
    let other = HandlerEvent::Message {
        subject: "events.pos.11111111".to_string(),
        payload: b"not for us".to_vec(),
    };
    let (phase, action) = phase.step(&topic, other);
    assert!(matches!(action, HandlerAction::Skip));
    assert!(matches!(phase, Phase::Idle));
    let (_, action) = phase.step(&topic, HandlerEvent::LoopStart { shutdown: false });
    assert!(matches!(action, HandlerAction::ReadData));
}

#[test]
fn handler_stops_without_tid_or_data() {
    let topic = Topic::default();
    let (phase, _) = Phase::new().step(&topic, HandlerEvent::LoopStart { shutdown: false });
    let short = BytesMut::from("hello");
    let (phase, action) = phase.step(&topic, HandlerEvent::DataRead { data: Some(short) });
    assert!(matches!(action, HandlerAction::Finish));
    assert!(matches!(phase, Phase::Stopped));

    let (phase, _) = Phase::new().step(&topic, HandlerEvent::LoopStart { shutdown: false });
    let (phase, action) = phase.step(&topic, HandlerEvent::DataRead { data: None });
    assert!(matches!(action, HandlerAction::Finish));
    assert!(matches!(phase, Phase::Stopped));
}

#[test]
fn handler_stops_on_shutdown() {
    let topic = Topic::default();
    let (phase, action) = Phase::new().step(&topic, HandlerEvent::LoopStart { shutdown: true });
    assert!(matches!(action, HandlerAction::Finish));
    assert!(matches!(phase, Phase::Stopped));

    let (phase, _) = Phase::new().step(&topic, HandlerEvent::LoopStart { shutdown: false });
    let (phase, action) = phase.step(&topic, HandlerEvent::Shutdown);
    assert!(matches!(action, HandlerAction::Finish));
    assert!(matches!(phase, Phase::Stopped));

    let (phase, _, _) = publish_round(&topic, ECR_MESSAGE);
    let (phase, _) = phase.step(&topic, HandlerEvent::Published);
    let (phase, action) = phase.step(&topic, HandlerEvent::Shutdown);
    assert!(matches!(action, HandlerAction::Finish));
    assert!(matches!(phase, Phase::Stopped));
}

#[test]
fn handler_uses_configured_topics() {
    let topic = Topic { ecr: "ecr.pos".to_string(), pos: "pos.ecr".to_string() };
    let (phase, subject, _) = publish_round(&topic, "ACQ103TIDtid00001:message_from_ecr");
    assert_eq!(subject, "ecr.pos.tid00001");
    let (phase, _) = phase.step(&topic, HandlerEvent::Published);
    let reply = HandlerEvent::Message {
        subject: "pos.ecr.tid00001".to_string(),
        payload: b"response_from_pos_1".to_vec(),
    };
    let (_, action) = phase.step(&topic, reply);
    match action {
        HandlerAction::Deliver { payload } => assert_eq!(payload, b"response_from_pos_1".to_vec()),
        _ => panic!("expected a delivery"),
    }
}

#[test]
fn try_tid_reports_split_character() {
    let split = BytesMut::from("ACQ103TIé8824756 tail");
    assert!(matches!(try_extract_tid(&split), Err(TidError::SplitsCharacter)));
    let ok = BytesMut::from(ECR_MESSAGE);
    assert!(matches!(try_extract_tid(&ok), Ok(Some("88824756"))));
    let short = BytesMut::from("hello");
    assert!(matches!(try_extract_tid(&short), Ok(None)));
}

#[test]
fn read_buffer_whole_stream_in_order() {
    let chunks: [&[u8]; 4] = [b"ACQ103", b"TID88824756", b"\0\nECR0110X/0", b""];
    let mut rb = ReadBuffer::new();
    let mut delivered: Vec<u8> = Vec::new();
    let mut pieces = 0;
    let mut end = None;
    let mut next = 0;
    while end.is_none() {
        if let Some(d) = rb.parse_data() {
            assert!(!d.is_empty());
            delivered.extend_from_slice(&d);
            pieces += 1;
            continue;
        }
        match rb.on_read(chunks[next]) {
            ReadOutcome::ReadMore => next += 1,
            other => end = Some(other),
        }
    }
    assert!(matches!(end, Some(ReadOutcome::Closed)));
    assert_eq!(pieces, 3);
    assert_eq!(delivered, ECR_MESSAGE.as_bytes());
}
