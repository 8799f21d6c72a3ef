use embassy_sync::blocking_mutex::raw::NoopRawMutex;
use embassy_sync::mutex::Mutex;
use uartbridge::heartbeat::{Heartbeat, HEARTBEAT_INTERVAL_S};
use uartbridge::identity::{get_unique_id, nibble_to_ascii, parse_serial, serial_number, SERIAL_LEN};
use uartbridge::ingest::{frame_data, IngestAction, ReadOutcome, SerialIngest, POLL_INTERVAL_MS, READ_BUF_LEN};
use uartbridge::server::{CommandServerLoop, SessionState};
use uartbridge::usb::{usb_config, PRODUCT_ID, VENDOR_ID};

const TICKS_PER_SECOND: u64 = 1_000_000;

#[test]
fn nibbles_map_to_uppercase_ascii() {
    assert_eq!(nibble_to_ascii(0), b'0');
    assert_eq!(nibble_to_ascii(9), b'9');
    assert_eq!(nibble_to_ascii(10), b'A');
    assert_eq!(nibble_to_ascii(15), b'F');
}

#[test]
fn serial_number_is_fixed_width_hex() {
    assert_eq!(serial_number(0x00A1B2C3D4E5F607), b"00A1B2C3D4E5F607".to_vec());
    assert_eq!(serial_number(0), b"0000000000000000".to_vec());
    assert_eq!(serial_number(u64::MAX), b"FFFFFFFFFFFFFFFF".to_vec());
    assert_eq!(serial_number(0x1234).len(), SERIAL_LEN);
}

#[test]
fn serial_number_round_trips() {
    for id in [0u64, 1, 0x00A1B2C3D4E5F607, 0xDEADBEEF00112233, u64::MAX] {
        let s = serial_number(id);
        assert_eq!(parse_serial(&s), Some(id));
    }
}

#[test]
fn serial_decodes_byte_pairs() {
    let s = serial_number(0x00A1B2C3D4E5F607);
    let bytes: Vec<u8> = s
        .chunks(2)
        .map(|p| u8::from_str_radix(std::str::from_utf8(p).unwrap(), 16).unwrap())
        .collect();
    assert_eq!(bytes, vec![0x00, 0xA1, 0xB2, 0xC3, 0xD4, 0xE5, 0xF6, 0x07]);
}

#[test]
fn parse_serial_rejects_malformed() {
    assert_eq!(parse_serial(b"00a1b2c3d4e5f607"), None);
    assert_eq!(parse_serial(b"00A1B2C3D4E5F60"), None);
    assert_eq!(parse_serial(b"00A1B2C3D4E5F6070"), None);
    assert_eq!(parse_serial(b"00A1B2C3D4E5F6G7"), None);
    assert_eq!(parse_serial(b""), None);
}

#[test]
fn unique_id_is_big_endian() {
    let read = Some([0x00, 0xA1, 0xB2, 0xC3, 0xD4, 0xE5, 0xF6, 0x07]);
    assert_eq!(get_unique_id(read), Some(0x00A1B2C3D4E5F607));
    assert_eq!(get_unique_id(Some([0xFF; 8])), Some(u64::MAX));
}

#[test]
fn unique_id_absent_when_read_fails() {
    assert_eq!(get_unique_id(None), None);
}

#[test]
fn two_ticks_publish_two_frames() {
    let mut ingest = SerialIngest::new();
    let mut buf = [0u8; READ_BUF_LEN];
    buf[..2].copy_from_slice(&[0x41, 0x42]);
    assert_eq!(
        ingest.on_read(ReadOutcome::Received(2)),
        IngestAction::Publish { seq: 1, len: 2 }
    );
    assert_eq!(frame_data(&buf, 2), b"AB");
    assert_eq!(ingest.on_published(true), IngestAction::ReadAgain);
    assert_eq!(ingest.on_read(ReadOutcome::NotReady), IngestAction::WaitForTick);

    buf[..1].copy_from_slice(&[0x43]);
    assert_eq!(
        ingest.on_read(ReadOutcome::Received(1)),
        IngestAction::Publish { seq: 2, len: 1 }
    );
    assert_eq!(frame_data(&buf, 1), b"C");
}

#[test]
fn empty_read_publishes_nothing() {
    let mut ingest = SerialIngest::new();
    assert_eq!(ingest.on_read(ReadOutcome::Received(0)), IngestAction::WaitForTick);
    assert_eq!(ingest.seq_no(), 0);
}

#[test]
fn not_ready_and_failed_reads_wait() {
    let mut ingest = SerialIngest::new();
    assert_eq!(ingest.on_read(ReadOutcome::NotReady), IngestAction::WaitForTick);
    assert_eq!(ingest.on_read(ReadOutcome::Failed), IngestAction::WaitForTick);
    assert_eq!(ingest.seq_no(), 0);
}

#[test]
fn sequence_has_no_gaps_across_idle_reads() {
    let mut ingest = SerialIngest::new();
    let outcomes = [
        ReadOutcome::Received(3),
        ReadOutcome::NotReady,
        ReadOutcome::Failed,
        ReadOutcome::Received(0),
        ReadOutcome::Received(READ_BUF_LEN),
        ReadOutcome::NotReady,
        ReadOutcome::Received(1),
    ];
    let mut seqs = Vec::new();
    for o in outcomes {
        if let IngestAction::Publish { seq, .. } = ingest.on_read(o) {
            seqs.push(seq);
        }
    }
    assert_eq!(seqs, vec![1, 2, 3]);
}

#[test]
fn sequence_wraps_to_zero() {
    let mut ingest = SerialIngest { seq_no: 65534 };
    assert_eq!(
        ingest.on_read(ReadOutcome::Received(5)),
        IngestAction::Publish { seq: 65535, len: 5 }
    );
    assert_eq!(
        ingest.on_read(ReadOutcome::Received(5)),
        IngestAction::Publish { seq: 0, len: 5 }
    );
    assert_eq!(
        ingest.on_read(ReadOutcome::Received(5)),
        IngestAction::Publish { seq: 1, len: 5 }
    );
}

#[test]
fn failed_publish_keeps_polling() {
    let mut ingest = SerialIngest::new();
    assert_eq!(
        ingest.on_read(ReadOutcome::Received(4)),
        IngestAction::Publish { seq: 1, len: 4 }
    );
    assert_eq!(ingest.on_published(false), IngestAction::ReadAgain);
    assert_eq!(
        ingest.on_read(ReadOutcome::Received(2)),
        IngestAction::Publish { seq: 2, len: 2 }
    );
}

#[test]
fn frame_holds_exactly_the_bytes_read() {
    let buf = [7u8; READ_BUF_LEN];
    assert_eq!(frame_data(&buf, 0).len(), 0);
    assert_eq!(frame_data(&buf, READ_BUF_LEN).len(), READ_BUF_LEN);
}

#[test]
fn cadences() {
    assert_eq!(POLL_INTERVAL_MS, 10);
    assert_eq!(HEARTBEAT_INTERVAL_S, 3);
    assert_eq!(READ_BUF_LEN, 128);
}

#[test]
fn reconnects_after_each_failure() {
    let mut server = CommandServerLoop::new();
    assert_eq!(server.state(), SessionState::Running);
    assert_eq!(server.attempts(), 1);
    for _ in 0..3 {
        server.on_session_end();
        assert_eq!(server.state(), SessionState::SessionEnded);
        server.restart();
    }
    assert_eq!(server.state(), SessionState::Running);
    assert_eq!(server.attempts(), 4);
}

#[test]
fn heartbeat_every_three_seconds() {
    let start = 5_000;
    let hb = Heartbeat::new(start);
    let mut last = 0;
    for k in 0..3u64 {
        let now = start + k * HEARTBEAT_INTERVAL_S * TICKS_PER_SECOND;
        let e = hb.elapsed(now).unwrap();
        assert!(e >= last);
        assert_eq!(e, k * 3 * TICKS_PER_SECOND);
        last = e;
    }
    assert_eq!(
        hb.liveness_message(start + 3 * TICKS_PER_SECOND).unwrap(),
        "Uptime: Duration { ticks: 3000000 }"
    );
    assert_eq!(hb.liveness_message(start).unwrap(), "Uptime: Duration { ticks: 0 }");
}

#[test]
fn heartbeat_before_start_is_none() {
    let hb = Heartbeat::new(100);
    assert_eq!(hb.elapsed(99), None);
    assert!(hb.liveness_message(99).is_none());
}

#[test]
fn usb_descriptor_values() {
    let c = usb_config("00A1B2C3D4E5F607");
    assert_eq!(c.vendor_id, VENDOR_ID);
    assert_eq!(c.vendor_id, 0x16c0);
    assert_eq!(c.product_id, PRODUCT_ID);
    assert_eq!(c.product_id, 0x27DD);
    assert_eq!(c.manufacturer, "OneVariable");
    assert_eq!(c.product, "poststation-pico");
    assert_eq!(c.serial_number, "00A1B2C3D4E5F607");
    assert_eq!((c.device_class, c.device_sub_class, c.device_protocol), (0xEF, 0x02, 0x01));
    assert!(c.composite_with_iads);
}

#[test]
fn guard_excludes_second_holder_until_release() {
    let line: Mutex<NoopRawMutex, Vec<u8>> = Mutex::new(Vec::new());
    let mut held = line.try_lock().unwrap();
    held.extend_from_slice(b"AB");
    assert!(line.try_lock().is_err());
    held.push(b'C');
    drop(held);
    let mut writer = line.try_lock().unwrap();
    assert_eq!(writer.as_slice(), b"ABC");
    writer.extend_from_slice(b"xy");
    drop(writer);
    assert_eq!(line.try_lock().unwrap().as_slice(), b"ABCxy");
}
