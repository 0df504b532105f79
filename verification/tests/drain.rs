use vpx::Error;
use vpx::Frame;
use vpx::encoder::CustomPacket;
use vpx::encoder::Packet;
use vpx::encoder::PacketKind;
use vpx::encoder::PsnrPacket;
use vpx::encoder::RecordingWriter;
use vpx::encoder::classify_packet_tag;
use vpx::encoder::drain_packets;
use vpx::encoder::prepare_encode;
use vpx::encoder::EncodeRequest;
use vpx::encoder::FrameFlags;

#[test]
fn packet_tags_classify_as_documented() {
    assert_eq!(classify_packet_tag(0), PacketKind::Frame);
    assert_eq!(classify_packet_tag(1), PacketKind::TwoPassStats);
    assert_eq!(classify_packet_tag(2), PacketKind::FirstPassMbStats);
    assert_eq!(classify_packet_tag(3), PacketKind::Psnr);
    assert_eq!(classify_packet_tag(4), PacketKind::Custom);
    assert_eq!(classify_packet_tag(256), PacketKind::Custom);
}

#[test]
fn draining_nothing_succeeds_without_touching_the_sink() {
    let packets: Vec<Packet> = Vec::new();
    let mut sink = RecordingWriter::new(usize::MAX);
    assert_eq!(drain_packets(&packets, &mut sink), Ok(()));
    assert_eq!(sink.records().len(), 0);
}

fn mixed_packets() -> Vec<Packet> {
    vec![
        Packet::Frame(Frame::new(vec![1, 2, 3], 10, 1, 0x1, 0)),
        Packet::TwoPassStats(vec![4, 5]),
        Packet::FirstPassMbStats(vec![6]),
        Packet::Psnr(PsnrPacket {
            samples: [100, 50, 25, 25],
            sse: [9, 4, 3, 2],
            psnr_bits: [1, 2, 3, 4],
        }),
        Packet::Custom(CustomPacket { kind: 77, data: vec![7, 8, 9] }),
    ]
}

#[test]
fn draining_mixed_kinds_dispatches_each_in_order() {
    let packets = mixed_packets();
    let mut sink = RecordingWriter::new(usize::MAX);
    assert_eq!(drain_packets(&packets, &mut sink), Ok(()));
    let records = sink.records();
    assert_eq!(records.len(), 5);
    match &records[0] {
        Packet::Frame(f) => {
            assert_eq!(f.data(), &[1, 2, 3]);
            assert_eq!(f.pts, 10);
            assert_eq!(f.duration, 1);
            assert!(f.is_keyframe());
            assert_eq!(f.partition_id, 0);
        }
        other => panic!("expected a frame record, got {:?}", other),
    }
    match &records[1] {
        Packet::TwoPassStats(d) => assert_eq!(d, &vec![4, 5]),
        other => panic!("expected two-pass stats, got {:?}", other),
    }
    match &records[2] {
        Packet::FirstPassMbStats(d) => assert_eq!(d, &vec![6]),
        other => panic!("expected macroblock stats, got {:?}", other),
    }
    match &records[3] {
        Packet::Psnr(p) => {
            assert_eq!(p.samples, [100, 50, 25, 25]);
            assert_eq!(p.sse, [9, 4, 3, 2]);
            assert_eq!(p.psnr_bits, [1, 2, 3, 4]);
        }
        other => panic!("expected a psnr record, got {:?}", other),
    }
    match &records[4] {
        Packet::Custom(c) => {
            assert_eq!(c.kind, 77);
            assert_eq!(c.data, vec![7, 8, 9]);
        }
        other => panic!("expected a custom record, got {:?}", other),
    }
}

#[test]
fn drain_stops_at_the_first_handler_failure() {
    let packets = mixed_packets();
    let mut sink = RecordingWriter::new(2);
    let result = drain_packets(&packets, &mut sink);
    assert_eq!(result, Err(Error::Generic(0)));
    let records = sink.records();
    assert_eq!(records.len(), 2);
    assert!(matches!(&records[0], Packet::Frame(_)));
    assert!(matches!(&records[1], Packet::TwoPassStats(_)));
}

#[test]
fn drain_over_one_rejected_packet_records_nothing() {
    let packets = vec![Packet::TwoPassStats(vec![1])];
    let mut sink = RecordingWriter::new(0);
    assert!(drain_packets(&packets, &mut sink).is_err());
    assert_eq!(sink.records().len(), 0);
}

#[test]
fn zero_duration_is_rejected_before_the_native_layer() {
    let r = prepare_encode(0, 0, FrameFlags::new(), 1);
    assert_eq!(r, Err(Error::InvalidParam));
}

#[test]
fn valid_submissions_pass_through_unchanged() {
    let r = prepare_encode(90, 3, FrameFlags::new().keyframe(true), 1000000);
    assert_eq!(
        r,
        Ok(EncodeRequest { pts: 90, duration: 3, flag_bits: 1, deadline: 1000000 })
    );
    let plain = prepare_encode(-5, 1, FrameFlags::new(), 0);
    assert_eq!(
        plain,
        Ok(EncodeRequest { pts: -5, duration: 1, flag_bits: 0, deadline: 0 })
    );
}
