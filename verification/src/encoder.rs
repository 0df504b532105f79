//! Encoder-side binding logic: submission flags and validation, result-code
//! checking, and the drain loop that feeds native output packets to a sink.

use vstd::prelude::*;
use vstd::slice::slice_to_vec;

use crate::error::CODEC_OK;
use crate::error::Error;
use crate::error::error_of_code;
use crate::frame::Frame;

verus! {

/// Deadline value selecting the fastest encoding effort.
pub const DL_REALTIME: u64 = 1;

/// Deadline value selecting the good-quality encoding effort.
pub const DL_GOOD_QUALITY: u64 = 1000000;

/// Deadline value selecting the best-quality encoding effort.
pub const DL_BEST_QUALITY: u64 = 0;

/// Version tag of the native encoder interface, built on the codec tag as
/// the native headers compose it.
pub const ENCODER_ABI_VERSION: i32 = crate::CODEC_ABI_VERSION + 5;

/// Input flag bit: force the submitted frame to be encoded as a keyframe.
pub const EFLAG_FORCE_KF: i64 = 0x1;

/// The native input flag word for a submission, holding the force-keyframe
/// bit exactly when asked for.
pub open spec fn spec_enc_flag_word(keyframe: bool) -> i64 {
    if keyframe {
        EFLAG_FORCE_KF
    } else {
        0i64
    }
}

/// Per-submission encode directives, built fresh for each encode call.
#[derive(Copy, Clone, Eq, PartialEq, Structural, Debug)]
pub struct FrameFlags {
    keyframe: bool,
}

impl Default for FrameFlags {
    /// Directives asking for nothing special.
    fn default() -> (r: FrameFlags)
        ensures
            !r.spec_keyframe(),
    {
        FrameFlags { keyframe: false }
    }
}

impl FrameFlags {
    /// Whether the submission asks to force a keyframe.
    pub closed spec fn spec_keyframe(self) -> bool {
        self.keyframe
    }

    /// Directives asking for nothing special.
    pub fn new() -> (r: FrameFlags)
        ensures
            !r.spec_keyframe(),
    {
        FrameFlags::default()
    }

    /// Sets whether to force the frame to be encoded as a keyframe.
    pub fn keyframe(self, keyframe: bool) -> (r: FrameFlags)
        ensures
            r.spec_keyframe() == keyframe,
    {
        FrameFlags { keyframe }
    }

    /// The native flag word these directives stand for.
    pub fn to_bits(self) -> (r: i64)
        ensures
            r == spec_enc_flag_word(self.spec_keyframe()),
    {
        if self.keyframe {
            EFLAG_FORCE_KF
        } else {
            0
        }
    }
}

/// Turns a native result code into the binding's result: success exactly on
/// the success code, and the mapped taxonomy member otherwise.
pub fn check_code(code: u32) -> (r: Result<(), Error>)
    ensures
        r == (if code == CODEC_OK {
            Ok::<(), Error>(())
        } else {
            Err::<(), Error>(error_of_code(code))
        }),
{
    if code == CODEC_OK {
        Ok(())
    } else {
        Err(Error::from(code))
    }
}

/// A validated frame submission, ready to hand to the native encode call.
#[derive(Copy, Clone, Eq, PartialEq, Structural, Debug)]
pub struct EncodeRequest {
    /// Presentation timestamp of the submitted frame.
    pub pts: i64,
    /// Duration of the submitted frame in timebase units; never zero.
    pub duration: u64,
    /// The native input flag word for the submission.
    pub flag_bits: i64,
    /// The effort deadline for the submission.
    pub deadline: u64,
}

/// Validates a frame submission before it reaches the native encoder. A zero
/// duration is undefined at the native layer, so it is rejected here as an
/// invalid parameter instead of being forwarded; any other submission passes
/// through unchanged.
pub fn prepare_encode(pts: i64, duration: u64, flags: FrameFlags, deadline: u64) -> (r: Result<
    EncodeRequest,
    Error,
>)
    ensures
        duration == 0 ==> r == Err::<EncodeRequest, Error>(Error::InvalidParam),
        duration != 0 ==> r == Ok::<EncodeRequest, Error>(
            (EncodeRequest {
                pts,
                duration,
                flag_bits: spec_enc_flag_word(flags.spec_keyframe()),
                deadline,
            }),
        ),
{
    if duration == 0 {
        Err(Error::InvalidParam)
    } else {
        Ok(EncodeRequest { pts, duration, flag_bits: flags.to_bits(), deadline })
    }
}

/// Native tag of a compressed-frame output packet.
pub const CX_FRAME_PKT: u32 = 0;

/// Native tag of a two-pass statistics output packet.
pub const STATS_PKT: u32 = 1;

/// Native tag of a first-pass macroblock statistics output packet.
pub const FPMB_STATS_PKT: u32 = 2;

/// Native tag of a PSNR output packet.
pub const PSNR_PKT: u32 = 3;

/// The classification of one drained output packet.
#[derive(Copy, Clone, Eq, PartialEq, Structural, Debug)]
pub enum PacketKind {
    /// A compressed frame.
    Frame,
    /// Two-pass statistics bytes.
    TwoPassStats,
    /// First-pass per-macroblock statistics bytes.
    FirstPassMbStats,
    /// A PSNR sample.
    Psnr,
    /// A kind this binding does not recognize, kept for forward
    /// compatibility.
    Custom,
}

/// The classification each native packet tag maps to: the four recognized
/// tags get their own kind, and every other tag is kept as custom.
pub open spec fn spec_packet_kind_of_tag(tag: u32) -> PacketKind {
    if tag == CX_FRAME_PKT {
        PacketKind::Frame
    } else if tag == STATS_PKT {
        PacketKind::TwoPassStats
    } else if tag == FPMB_STATS_PKT {
        PacketKind::FirstPassMbStats
    } else if tag == PSNR_PKT {
        PacketKind::Psnr
    } else {
        PacketKind::Custom
    }
}

/// Classifies a native packet tag.
pub fn classify_packet_tag(tag: u32) -> (r: PacketKind)
    ensures
        r == spec_packet_kind_of_tag(tag),
{
    if tag == CX_FRAME_PKT {
        PacketKind::Frame
    } else if tag == STATS_PKT {
        PacketKind::TwoPassStats
    } else if tag == FPMB_STATS_PKT {
        PacketKind::FirstPassMbStats
    } else if tag == PSNR_PKT {
        PacketKind::Psnr
    } else {
        PacketKind::Custom
    }
}

/// One PSNR sample: per-plane sample counts, error sums, and PSNR values.
/// The PSNR values are carried as raw bit patterns of the native
/// double-precision numbers; the binding forwards them without reading them.
#[derive(Copy, Clone, Eq, PartialEq, Debug)]
pub struct PsnrPacket {
    /// Number of samples, for the whole frame and per plane.
    pub samples: [u32; 4],
    /// Sum of squared errors, for the whole frame and per plane.
    pub sse: [u64; 4],
    /// PSNR in decibels as raw bit patterns, for the whole frame and per
    /// plane.
    pub psnr_bits: [u64; 4],
}

/// An unrecognized output packet: its native tag and raw payload bytes.
#[derive(Clone, Debug)]
pub struct CustomPacket {
    /// The native kind tag of the packet.
    pub kind: u32,
    /// The raw payload bytes of the packet.
    pub data: Vec<u8>,
}

/// One unit of native output drained after an encode or flush call.
#[derive(Clone, Debug)]
pub enum Packet {
    /// A compressed frame with its metadata.
    Frame(Frame),
    /// Two-pass statistics bytes.
    TwoPassStats(Vec<u8>),
    /// First-pass per-macroblock statistics bytes.
    FirstPassMbStats(Vec<u8>),
    /// A PSNR sample.
    Psnr(PsnrPacket),
    /// A packet of a kind this binding does not recognize.
    Custom(CustomPacket),
}

/// What a sink observes when one packet is dispatched to it.
pub enum Event {
    /// A compressed frame was handed to the frame handler.
    Frame { data: Seq<u8>, pts: u64, duration: u64, flags: u32, partition_id: i32 },
    /// Two-pass statistics were handed to their handler.
    TwoPassStats { data: Seq<u8> },
    /// First-pass macroblock statistics were handed to their handler.
    FirstPassMbStats { data: Seq<u8> },
    /// A PSNR sample was handed to its handler.
    Psnr { samples: Seq<u32>, sse: Seq<u64>, psnr_bits: Seq<u64> },
    /// An unrecognized packet was handed to the catch-all handler.
    Custom { kind: u32, data: Seq<u8> },
}

/// The event a sink observes for a given packet.
pub open spec fn event_of(p: Packet) -> Event {
    match p {
        Packet::Frame(f) => Event::Frame {
            data: f.data@,
            pts: f.pts,
            duration: f.duration,
            flags: f.flags,
            partition_id: f.partition_id,
        },
        Packet::TwoPassStats(d) => Event::TwoPassStats { data: d@ },
        Packet::FirstPassMbStats(d) => Event::FirstPassMbStats { data: d@ },
        Packet::Psnr(p) => Event::Psnr {
            samples: p.samples@,
            sse: p.sse@,
            psnr_bits: p.psnr_bits@,
        },
        Packet::Custom(c) => Event::Custom { kind: c.kind, data: c.data@ },
    }
}

/// The events a sink observes for a run of packets, in order.
pub open spec fn events_of(ps: Seq<Packet>) -> Seq<Event> {
    ps.map_values(|p: Packet| event_of(p))
}

proof fn lemma_events_of_push(ps: Seq<Packet>, p: Packet)
    ensures
        events_of(ps.push(p)) == events_of(ps).push(event_of(p)),
{
    assert(events_of(ps.push(p)) =~= events_of(ps).push(event_of(p)));
}

proof fn lemma_events_of_take_succ(ps: Seq<Packet>, i: int)
    requires
        0 <= i < ps.len(),
    ensures
        events_of(ps.take(i + 1)) == events_of(ps.take(i)).push(event_of(ps[i])),
{
    assert(events_of(ps.take(i + 1)) =~= events_of(ps.take(i)).push(event_of(ps[i])));
}

/// A sink for drained output packets, with one handler per payload kind.
///
/// Every handler either accepts its payload, recording exactly one matching
/// event in the sink's log, or fails and records nothing. A handler is free
/// to fail for its own reasons; the drain loop stops at the first failure.
pub trait PacketWriter: Sized {
    /// The events this sink has accepted, oldest first.
    spec fn log(&self) -> Seq<Event>;

    /// Handles one compressed frame.
    fn write_frame(&mut self, frame: &Frame) -> (r: Result<(), Error>)
        ensures
            r is Ok ==> final(self).log() == old(self).log().push(
                (Event::Frame {
                    data: frame.data@,
                    pts: frame.pts,
                    duration: frame.duration,
                    flags: frame.flags,
                    partition_id: frame.partition_id,
                }),
            ),
            r is Err ==> final(self).log() == old(self).log(),
    ;

    /// Handles two-pass statistics bytes.
    fn write_two_pass_stats(&mut self, stats: &[u8]) -> (r: Result<(), Error>)
        ensures
            r is Ok ==> final(self).log() == old(self).log().push(
                (Event::TwoPassStats { data: stats@ }),
            ),
            r is Err ==> final(self).log() == old(self).log(),
    ;

    /// Handles first-pass per-macroblock statistics bytes.
    fn write_first_pass_mb_stats(&mut self, stats: &[u8]) -> (r: Result<(), Error>)
        ensures
            r is Ok ==> final(self).log() == old(self).log().push(
                (Event::FirstPassMbStats { data: stats@ }),
            ),
            r is Err ==> final(self).log() == old(self).log(),
    ;

    /// Handles one PSNR sample.
    fn write_psnr(&mut self, samples: &[u32; 4], sse: &[u64; 4], psnr_bits: &[u64; 4]) -> (r:
        Result<(), Error>)
        ensures
            r is Ok ==> final(self).log() == old(self).log().push(
                (Event::Psnr { samples: samples@, sse: sse@, psnr_bits: psnr_bits@ }),
            ),
            r is Err ==> final(self).log() == old(self).log(),
    ;

    /// Handles a packet of an unrecognized kind.
    fn write_custom(&mut self, kind: u32, data: &[u8]) -> (r: Result<(), Error>)
        ensures
            r is Ok ==> final(self).log() == old(self).log().push(
                (Event::Custom { kind, data: data@ }),
            ),
            r is Err ==> final(self).log() == old(self).log(),
    ;
}

/// Hands one drained packet to the sink handler matching its kind. On
/// success the sink has observed exactly that packet's event; on failure it
/// has observed nothing.
pub fn dispatch_packet<W: PacketWriter>(packet: &Packet, dest: &mut W) -> (r: Result<(), Error>)
    ensures
        r is Ok ==> final(dest).log() == old(dest).log().push(event_of(*packet)),
        r is Err ==> final(dest).log() == old(dest).log(),
{
    match packet {
        Packet::Frame(frame) => dest.write_frame(frame),
        Packet::TwoPassStats(stats) => dest.write_two_pass_stats(stats.as_slice()),
        Packet::FirstPassMbStats(stats) => dest.write_first_pass_mb_stats(stats.as_slice()),
        Packet::Psnr(psnr) => dest.write_psnr(&psnr.samples, &psnr.sse, &psnr.psnr_bits),
        Packet::Custom(custom) => dest.write_custom(custom.kind, custom.data.as_slice()),
    }
}

/// Feeds a run of drained packets to the sink in order. With no pending
/// packets it succeeds at once without touching the sink. If a handler
/// fails, the drain stops there: the sink has observed exactly the packets
/// before the failing one, and the handler's error is returned.
pub fn drain_packets<W: PacketWriter>(packets: &Vec<Packet>, dest: &mut W) -> (r: Result<(), Error>)
    ensures
        r is Ok ==> final(dest).log() == old(dest).log() + events_of(packets@),
        r is Err ==> exists|i: int|
            0 <= i < packets@.len() && final(dest).log() == old(dest).log() + events_of(
                packets@.take(i),
            ),
{
    let ghost orig = dest.log();
    let mut idx: usize = 0;
    while idx < packets.len()
        invariant
            idx <= packets.len(),
            orig == old(dest).log(),
            dest.log() == orig + events_of(packets@.take(idx as int)),
        decreases packets.len() - idx,
    {
        let outcome = dispatch_packet(&packets[idx], dest);
        match outcome {
            Ok(()) => {
                proof {
                    lemma_events_of_take_succ(packets@, idx as int);
                    assert(orig + events_of(packets@.take(idx as int)).push(
                        event_of(packets@[idx as int]),
                    ) =~= (orig + events_of(packets@.take(idx as int))).push(
                        event_of(packets@[idx as int]),
                    ));
                }
                idx = idx + 1;
            },
            Err(e) => {
                proof {
                    assert(0 <= (idx as int) && (idx as int) < packets@.len() && dest.log() == orig
                        + events_of(packets@.take(idx as int)));
                }
                return Err(e);
            },
        }
    }
    proof {
        assert(packets@.take(packets@.len() as int) =~= packets@);
    }
    Ok(())
}

/// A sink that records each event it accepts, keeping the payloads as
/// packets, and that fails once a set number of events has been accepted.
/// With a limit no run can reach, it simply records everything.
#[derive(Debug)]
pub struct RecordingWriter {
    /// The accepted payloads, oldest first.
    pub records: Vec<Packet>,
    /// How many events the sink accepts before it starts failing.
    pub limit: usize,
}

impl RecordingWriter {
    /// A sink that accepts up to `limit` events.
    pub fn new(limit: usize) -> (r: RecordingWriter)
        ensures
            r.records@ == Seq::<Packet>::empty(),
            r.limit == limit,
            r.log() == Seq::<Event>::empty(),
    {
        let r = RecordingWriter { records: Vec::new(), limit };
        proof {
            assert(events_of(r.records@) =~= Seq::<Event>::empty());
        }
        r
    }

    /// The recorded payloads, oldest first.
    pub fn records(&self) -> (r: &Vec<Packet>)
        ensures
            r@ == self.records@,
    {
        &self.records
    }
}

impl PacketWriter for RecordingWriter {
    open spec fn log(&self) -> Seq<Event> {
        events_of(self.records@)
    }

    fn write_frame(&mut self, frame: &Frame) -> (r: Result<(), Error>) {
        if self.records.len() < self.limit {
            let data = slice_to_vec(frame.data.as_slice());
            let copy = Frame::new(data, frame.pts, frame.duration, frame.flags, frame.partition_id);
            let packet = Packet::Frame(copy);
            let ghost gp = packet;
            let ghost prior = self.records@;
            self.records.push(packet);
            proof {
                lemma_events_of_push(prior, gp);
            }
            Ok(())
        } else {
            Err(Error::Generic(0))
        }
    }

    fn write_two_pass_stats(&mut self, stats: &[u8]) -> (r: Result<(), Error>) {
        if self.records.len() < self.limit {
            let packet = Packet::TwoPassStats(slice_to_vec(stats));
            let ghost gp = packet;
            let ghost prior = self.records@;
            self.records.push(packet);
            proof {
                lemma_events_of_push(prior, gp);
            }
            Ok(())
        } else {
            Err(Error::Generic(0))
        }
    }

    fn write_first_pass_mb_stats(&mut self, stats: &[u8]) -> (r: Result<(), Error>) {
        if self.records.len() < self.limit {
            let packet = Packet::FirstPassMbStats(slice_to_vec(stats));
            let ghost gp = packet;
            let ghost prior = self.records@;
            self.records.push(packet);
            proof {
                lemma_events_of_push(prior, gp);
            }
            Ok(())
        } else {
            Err(Error::Generic(0))
        }
    }

    fn write_psnr(&mut self, samples: &[u32; 4], sse: &[u64; 4], psnr_bits: &[u64; 4]) -> (r:
        Result<(), Error>) {
        if self.records.len() < self.limit {
            let packet = Packet::Psnr(
                PsnrPacket { samples: *samples, sse: *sse, psnr_bits: *psnr_bits },
            );
            let ghost gp = packet;
            let ghost prior = self.records@;
            self.records.push(packet);
            proof {
                lemma_events_of_push(prior, gp);
            }
            Ok(())
        } else {
            Err(Error::Generic(0))
        }
    }

    fn write_custom(&mut self, kind: u32, data: &[u8]) -> (r: Result<(), Error>) {
        if self.records.len() < self.limit {
            let packet = Packet::Custom(CustomPacket { kind, data: slice_to_vec(data) });
            let ghost gp = packet;
            let ghost prior = self.records@;
            self.records.push(packet);
            proof {
                lemma_events_of_push(prior, gp);
            }
            Ok(())
        } else {
            Err(Error::Generic(0))
        }
    }
}

} // verus!
